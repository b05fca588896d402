//! The branch order of the material scattering algorithm.
//!
//! One parametrized record covers diffuse, metallic and refractive
//! behaviour: a material with no reflection factor always scatters along the
//! surface normal; one with a reflection factor first weighs refraction
//! against reflection by a uniform draw, attempts refraction unless total
//! internal reflection or the Schlick reflectance forbids it, and otherwise
//! mirror-reflects. A chosen direction that ends up nearly orthogonal to the
//! normal is absorbed; a surviving one is perturbed when the material
//! diffuses. That order is load-bearing: a later branch runs only when every
//! earlier one left the direction open, and the functions here pin it down.
//! The vector arithmetic behind each branch is the caller's floating-point
//! work; which branch applies is decided and proved here.

use crate::intersect::Face;
use vstd::prelude::*;

verus! {

/// Which construction yields the outgoing direction of a scatter.
#[derive(Clone, Copy, PartialEq, Eq, Structural, Debug)]
pub enum ScatterBasis {
    /// Pure diffusion: the direction is forced to the stored normal.
    SurfaceNormal,
    /// Snell refraction through the surface.
    Refraction,
    /// Mirror reflection off the surface.
    Reflection,
}

/// The comparisons that steer one scatter, reported by the caller.
///
/// Each field is the outcome of a floating-point test of the material's
/// parameters against the hit and the uniform draws; the fields appear in
/// the order the algorithm consults them.
#[derive(Clone, Copy, PartialEq, Eq, Structural, Debug)]
pub struct ScatterDraws {
    /// The material carries a reflection factor (it is not pure-diffuse).
    pub has_reflection: bool,
    /// The reflection factor fell below the first uniform draw, so
    /// refraction is attempted.
    pub prefers_refraction: bool,
    /// `density_ratio * sin_theta > 1`: refraction has no real solution.
    pub total_internal_reflection: bool,
    /// The Schlick reflectance fell at or below the second uniform draw,
    /// so refraction is accepted over reflection.
    pub reflectance_passes: bool,
}

/// Choose the construction of the outgoing direction.
///
/// Without a reflection factor the direction is the normal,
/// unconditionally. With one, refraction must be preferred by the first
/// draw, be soluble (no total internal reflection) and be accepted by the
/// Schlick test against the second draw; failing any of these, the ray is
/// mirror-reflected.
pub fn scatter_basis(d: ScatterDraws) -> (b: ScatterBasis)
    ensures
        !d.has_reflection ==> b is SurfaceNormal,
        d.has_reflection && d.prefers_refraction && !d.total_internal_reflection
            && d.reflectance_passes ==> b is Refraction,
        d.has_reflection
            && !(d.prefers_refraction && !d.total_internal_reflection && d.reflectance_passes)
            ==> b is Reflection,
{
    if !d.has_reflection {
        ScatterBasis::SurfaceNormal
    } else if d.prefers_refraction && !d.total_internal_reflection && d.reflectance_passes {
        ScatterBasis::Refraction
    } else {
        ScatterBasis::Reflection
    }
}

/// On which side of the surface the refraction ratio is inverted.
///
/// The front face refracts into the medium, with ratio `1 / index`; the
/// back face refracts out of it, with ratio `index`.
pub fn use_inverse_index(face: Face) -> (r: bool)
    ensures
        r == (face is Front),
{
    match face {
        Face::Front => true,
        Face::Back => false,
    }
}

/// The fate of a chosen direction.
#[derive(Clone, Copy, PartialEq, Eq, Structural, Debug)]
pub enum Scattered {
    /// The direction was nearly orthogonal to the normal: no outgoing ray.
    Absorbed,
    /// The direction stands as chosen.
    Exact,
    /// The direction is perturbed by the diffusion factor times a random
    /// point inside the unit sphere.
    Fuzzed,
}

/// Accept, absorb or fuzz the chosen direction.
///
/// `near_orthogonal` reports that `|dot(direction, normal)|` fell below the
/// degeneracy epsilon: such a ray is absorbed outright. Otherwise the ray
/// goes out, perturbed exactly when `diffuses` reports a diffusion factor
/// above its epsilon. An outgoing ray always carries the material's color
/// as attenuation; the caller copies that color unchanged.
pub fn scatter_finish(near_orthogonal: bool, diffuses: bool) -> (r: Scattered)
    ensures
        near_orthogonal ==> r is Absorbed,
        !near_orthogonal && diffuses ==> r is Fuzzed,
        !near_orthogonal && !diffuses ==> r is Exact,
{
    if near_orthogonal {
        Scattered::Absorbed
    } else if diffuses {
        Scattered::Fuzzed
    } else {
        Scattered::Exact
    }
}

} // verus!
