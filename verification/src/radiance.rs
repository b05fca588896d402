//! Control of the recursive radiance estimator.
//!
//! Each primary ray is estimated by one logical recursion: intersect the
//! scene, scatter at the hit, recurse along the outgoing ray, and blend the
//! background where nothing is hit, all bounded by a bounce budget. The
//! color arithmetic is the caller's floating-point work; which of the four
//! outcomes applies at each step, and that the budget strictly decreases,
//! is decided and proved here.

use vstd::prelude::*;

verus! {

/// The outcome of one step of the estimator.
#[derive(Clone, Copy, PartialEq, Eq, Structural, Debug)]
pub enum Radiance {
    /// Black: the bounce budget is exhausted, or the hit absorbed the ray.
    Black,
    /// No hit: the background gradient between white and the sky color,
    /// blended by the vertical component of the unit ray direction.
    Background,
    /// A hit scattered: recurse along the outgoing ray with one bounce
    /// less, and attenuate the result by the scattered color.
    Bounce,
}

/// Decide one step of the estimator.
///
/// A depth of zero yields black whatever the ray met: the bounce budget is
/// a deliberate energy bias, not an error. Otherwise a miss resolves to the
/// background, a hit whose material scattered recurses, and a hit absorbed
/// by its material yields black.
pub fn radiance_step(depth: u16, hit: bool, scattered: bool) -> (r: Radiance)
    ensures
        depth == 0 ==> r is Black,
        depth > 0 && !hit ==> r is Background,
        depth > 0 && hit && scattered ==> r is Bounce,
        depth > 0 && hit && !scattered ==> r is Black,
{
    if depth == 0 {
        Radiance::Black
    } else if !hit {
        Radiance::Background
    } else if scattered {
        Radiance::Bounce
    } else {
        Radiance::Black
    }
}

/// The budget handed to the recursive call after a bounce.
///
/// It strictly decreases, so an estimate started at depth `d` finishes
/// after at most `d` bounces.
pub fn next_depth(depth: u16) -> (d: u16)
    requires
        depth > 0,
    ensures
        d == depth - 1,
{
    depth - 1
}

} // verus!
