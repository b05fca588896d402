use tracer::intersect::Face;
use tracer::radiance::{radiance_step, Radiance};
use tracer::scatter::{
    scatter_basis, scatter_finish, use_inverse_index, ScatterBasis, ScatterDraws, Scattered,
};

fn draws(has_reflection: bool, prefers_refraction: bool, tir: bool, passes: bool) -> ScatterDraws {
    ScatterDraws {
        has_reflection,
        prefers_refraction,
        total_internal_reflection: tir,
        reflectance_passes: passes,
    }
}

#[test]
fn pure_diffuse_always_scatters_along_the_normal() {
    // Without a reflection factor the direction is the normal whatever the
    // draws say; the attenuation the caller attaches is the material color.
    for &p in &[false, true] {
        for &t in &[false, true] {
            for &s in &[false, true] {
                assert_eq!(scatter_basis(draws(false, p, t, s)), ScatterBasis::SurfaceNormal);
            }
        }
    }
}

#[test]
fn refraction_needs_preference_solubility_and_schlick() {
    assert_eq!(scatter_basis(draws(true, true, false, true)), ScatterBasis::Refraction);
}

#[test]
fn total_internal_reflection_forces_reflection() {
    assert_eq!(scatter_basis(draws(true, true, true, true)), ScatterBasis::Reflection);
    assert_eq!(scatter_basis(draws(true, true, true, false)), ScatterBasis::Reflection);
}

#[test]
fn failed_schlick_or_preference_reflects() {
    assert_eq!(scatter_basis(draws(true, true, false, false)), ScatterBasis::Reflection);
    assert_eq!(scatter_basis(draws(true, false, false, true)), ScatterBasis::Reflection);
    assert_eq!(scatter_basis(draws(true, false, true, false)), ScatterBasis::Reflection);
}

#[test]
fn refraction_ratio_inverts_on_the_front_face() {
    assert!(use_inverse_index(Face::Front));
    assert!(!use_inverse_index(Face::Back));
}

#[test]
fn near_orthogonal_directions_are_absorbed() {
    assert_eq!(scatter_finish(true, false), Scattered::Absorbed);
    assert_eq!(scatter_finish(true, true), Scattered::Absorbed);
}

#[test]
fn diffusion_perturbs_a_surviving_direction() {
    assert_eq!(scatter_finish(false, true), Scattered::Fuzzed);
    assert_eq!(scatter_finish(false, false), Scattered::Exact);
}

#[test]
fn exhausted_depth_is_black_for_any_ray() {
    // Depth zero short-circuits the whole estimator.
    for &hit in &[false, true] {
        for &scattered in &[false, true] {
            assert_eq!(radiance_step(0, hit, scattered), Radiance::Black);
        }
    }
}

#[test]
fn misses_blend_the_background() {
    assert_eq!(radiance_step(5, false, false), Radiance::Background);
    assert_eq!(radiance_step(5, false, true), Radiance::Background);
}

#[test]
fn hits_bounce_or_absorb() {
    assert_eq!(radiance_step(5, true, true), Radiance::Bounce);
    assert_eq!(radiance_step(5, true, false), Radiance::Black);
}
