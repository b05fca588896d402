//! Verified core of a Monte-Carlo path tracer.
//!
//! The renderer traces rays through a scene of spheres on several worker
//! threads and writes a raster image row by row. Its floating-point kernels
//! (vector algebra, the analytic sphere solve, the camera basis) live in the
//! surrounding application; this crate holds the logic those kernels hang on,
//! with proofs: root acceptance and closest-hit selection over ordered
//! distance keys, the orientation of reported normals, the branch order of
//! the scattering algorithm, the bounce-depth bookkeeping of the radiance
//! estimator, the scanline work-claiming rule, the reordering of rows that
//! finish out of order, and the raster cursor of the output sink.

pub mod intersect;
pub mod pixel;
pub mod radiance;
pub mod raster;
pub mod reorder;
pub mod scatter;
pub mod schedule;
