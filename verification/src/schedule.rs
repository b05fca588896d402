//! Work claiming for the scanline pool.
//!
//! Worker threads share one atomic counter and repeatedly fetch-and-add it
//! to claim scanlines. The counter itself is plain shared state owned by the
//! surrounding application; what a drawn counter value entitles a worker to
//! do is decided here.

use vstd::prelude::*;

verus! {

/// Decide what a worker that drew `counter` from the shared row counter
/// does next: render scanline `counter` if one is left, otherwise stop.
///
/// Every counter value below `height` is claimed by exactly one worker,
/// since fetch-and-add hands out each value once; values from `height` on
/// carry no work.
pub fn claim_row(counter: u32, height: u32) -> (r: Option<u32>)
    ensures
        r == if counter < height {
            Some(counter)
        } else {
            None::<u32>
        },
{
    if counter < height {
        Some(counter)
    } else {
        None
    }
}

/// Map a claimed scanline to the camera's vertical coordinate index.
///
/// Scanlines are claimed top-down (line 0 first) while the camera's `v`
/// coordinate grows bottom-up, so line `line` is sampled at `height - line`.
pub fn scan_v(line: u32, height: u32) -> (j: u32)
    requires
        line < height,
    ensures
        j == height - line,
{
    height - line
}

} // verus!
