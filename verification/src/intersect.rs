//! Ray-primitive intersection: root acceptance and closest-hit selection.
//!
//! The analytic sphere solve is floating-point work done by the caller. What
//! it feeds back here is each candidate distance as an unsigned key under any
//! order-embedding of the nonnegative ray parameters (for IEEE doubles, the
//! bit pattern of a nonnegative value is such an embedding). Root acceptance
//! and the narrowing closest-hit scan are then exact integer logic and are
//! proved here.

use vstd::prelude::*;

verus! {

/// Which side of a surface a ray met.
///
/// The reported normal always opposes the incoming ray: a ray that opposes
/// the outward normal sees the front face and the outward normal as-is; one
/// that travels with it sees the back face and the negated normal.
#[derive(Clone, Copy, PartialEq, Eq, Structural, Debug)]
pub enum Face {
    /// The ray met the surface from outside: it opposes the outward normal.
    Front,
    /// The ray met the surface from inside: it travels with the outward normal.
    Back,
}

/// Orient a hit record from the sign of `dot(ray direction, outward normal)`.
///
/// `opposes` reports `dot(direction, outward normal) < 0`. The result names
/// the face met and whether the outward normal must be negated before it is
/// stored, so that the stored normal always opposes the ray.
pub fn orient_normal(opposes: bool) -> (r: (Face, bool))
    ensures
        (r.0 is Front) == opposes,
        r.1 == !opposes,
{
    if opposes {
        (Face::Front, false)
    } else {
        (Face::Back, true)
    }
}

/// Accept one of a sphere's two roots, nearer root first.
///
/// `near` and `far` key the two solutions of the quadratic, nearer first;
/// `t_min` and `t_max` key the open acceptance interval. The nearer root
/// wins whenever it lies strictly inside the interval, the farther root is
/// tried only then, and a sphere whose roots both fall outside is missed.
pub fn select_root(near: u64, far: u64, t_min: u64, t_max: u64) -> (r: Option<u64>)
    requires
        near <= far,
    ensures
        r == if t_min < near && near < t_max {
            Some(near)
        } else if t_min < far && far < t_max {
            Some(far)
        } else {
            None::<u64>
        },
{
    if t_min < near && near < t_max {
        Some(near)
    } else if t_min < far && far < t_max {
        Some(far)
    } else {
        None
    }
}

/// Pick the closest accepted hit over a scene's primitives.
///
/// `keys[i]` is the distance key primitive `i` reported, or `None` for a
/// miss. The scan narrows the acceptance bound to the nearest hit so far,
/// so a later primitive is kept only when it is strictly nearer: of equally
/// near hits the first wins. The result indexes the winning primitive, and
/// is `None` exactly when every primitive missed.
pub fn closest_hit(keys: &Vec<Option<u64>>) -> (r: Option<usize>)
    ensures
        match r {
            Some(i) => {
                &&& i < keys@.len()
                &&& keys@[i as int] is Some
                &&& forall|j: int|
                    0 <= j < keys@.len() && keys@[j] is Some ==> keys@[i as int]->0 <= keys@[j]->0
                &&& forall|j: int|
                    0 <= j < i && keys@[j] is Some ==> keys@[i as int]->0 < keys@[j]->0
            },
            None => forall|j: int| 0 <= j < keys@.len() ==> keys@[j] is None,
        },
{
    let mut best: Option<usize> = None;
    let mut idx: usize = 0;
    while idx < keys.len()
        invariant
            idx <= keys@.len(),
            match best {
                Some(i) => {
                    &&& i < idx
                    &&& keys@[i as int] is Some
                    &&& forall|j: int|
                        0 <= j < idx && keys@[j] is Some ==> keys@[i as int]->0 <= keys@[j]->0
                    &&& forall|j: int|
                        0 <= j < i && keys@[j] is Some ==> keys@[i as int]->0 < keys@[j]->0
                },
                None => forall|j: int| 0 <= j < idx ==> keys@[j] is None,
            },
        decreases keys@.len() - idx,
    {
        if let Some(k) = keys[idx] {
            let replace: bool = match best {
                Some(i) => {
                    let bk = keys[i].unwrap();
                    k < bk
                },
                None => true,
            };
            if replace {
                best = Some(idx);
            }
        }
        idx += 1;
    }
    best
}

} // verus!
