//! Reordering of scanlines that finish out of order.
//!
//! Worker threads hand the coordinator finished rows in whatever order they
//! complete, yet the sink must receive rows in strict ascending index
//! order. The coordinator keeps the next expected index and a slot per
//! pending row: an arrival at the expected index flushes at once, together
//! with every buffered row that has become contiguous; any other arrival
//! waits in its slot. The stream that leaves the buffer is proved to be
//! exactly rows `0, 1, 2, ...` with the payload labelled for each index,
//! whatever the arrival order.

use crate::pixel::Pixel;
use vstd::prelude::*;

verus! {

/// The coordinator's pending buffer: completed rows not yet flushable.
pub struct RowBuffer {
    height: usize,
    next: usize,
    pending: Vec<Option<Vec<Pixel>>>,
}

impl RowBuffer {
    /// How many rows the image has.
    pub closed spec fn height(self) -> int {
        self.height as int
    }

    /// How many rows have been flushed; also the next expected row index.
    pub closed spec fn flushed(self) -> int {
        self.next as int
    }

    /// The row waiting in slot `i`, if one has arrived and not yet flushed.
    pub closed spec fn slot(self, i: int) -> Option<Seq<Pixel>> {
        match self.pending@[i] {
            Some(row) => Some(row@),
            None => None,
        }
    }

    /// The buffer's invariant: one slot per row, the flush frontier inside
    /// the image, every flushed slot cleared, and the slot at the frontier
    /// empty -- else it would have been flushed already.
    pub closed spec fn wf(self) -> bool {
        &&& self.pending@.len() == self.height
        &&& self.next <= self.height
        &&& (forall|i: int| 0 <= i < self.next ==> self.pending@[i] is None)
        &&& (self.next < self.height ==> self.pending@[self.next as int] is None)
    }

    /// An empty buffer for an image of `height` rows: nothing flushed,
    /// every slot empty.
    pub fn new(height: usize) -> (b: RowBuffer)
        ensures
            b.wf(),
            b.height() == height,
            b.flushed() == 0,
            forall|i: int| 0 <= i < height ==> b.slot(i) is None,
    {
        let mut pending: Vec<Option<Vec<Pixel>>> = Vec::new();
        let mut i: usize = 0;
        while i < height
            invariant
                i <= height,
                pending@.len() == i,
                forall|j: int| 0 <= j < i ==> pending@[j] is None,
            decreases height - i,
        {
            pending.push(None);
            i += 1;
        }
        RowBuffer { height, next: 0, pending }
    }

    /// How many rows have been flushed; also the next expected row index.
    pub fn flushed_count(&self) -> (r: usize)
        ensures
            r as int == self.flushed(),
    {
        self.next
    }

    /// Whether the row labelled `index` is waiting in its slot.
    pub fn has_row(&self, index: usize) -> (r: bool)
        requires
            self.wf(),
            index < self.height(),
        ensures
            r == (self.slot(index as int) is Some),
    {
        self.pending[index].is_some()
    }

    /// Accept the finished row labelled `index` and return whatever became
    /// flushable: nothing if an earlier row is still missing, otherwise the
    /// expected row followed by every buffered row now contiguous with it,
    /// in ascending index order.
    ///
    /// Each scanline is claimed and completed exactly once, so `index` has
    /// not been seen before: it is neither flushed nor waiting in a slot.
    pub fn push(&mut self, index: usize, row: Vec<Pixel>) -> (out: Vec<Vec<Pixel>>)
        requires
            old(self).wf(),
            old(self).flushed() <= index < old(self).height(),
            old(self).slot(index as int) is None,
        ensures
            final(self).wf(),
            final(self).height() == old(self).height(),
            old(self).flushed() <= final(self).flushed() <= final(self).height(),
            out@.len() == final(self).flushed() - old(self).flushed(),
            // the flushed rows carry, position by position, the payload
            // stored for that index -- the arrival itself at its own index
            forall|k: int|
                0 <= k < out@.len() ==> out@[k]@ == (if old(self).flushed() + k == index {
                    row@
                } else {
                    old(self).slot(old(self).flushed() + k)->0
                }),
            forall|i: int|
                #![trigger old(self).slot(i)]
                old(self).flushed() <= i < final(self).flushed() ==> (i == index || old(
                    self,
                ).slot(i) is Some),
            // the expected row never waits
            index == old(self).flushed() ==> out@.len() >= 1,
            index > old(self).flushed() ==> final(self).flushed() == old(self).flushed(),
            // slots past the new frontier: the arrival parked, the rest kept
            forall|i: int|
                final(self).flushed() <= i < final(self).height() ==> final(self).slot(i) == (
                if i == index {
                    Some(row@)
                } else {
                    old(self).slot(i)
                }),
            // the flush is maximal: it stops only at a missing row or the end
            final(self).flushed() < final(self).height() ==> final(self).slot(
                final(self).flushed(),
            ) is None,
    {
        self.pending[index] = Some(row);
        let ghost mid = *self;
        let mut out: Vec<Vec<Pixel>> = Vec::new();
        while self.next < self.height && self.pending[self.next].is_some()
            invariant
                self.height == mid.height,
                self.pending@.len() == mid.pending@.len(),
                mid.pending@.len() == mid.height,
                mid.next <= self.next <= self.height,
                out@.len() == self.next - mid.next,
                forall|i: int|
                    #![trigger mid.pending@[i]]
                    mid.next <= i < self.next ==> mid.pending@[i] is Some && out@[i - mid.next]@
                        == mid.pending@[i]->0@,
                forall|i: int|
                    #![trigger self.pending@[i]]
                    self.next <= i < self.height ==> self.pending@[i] == mid.pending@[i],
                forall|i: int| 0 <= i < self.next ==> self.pending@[i] is None,
            decreases self.height - self.next,
        {
            proof {
                assert(self.pending@[self.next as int] == mid.pending@[self.next as int]);
            }
            let ghost out0 = out@;
            let ghost j = self.next as int;
            let slot: &mut Option<Vec<Pixel>> = &mut self.pending[self.next];
            let taken = slot.take();
            let r = taken.unwrap();
            out.push(r);
            proof {
                assert(mid.pending@[j] is Some);
                assert(r == mid.pending@[j]->0);
                assert forall|i: int|
                    mid.next <= i < j + 1 implies mid.pending@[i] is Some && out@[i - mid.next]@
                    == mid.pending@[i]->0@ by {
                    if i < j {
                        assert(out@[i - mid.next] == out0[i - mid.next]);
                    } else {
                        assert(out@[i - mid.next] == r);
                    }
                }
            }
            self.next += 1;
        }
        proof {
            assert forall|k: int|
                0 <= k < out@.len() implies out@[k]@ == (if mid.next + k == index {
                    row@
                } else {
                    old(self).slot(mid.next + k)->0
                }) by {
                assert(mid.pending@[mid.next + k] is Some);
            }
            assert forall|i: int|
                old(self).flushed() <= i < self.next implies (i == index || old(self).slot(
                i,
            ) is Some) by {
                assert(mid.pending@[i] is Some);
            }
            if index > old(self).flushed() && self.next > mid.next {
                assert(mid.pending@[mid.next as int] is Some);
                assert(false);
            }
        }
        out
    }
}

/// Some arrival among the first `p` of `arr` carries row index `i`.
pub open spec fn arrived_before(arr: Seq<(usize, Vec<Pixel>)>, p: int, i: int) -> bool {
    exists|b: int| #![trigger arr[b]] 0 <= b < p && arr[b].0 as int == i
}

/// One completed row per scanline: each arrival labels a row below
/// `height`, no two arrivals label the same row, and every row below
/// `height` is labelled.
pub open spec fn complete_arrivals(height: int, arr: Seq<(usize, Vec<Pixel>)>) -> bool {
    &&& arr.len() == height
    &&& (forall|b: int| #![trigger arr[b]] 0 <= b < arr.len() ==> (arr[b].0 as int) < height)
    &&& (forall|b: int, c: int|
        #![trigger arr[b], arr[c]]
        0 <= b < c < arr.len() ==> arr[b].0 != arr[c].0)
    &&& (forall|i: int| 0 <= i < height ==> #[trigger] arrived_before(arr, arr.len() as int, i))
}

/// `out` is the reordered flush of `arr`: `height` rows, with the payload
/// labelled `i` standing at position `i`.
pub open spec fn reordered(
    height: int,
    arr: Seq<(usize, Vec<Pixel>)>,
    out: Seq<Vec<Pixel>>,
) -> bool {
    &&& out.len() == height
    &&& forall|b: int|
        #![trigger arr[b]]
        0 <= b < arr.len() ==> out[arr[b].0 as int]@ == arr[b].1@
}

/// Feed a complete render's rows to a fresh buffer in arrival order and
/// collect everything it flushes, as the coordinator does over the
/// workers' channel.
///
/// The collected stream has exactly `height` rows and carries the payload
/// labelled `i` at position `i`: it is determined by which payload carries
/// which label alone, not by the arrival order and so not by which worker
/// finished which row first.
pub fn drain_rows(height: usize, arrivals: Vec<(usize, Vec<Pixel>)>) -> (out: Vec<Vec<Pixel>>)
    requires
        complete_arrivals(height as int, arrivals@),
    ensures
        reordered(height as int, arrivals@, out@),
{
    let ghost arr = arrivals@;
    let mut buf = RowBuffer::new(height);
    let mut out: Vec<Vec<Pixel>> = Vec::new();
    let mut a: usize = 0;
    while a < arrivals.len()
        invariant
            arrivals@ == arr,
            complete_arrivals(height as int, arr),
            a <= arr.len(),
            buf.wf(),
            buf.height() == height,
            buf.flushed() == out@.len(),
            forall|b: int|
                #![trigger arr[b]]
                0 <= b < a && (arr[b].0 as int) >= buf.flushed() ==> buf.slot(arr[b].0 as int)
                    == Some(arr[b].1@),
            forall|i: int|
                buf.flushed() <= i < height && (#[trigger] buf.slot(i)) is Some
                    ==> arrived_before(arr, a as int, i),
            forall|q: int|
                0 <= q < buf.flushed() ==> #[trigger] arrived_before(arr, a as int, q),
            forall|b: int|
                #![trigger arr[b]]
                0 <= b < a && (arr[b].0 as int) < buf.flushed() ==> out@[arr[b].0 as int]@
                    == arr[b].1@,
        decreases arr.len() - a,
    {
        let idx = arrivals[a].0;
        let row = arrivals[a].1.clone();
        proof {
            assert forall|i: int| 0 <= i < row@.len() implies row@[i] == arr[a as int].1@[i] by {
                assert(cloned::<Pixel>(arr[a as int].1@[i], row@[i]));
            }
            assert(row@ =~= arr[a as int].1@);
            if (idx as int) < buf.flushed() {
                assert(arrived_before(arr, a as int, idx as int));
                let b = choose|b: int| #![trigger arr[b]] 0 <= b < a && arr[b].0 as int == idx as int;
                assert(arr[b].0 != arr[a as int].0);
                assert(false);
            }
            if buf.slot(idx as int) is Some {
                assert(arrived_before(arr, a as int, idx as int));
                let b = choose|b: int| #![trigger arr[b]] 0 <= b < a && arr[b].0 as int == idx as int;
                assert(arr[b].0 != arr[a as int].0);
                assert(false);
            }
            assert(buf.flushed() <= idx as int && buf.slot(idx as int) is None);
        }
        let ghost buf0 = buf;
        let ghost out0 = out@;
        let mut flushed_now = buf.push(idx, row);
        let ghost fl = flushed_now@;
        out.append(&mut flushed_now);
        proof {
            let f0 = buf0.flushed();
            let f1 = buf.flushed();
            assert forall|b: int|
                #![trigger arr[b]]
                0 <= b < a + 1 && (arr[b].0 as int) >= f1 implies buf.slot(arr[b].0 as int)
                == Some(arr[b].1@) by {
                if b < a {
                    assert(arr[b].0 != arr[a as int].0);
                    assert(buf0.slot(arr[b].0 as int) == Some(arr[b].1@));
                }
            }
            assert forall|i: int|
                f1 <= i < height && (#[trigger] buf.slot(i)) is Some implies arrived_before(
                arr,
                a + 1,
                i,
            ) by {
                if i == idx as int {
                    assert(0 <= a < a + 1 && (arr[a as int]).0 as int == i);
                } else {
                    assert(buf.slot(i) == buf0.slot(i));
                    assert(arrived_before(arr, a as int, i));
                    let b = choose|b: int| #![trigger arr[b]] 0 <= b < a && arr[b].0 as int == i;
                    assert(0 <= b < a + 1 && (arr[b]).0 as int == i);
                }
            }
            assert forall|q: int| 0 <= q < f1 implies #[trigger] arrived_before(arr, a + 1, q) by {
                if q < f0 {
                    assert(arrived_before(arr, a as int, q));
                    let b = choose|b: int| #![trigger arr[b]] 0 <= b < a && arr[b].0 as int == q;
                    assert(0 <= b < a + 1 && (arr[b]).0 as int == q);
                } else if q == idx as int {
                    assert(0 <= a < a + 1 && (arr[a as int]).0 as int == q);
                } else {
                    assert(buf0.slot(q) is Some);
                    assert(arrived_before(arr, a as int, q));
                    let b = choose|b: int| #![trigger arr[b]] 0 <= b < a && arr[b].0 as int == q;
                    assert(0 <= b < a + 1 && (arr[b]).0 as int == q);
                }
            }
            assert forall|b: int|
                #![trigger arr[b]]
                0 <= b < a + 1 && (arr[b].0 as int) < f1 implies out@[arr[b].0 as int]@
                == arr[b].1@ by {
                let q = arr[b].0 as int;
                if b == a {
                    assert(f0 <= q < f1);
                    assert(out@[q] == fl[q - f0]);
                    assert(fl[q - f0]@ == row@);
                } else if q < f0 {
                    assert(arr[b].0 != arr[a as int].0);
                    assert(out@[q] == out0[q]);
                    assert(out0[q]@ == arr[b].1@);
                } else {
                    assert(arr[b].0 != arr[a as int].0);
                    assert(buf0.slot(q) == Some(arr[b].1@));
                    assert(out@[q] == fl[q - f0]);
                    assert(fl[q - f0]@ == buf0.slot(q)->0);
                }
            }
        }
        a += 1;
    }
    proof {
        if buf.flushed() < height {
            assert(arrived_before(arr, arr.len() as int, buf.flushed()));
            let b = choose|b: int|
                #![trigger arr[b]]
                0 <= b < arr.len() && arr[b].0 as int == buf.flushed();
            assert(buf.slot(arr[b].0 as int) == Some(arr[b].1@));
            assert(false);
        }
    }
    out
}

/// `arr1` and `arr2` pair every row index with the same payload, possibly
/// in different arrival orders.
pub open spec fn same_labelling(
    arr1: Seq<(usize, Vec<Pixel>)>,
    arr2: Seq<(usize, Vec<Pixel>)>,
) -> bool {
    forall|b: int|
        #![trigger arr1[b]]
        0 <= b < arr1.len() ==> exists|c: int|
            #![trigger arr2[c]]
            0 <= c < arr2.len() && arr2[c].0 == arr1[b].0 && arr2[c].1@ == arr1[b].1@
}

/// The flushed stream does not depend on arrival order.
///
/// Two complete renders whose completions pair every row index with the
/// same payload -- however the arrivals interleave, and so however the
/// scanlines were divided among worker threads -- flush streams that agree
/// row by row.
pub proof fn lemma_order_independent(
    height: int,
    arr1: Seq<(usize, Vec<Pixel>)>,
    arr2: Seq<(usize, Vec<Pixel>)>,
    out1: Seq<Vec<Pixel>>,
    out2: Seq<Vec<Pixel>>,
)
    requires
        complete_arrivals(height, arr1),
        complete_arrivals(height, arr2),
        same_labelling(arr1, arr2),
        reordered(height, arr1, out1),
        reordered(height, arr2, out2),
    ensures
        out1.len() == out2.len(),
        forall|i: int| 0 <= i < height ==> #[trigger] out1[i]@ == out2[i]@,
{
    assert forall|i: int| 0 <= i < height implies #[trigger] out1[i]@ == out2[i]@ by {
        assert(arrived_before(arr1, arr1.len() as int, i));
        let b = choose|b: int|
            #![trigger arr1[b]]
            0 <= b < arr1.len() && arr1[b].0 as int == i;
        assert(out1[i]@ == arr1[b].1@);
        let c = choose|c: int|
            #![trigger arr2[c]]
            0 <= c < arr2.len() && arr2[c].0 == arr1[b].0 && arr2[c].1@ == arr1[b].1@;
        assert(out2[i]@ == arr2[c].1@);
    }
}

} // verus!
