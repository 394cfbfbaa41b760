//! The per-session mirror of the playback queue. The storage is the
//! small-vector type the playback code uses for short inline queues; Verus
//! sees it only through the contents function and the operations below.

use vstd::prelude::*;
use smallvec::SmallVec;

verus! {

/// Mirror of the backend playback queue, in play order.
#[verifier::external_body]
pub struct TrackQueue {
    inner: SmallVec<[u64; 64]>,
}

/// What a mirror queue holds, oldest entry first.
pub uninterp spec fn track_queue_contents(q: TrackQueue) -> Seq<u64>;

/// Relies on `SmallVec::new`: a newly built vector holds nothing.
#[verifier::external_body]
pub(crate) fn tq_new() -> (q: TrackQueue)
    ensures
        track_queue_contents(q) == Seq::<u64>::empty(),
{
    TrackQueue { inner: SmallVec::new() }
}

/// Relies on `SmallVec::push`: the value is appended at the back.
#[verifier::external_body]
pub(crate) fn tq_push(q: &mut TrackQueue, id: u64)
    requires
        track_queue_contents(*old(q)).len() < usize::MAX,
    ensures
        track_queue_contents(*final(q)) == track_queue_contents(*old(q)).push(id),
{
    q.inner.push(id)
}

/// Relies on `SmallVec::len`: the number of stored elements.
#[verifier::external_body]
pub fn tq_len(q: &TrackQueue) -> (n: usize)
    ensures
        n == track_queue_contents(*q).len(),
{
    q.inner.len()
}

/// Relies on `SmallVec`'s slice view: the element at index `i`.
#[verifier::external_body]
pub fn tq_get(q: &TrackQueue, i: usize) -> (r: u64)
    requires
        i < track_queue_contents(*q).len(),
    ensures
        r == track_queue_contents(*q)[i as int],
{
    q.inner[i]
}

/// Relies on `SmallVec::clear`: every element is removed.
#[verifier::external_body]
pub(crate) fn tq_clear(q: &mut TrackQueue)
    ensures
        track_queue_contents(*final(q)) == Seq::<u64>::empty(),
{
    q.inner.clear()
}

} // verus!
