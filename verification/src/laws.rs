//! What holds of the rings across calls.

use vstd::prelude::*;
use crate::cqueue::{is_marker, lemma_advance_skips, lemma_peek, lemma_post_appends, CQueueView};
use crate::error::RingError;
use crate::index::{geometry, index_after, spec_distance, spec_slot};
use crate::io_uring::definitions::{cqe, sqe};
use crate::ring::cq::{GetEvents, Step};
use crate::ring::enter::Entered;
use crate::ring::ring::RingView;
use crate::ring::utility::Plan;
use crate::squeue::{lemma_allocate_appends, lemma_observe_consumes, SQueueView};

verus! {

/// The wrapping difference of two indices is the number of entries produced
/// and not yet consumed, however often either counter has wrapped.
pub proof fn law_distance_counts_outstanding(produced: nat, consumed: nat)
    requires
        consumed <= produced,
        produced - consumed <= u32::MAX,
    ensures
        spec_distance(index_after(produced), index_after(consumed)) == produced - consumed,
{
}

/// A counter starts at zero, and `more` further steps move its index by a
/// wrapping addition.
pub proof fn law_index_steps(steps: nat, more: u32)
    ensures
        index_after(0) == 0,
        index_after(steps + more as nat) == index_after(steps).wrapping_add(more),
{
}

/// One thing that happens to a submission ring.
pub enum SqEvent<T> {
    /// The caller allocates a slot and leaves this entry in it; nothing
    /// happens if the ring is full.
    Allocate(sqe<T>),
    /// The caller publishes what it has allocated.
    Publish,
    /// The kernel consumes this many entries and leaves these words in its
    /// flags and its count of dropped entries; nothing happens unless that
    /// many entries are published.
    Observe { taken: u32, flags: u32, dropped: u32 },
}

/// A submission ring with the count of all entries ever allocated on it and
/// of all entries the kernel ever consumed.
pub struct SqHistory<T> {
    pub queue: SQueueView<T>,
    pub allocated: nat,
    pub consumed: nat,
}

/// The ring `start` after the given events, with the entries counted.
pub open spec fn sq_history<T>(start: SQueueView<T>, events: Seq<SqEvent<T>>) -> SqHistory<T>
    decreases events.len(),
{
    if events.len() == 0 {
        SqHistory { queue: start, allocated: 0, consumed: 0 }
    } else {
        let before = sq_history(start, events.drop_last());
        let queue = before.queue;
        match events.last() {
            SqEvent::Allocate(entry) => if queue.full() {
                before
            } else {
                SqHistory {
                    queue: queue.allocated(entry),
                    allocated: before.allocated + 1,
                    ..before
                }
            },
            SqEvent::Publish => SqHistory { queue: queue.published(), ..before },
            SqEvent::Observe { taken, flags, dropped } => if taken <= queue.in_flight() {
                SqHistory {
                    queue: queue.observed(queue.head.wrapping_add(taken), flags, dropped),
                    consumed: before.consumed + taken as nat,
                    ..before
                }
            } else {
                before
            },
        }
    }
}

/// Whatever happens to a submission ring that starts with both indices at
/// zero, and however long, its indices are the counts of the entries
/// allocated and consumed, modulo 2^32, and their wrapping difference is the
/// number of entries allocated and not yet consumed.
pub proof fn law_submission_indices_count<T>(start: SQueueView<T>, events: Seq<SqEvent<T>>)
    requires
        start.wf(),
        start.head == 0,
        start.local_tail == 0,
    ensures
        ({
            let h = sq_history(start, events);
            &&& h.queue.wf()
            &&& h.queue.local_tail == index_after(h.allocated)
            &&& h.queue.head == index_after(h.consumed)
            &&& h.consumed <= h.allocated <= h.consumed + h.queue.entries
            &&& h.queue.outstanding() == h.allocated - h.consumed
            &&& h.queue.pending().len() == h.allocated - h.consumed
        }),
    decreases events.len(),
{
    if events.len() > 0 {
        law_submission_indices_count(start, events.drop_last());
        let before = sq_history(start, events.drop_last());
        let queue = before.queue;
        match events.last() {
            SqEvent::Allocate(entry) => {
                if !queue.full() {
                    lemma_allocate_appends(queue, entry);
                }
            },
            SqEvent::Publish => {},
            SqEvent::Observe { taken, flags, dropped } => {
                if taken <= queue.in_flight() {
                    lemma_observe_consumes(queue, queue.head.wrapping_add(taken), flags, dropped);
                }
            },
        }
    }
}

/// One thing that happens to a completion ring.
pub enum CqEvent<U> {
    /// The kernel posts this entry; nothing happens if the ring is full.
    Post(cqe<U>),
    /// The caller consumes this many entries, by `advance` or in the course
    /// of `peek`; this many are outstanding, or nothing happens.
    Advance(u32),
    /// The kernel leaves these words in its flags and its overflow count.
    Observe { flags: u32, overflow: u32 },
}

/// A completion ring with the count of all entries ever posted to it and of
/// all entries the caller ever consumed.
pub struct CqHistory<U> {
    pub queue: CQueueView<U>,
    pub posted: nat,
    pub consumed: nat,
}

/// The ring `start` after the given events, with the entries counted.
pub open spec fn cq_history<U>(start: CQueueView<U>, events: Seq<CqEvent<U>>) -> CqHistory<U>
    decreases events.len(),
{
    if events.len() == 0 {
        CqHistory { queue: start, posted: 0, consumed: 0 }
    } else {
        let before = cq_history(start, events.drop_last());
        let queue = before.queue;
        match events.last() {
            CqEvent::Post(entry) => if queue.available() < queue.entries {
                CqHistory { queue: queue.posted(entry), posted: before.posted + 1, ..before }
            } else {
                before
            },
            CqEvent::Advance(n) => if n <= queue.available() {
                CqHistory {
                    queue: queue.advanced(n),
                    consumed: before.consumed + n as nat,
                    ..before
                }
            } else {
                before
            },
            CqEvent::Observe { flags, overflow } => CqHistory {
                queue: queue.observed(flags, overflow),
                ..before
            },
        }
    }
}

/// Whatever happens to a completion ring that starts with both indices at
/// zero, and however long, its indices are the counts of the entries posted
/// and consumed, modulo 2^32, and their wrapping difference is the number of
/// entries posted and not yet consumed.
pub proof fn law_completion_indices_count<U>(start: CQueueView<U>, events: Seq<CqEvent<U>>)
    requires
        start.wf(),
        start.head == 0,
        start.tail == 0,
    ensures
        ({
            let h = cq_history(start, events);
            &&& h.queue.wf()
            &&& h.queue.tail == index_after(h.posted)
            &&& h.queue.head == index_after(h.consumed)
            &&& h.consumed <= h.posted <= h.consumed + h.queue.entries
            &&& h.queue.available() == h.posted - h.consumed
            &&& h.queue.ready().len() == h.posted - h.consumed
        }),
    decreases events.len(),
{
    if events.len() > 0 {
        law_completion_indices_count(start, events.drop_last());
        let before = cq_history(start, events.drop_last());
        let queue = before.queue;
        match events.last() {
            CqEvent::Post(entry) => {
                if queue.available() < queue.entries {
                    lemma_post_appends(queue, entry);
                }
            },
            CqEvent::Advance(n) => {
                if n <= queue.available() {
                    lemma_advance_skips(queue, n);
                }
            },
            CqEvent::Observe { .. } => {},
        }
    }
}

/// Entries are reused in place: one lap on, an index has the same slot.
pub proof fn law_lap_reuses_slot(index: u32, entries: u32, mask: u32, wide: bool)
    requires
        geometry(entries, mask),
    ensures
        spec_slot(index, mask, wide) == spec_slot(index.wrapping_add(entries), mask, wide),
{
    let later = index.wrapping_add(entries);
    assert((index & mask) == (later & mask)) by (bit_vector)
        requires
            entries > 0,
            mask == entries - 1,
            entries & mask == 0,
            later == index + entries || later == index + entries - 0x1_0000_0000,
    ;
}

/// A submission ring is full exactly when as many entries are outstanding
/// as it holds.
pub proof fn law_full_at_capacity<T>(v: SQueueView<T>)
    requires
        v.wf(),
    ensures
        v.full() <==> v.outstanding() == v.entries,
{
}

/// Rounds of allocating one entry and publishing it never find the ring full
/// as long as the entries outstanding stay within the ring's entry count.
/// Each round moves the shadow tail on by one, so that on a ring that
/// started at zero it equals the number of rounds, and appends its entry to
/// the outstanding ones. Once as many entries are outstanding as the ring
/// holds, the next allocation finds it full.
pub proof fn law_allocate_publish_cycles<T>(v: SQueueView<T>, entries: Seq<sqe<T>>)
    requires
        v.wf(),
        v.outstanding() + entries.len() <= v.entries,
    ensures
        v.cycled(entries) is Some,
        ({
            let w = v.cycled(entries)->Some_0;
            &&& w.wf()
            &&& w.head == v.head
            &&& w.local_tail == v.local_tail.wrapping_add(entries.len() as u32)
            &&& (v.local_tail == 0 ==> w.local_tail == entries.len())
            &&& (entries.len() > 0 ==> w.tail == w.local_tail)
            &&& w.outstanding() == v.outstanding() + entries.len()
            &&& w.pending() == v.pending() + entries
            &&& (w.full() <==> v.outstanding() + entries.len() == v.entries)
        }),
    decreases entries.len(),
{
    if entries.len() == 0 {
        assert(v.pending() + entries =~= v.pending());
    } else {
        lemma_allocate_appends(v, entries[0]);
        let next = v.allocated(entries[0]).published();
        assert(next.pending() == v.allocated(entries[0]).pending());
        law_allocate_publish_cycles(next, entries.skip(1));
        assert(v.pending().push(entries[0]) + entries.skip(1) =~= v.pending() + entries);
    }
}

/// A completion that the kernel posts comes back from `peek` unchanged, tag,
/// result, flags and payload, once the completions posted before it are
/// consumed, in the narrow and in the wide layout alike. The one exception
/// is left out: on a queue without extended-argument waits, an entry with
/// the reserved timeout tag is internal and never handed out.
pub proof fn law_completion_round_trip<U>(v: CQueueView<U>, entry: cqe<U>)
    requires
        v.wf(),
        v.available() < v.entries,
        v.ext_arg || !is_marker(entry),
    ensures
        v.posted(entry).ready().last() == entry,
        ({
            let w = v.posted(entry).advanced(v.available());
            &&& w.peek_result() == Ok::<(Option<cqe<U>>, u32), RingError>((Some(entry), 1u32))
            &&& w.peeked() == w
        }),
{
    lemma_post_appends(v, entry);
    let posted = v.posted(entry);
    lemma_advance_skips(posted, v.available());
    let w = posted.advanced(v.available());
    assert(w.ready().len() == 1);
    assert(w.ready()[0] == entry);
    assert(w.head.wrapping_add(0) == w.head);
}

/// A submission entry that the caller leaves in its slot is the entry that
/// the kernel finds at its head once it has consumed the entries allocated
/// before it, in the narrow and in the wide layout alike.
pub proof fn law_submission_round_trip<T>(v: SQueueView<T>, entry: sqe<T>)
    requires
        v.wf(),
        !v.full(),
    ensures
        v.allocated(entry).pending().last() == entry,
        ({
            let published = v.allocated(entry).published();
            let head = v.head.wrapping_add(v.outstanding());
            &&& published.admits(head)
            &&& published.observed(head, v.flags, v.dropped).pending() == seq![entry]
        }),
{
    lemma_allocate_appends(v, entry);
    let published = v.allocated(entry).published();
    let head = v.head.wrapping_add(v.outstanding());
    assert(published.pending() == v.allocated(entry).pending());
    lemma_observe_consumes(published, head, v.flags, v.dropped);
    assert(published.pending().skip(v.outstanding() as int) =~= seq![entry]);
}

/// Advancing the consumer index by zero changes nothing.
pub proof fn law_advance_zero<U>(v: CQueueView<U>)
    ensures
        v.advanced(0) == v,
{
}

/// Publishing twice in a row is publishing once: the second time the tail
/// that the kernel sees does not move, nor does anything else.
pub proof fn law_publish_idempotent<T>(v: SQueueView<T>)
    ensures
        v.published().published() == v.published(),
        v.published().staged() == 0,
{
}

/// When the kernel holds completions back and none is in the queue, a
/// request with nothing to submit and nothing to wait for does not block: on
/// its first pass it enters the kernel, with the wait flag, and so does the
/// one-step decision.
pub proof fn law_flush_forces_enter<T, U>(ring: RingView<T, U>, st: GetEvents<U>)
    requires
        st.error is None,
        !st.looped,
        st.submit == 0,
        st.min_complete == 0,
        ring.cq.available() == 0,
        ring.cq_needs_enter(),
    ensures
        ring.get_step(st) == Step::<U>::Enter(
            ring.enter_call(0, 0, true, st.get_flags, st.sig, st.timeout),
        ),
        ring.needs_enter(0, 0),
        ring.ready_plan(0, 0, st.sig, 0) == Ok::<Plan, RingError>(
            Plan::Enter(ring.enter_call(0, 0, true, 0, st.sig, 0)),
        ),
{
    lemma_peek(ring.cq);
}

/// A call into the kernel may take fewer entries than it was offered. On a
/// request without a timeout the rest is offered again: the report of such a
/// call asks for another pass, and that pass, unless it finds an error in
/// the completion queue, enters the kernel with exactly the entries that are
/// left, as long as submitting takes a system call at all.
pub proof fn law_partial_submission_offered_again<T, U>(
    ring: RingView<T, U>,
    st: GetEvents<U>,
    taken: u32,
)
    requires
        st.error is None,
        st.held is None,
        st.timeout == 0,
        taken < st.submit,
        ring.cq.peek_result() is Ok,
        !ring.sq.sqpoll || ring.sq.needs_wakeup(),
    ensures
        st.entered_step(Entered::Submitted(taken)) == Step::<U>::Again,
        st.entered_state(Entered::Submitted(taken)).submit == st.submit - taken,
        ring.get_step(st.entered_state(Entered::Submitted(taken))) is Enter,
        ring.get_step(st.entered_state(Entered::Submitted(taken)))->Enter_0.to_submit
            == st.submit - taken,
{
}

/// A request that has failed stays failed: every later pass and every later
/// report of a call returns its first failure and leaves the ring alone.
pub proof fn law_first_failure_kept<T, U>(ring: RingView<T, U>, st: GetEvents<U>, ret: Entered)
    requires
        st.error is Some,
    ensures
        ring.get_step(st) == Step::<U>::Fail(st.error->Some_0),
        ring.get_state(st).error == st.error,
        ring.get_ring(st) == ring,
        st.entered_step(ret) == Step::<U>::Fail(st.error->Some_0),
        st.entered_state(ret).error == st.error,
{
}

} // verus!
