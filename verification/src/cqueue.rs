//! The completion queue: the consumer side of the ring that the kernel
//! fills.
//!
//! The queue holds the kernel-visible words of the ring and its entry slots
//! as plain values. The kernel's half of the protocol is `post` and
//! `observe`; the caller's half is `peek` and `advance`.
//!
//! A caller that mirrors a live ring loads the kernel's tail and flag word
//! with acquire ordering before it posts what it finds, and stores the head
//! with release ordering once the entries before it are read.

use vstd::prelude::*;
use crate::error::RingError;
use crate::index::{
    check_geometry, distance, geometry, lemma_slot_in_range, lemma_window_slots_differ, slot,
    slot_count, spec_distance, spec_slot,
};
use crate::io_uring::constants::{
    IORING_FEAT_EXT_ARG, IORING_SETUP_CQE32, IORING_SQ_CQ_OVERFLOW, IORING_SQ_TASKRUN,
};
use crate::io_uring::definitions::{cqe, params, Payload};

verus! {

/// The user tag reserved for the completion of an internally issued
/// timeout. `peek` never hands out an entry that carries it on a queue
/// without extended-argument waits.
pub const UDATA_TIMEOUT: u64 = 0xffff_ffff_ffff_ffff;

/// The entry carries the reserved timeout tag.
pub open spec fn is_marker<U>(entry: cqe<U>) -> bool {
    entry.user_data == UDATA_TIMEOUT
}

/// The error that a timeout marker with the negative result `res` reports.
/// A negative result stands for an error number, which is the result
/// negated; the one result that has no negation in 32 bits stands for the
/// largest number.
pub open spec fn marker_error(res: i32) -> RingError {
    RingError::Os(
        if res == i32::MIN {
            i32::MAX
        } else {
            (-res) as i32
        },
    )
}

/// The number of leading entries of `entries` that are timeout markers
/// reporting plain expiry (a result that is not negative).
pub open spec fn expiries<U>(entries: Seq<cqe<U>>) -> nat
    decreases entries.len(),
{
    if entries.len() > 0 && is_marker(entries[0]) && entries[0].res >= 0 {
        1 + expiries(entries.skip(1))
    } else {
        0
    }
}

/// The mathematical state of a completion queue.
pub struct CQueueView<U> {
    /// Consumer index, written by the caller.
    pub head: u32,
    /// Producer index, written by the kernel.
    pub tail: u32,
    /// The kernel's flag word.
    pub flags: u32,
    /// The kernel's count of completions it could not place.
    pub overflow: u32,
    /// The entry slots.
    pub slots: Seq<cqe<U>>,
    pub mask: u32,
    pub entries: u32,
    /// The kernel supports extended-argument waits.
    pub ext_arg: bool,
    /// The wide entry layout is in use.
    pub wide: bool,
}

impl<U> CQueueView<U> {
    /// The geometry is that of a ring and the slot array matches it.
    pub open spec fn wf(self) -> bool {
        &&& geometry(self.entries, self.mask)
        &&& self.slots.len() == slot_count(self.entries, self.wide)
    }

    /// The number of entries produced and not yet consumed.
    pub open spec fn available(self) -> u32 {
        spec_distance(self.tail, self.head)
    }

    /// No more entries are outstanding than the ring has room for.
    pub open spec fn bounded(self) -> bool {
        self.available() <= self.entries
    }

    /// The `k`-th outstanding entry, counted from the head.
    pub open spec fn at(self, k: int) -> cqe<U> {
        self.slots[spec_slot(self.head.wrapping_add(k as u32), self.mask, self.wide)]
    }

    /// The outstanding entries, oldest first.
    pub open spec fn ready(self) -> Seq<cqe<U>> {
        Seq::new(self.available() as nat, |k: int| self.at(k))
    }

    /// The queue after the consumer index has moved on by `n`.
    pub open spec fn advanced(self, n: u32) -> Self {
        CQueueView { head: self.head.wrapping_add(n), ..self }
    }

    /// The queue after the kernel has placed `entry` at the tail.
    pub open spec fn posted(self, entry: cqe<U>) -> Self {
        CQueueView {
            tail: self.tail.wrapping_add(1),
            slots: self.slots.update(spec_slot(self.tail, self.mask, self.wide), entry),
            ..self
        }
    }

    /// The queue after the kernel's flag and overflow words were read anew.
    pub open spec fn observed(self, flags: u32, overflow: u32) -> Self {
        CQueueView { flags, overflow, ..self }
    }

    /// The number of leading expiry markers that `peek` passes over.
    pub open spec fn skips(self) -> nat {
        if self.ext_arg {
            0
        } else {
            expiries(self.ready())
        }
    }

    /// After the expiry markers comes a marker that reports an error.
    pub open spec fn peek_fails(self) -> bool {
        &&& !self.ext_arg
        &&& self.skips() < self.ready().len()
        &&& is_marker(self.ready()[self.skips() as int])
    }

    /// What `peek` returns: the error that the result of a failed timeout
    /// marker stands for, or the first entry behind the expiry markers with
    /// the number of entries from it on, or nothing.
    pub open spec fn peek_result(self) -> Result<(Option<cqe<U>>, u32), RingError> {
        let ready = self.ready();
        let n = self.skips();
        if n >= ready.len() {
            Ok((None, 0u32))
        } else if self.peek_fails() {
            Err(marker_error(ready[n as int].res))
        } else {
            Ok((Some(ready[n as int]), (ready.len() - n) as u32))
        }
    }

    /// The number of entries that `peek` consumes: the expiry markers, and
    /// the failed marker if there is one.
    pub open spec fn peek_consumed(self) -> nat {
        if self.peek_fails() {
            self.skips() + 1
        } else {
            self.skips()
        }
    }

    /// The queue that `peek` leaves behind.
    pub open spec fn peeked(self) -> Self {
        self.advanced(self.peek_consumed() as u32)
    }

    /// The flag word has the overflow bit set.
    pub open spec fn overflowed(self) -> bool {
        self.flags & IORING_SQ_CQ_OVERFLOW != 0
    }

    /// The flag word has the overflow or the task-run bit set: the kernel
    /// holds completions back until it is entered.
    pub open spec fn needs_flush(self) -> bool {
        self.flags & (IORING_SQ_CQ_OVERFLOW | IORING_SQ_TASKRUN) != 0
    }
}

/// Consuming `n` outstanding entries drops the `n` oldest.
pub proof fn lemma_advance_skips<U>(v: CQueueView<U>, n: u32)
    requires
        n <= v.available(),
    ensures
        v.advanced(n).ready() == v.ready().skip(n as int),
        v.advanced(n).available() == v.available() - n,
{
    let w = v.advanced(n);
    assert(w.available() == v.available() - n);
    assert forall|k: int| 0 <= k < w.available() implies w.at(k) == v.at(k + n) by {
        assert(w.head.wrapping_add(k as u32) == v.head.wrapping_add((k + n) as u32));
    }
    assert(w.ready() =~= v.ready().skip(n as int));
}

/// On a ring that is not full, posting an entry appends it to the
/// outstanding ones.
pub proof fn lemma_post_appends<U>(v: CQueueView<U>, entry: cqe<U>)
    requires
        v.wf(),
        v.available() < v.entries,
    ensures
        v.posted(entry).wf(),
        v.posted(entry).ready() == v.ready().push(entry),
        v.posted(entry).available() == v.available() + 1,
{
    let w = v.posted(entry);
    let len = v.available();
    let target = spec_slot(v.tail, v.mask, v.wide);
    lemma_slot_in_range(v.tail, v.entries, v.mask, v.wide);
    assert(w.available() == len + 1);
    assert forall|k: int| 0 <= k < len implies w.at(k) == v.at(k) by {
        let index = v.head.wrapping_add(k as u32);
        let d = (len - k) as u32;
        assert(index.wrapping_add(d) == v.tail);
        lemma_window_slots_differ(index, d, v.entries, v.mask, v.wide);
        lemma_slot_in_range(index, v.entries, v.mask, v.wide);
    }
    assert(w.at(len as int) == entry) by {
        assert(v.head.wrapping_add(len) == v.tail);
    }
    assert(w.ready() =~= v.ready().push(entry));
}

/// The expiry markers at the front are no more than the entries, and the
/// entry behind them is not one of them.
pub proof fn lemma_expiries<U>(entries: Seq<cqe<U>>)
    ensures
        expiries(entries) <= entries.len(),
        expiries(entries) < entries.len() && is_marker(entries[expiries(entries) as int])
            ==> entries[expiries(entries) as int].res < 0,
    decreases entries.len(),
{
    if entries.len() > 0 && is_marker(entries[0]) && entries[0].res >= 0 {
        lemma_expiries(entries.skip(1));
    }
}

/// What a look at the queue consumes and returns, in terms of the entries
/// outstanding before and after it.
pub proof fn lemma_peek<U>(v: CQueueView<U>)
    ensures
        v.peek_consumed() <= v.available(),
        v.peeked().available() == v.available() - v.peek_consumed(),
        v.peeked().ready() == v.ready().skip(v.peek_consumed() as int),
        match v.peek_result() {
            Ok((None, n)) => n == 0 && v.peeked().available() == 0,
            Ok((Some(entry), n)) => {
                &&& n >= 1
                &&& n == v.peeked().available()
                &&& entry == v.peeked().ready()[0]
                &&& !v.ext_arg ==> !is_marker(entry)
            },
            Err(e) => {
                &&& !v.ext_arg
                &&& e == marker_error(v.ready()[v.skips() as int].res)
                &&& v.ready()[v.skips() as int].res < 0
                &&& e is Os
                &&& e->Os_0 > 0
            },
        },
{
    lemma_expiries(v.ready());
    lemma_advance_skips(v, v.peek_consumed() as u32);
}

/// The consumer's record of a completion ring.
#[derive(Debug, Clone)]
pub struct CQueue<U> {
    khead: u32,
    ktail: u32,
    kflags: u32,
    koverflow: u32,
    cqes: Vec<cqe<U>>,
    ring_mask: u32,
    ring_entries: u32,
    ext_arg: bool,
    wide: bool,
}

impl<U> View for CQueue<U> {
    type V = CQueueView<U>;

    closed spec fn view(&self) -> CQueueView<U> {
        CQueueView {
            head: self.khead,
            tail: self.ktail,
            flags: self.kflags,
            overflow: self.koverflow,
            slots: self.cqes@,
            mask: self.ring_mask,
            entries: self.ring_entries,
            ext_arg: self.ext_arg,
            wide: self.wide,
        }
    }
}

impl<U: Payload> CQueue<U> {
    /// The invariant of the queue: its geometry is sound.
    pub open spec fn inv(&self) -> bool {
        self@.wf()
    }

    /// The queue of a ring that was just created with the given parameters:
    /// both indices zero, every slot cleared.
    pub open spec fn fresh(v: CQueueView<U>, p: params, ring_mask: u32, ring_entries: u32) -> bool {
        &&& v.wf()
        &&& v.head == 0
        &&& v.tail == 0
        &&& v.flags == 0
        &&& v.overflow == 0
        &&& v.mask == ring_mask
        &&& v.entries == ring_entries
        &&& v.ext_arg == (p.features & IORING_FEAT_EXT_ARG != 0)
        &&& v.wide == (p.flags & IORING_SETUP_CQE32 != 0)
        &&& forall|i: int| 0 <= i < v.slots.len() ==> (#[trigger] v.slots[i]).is_blank()
    }

    /// Sets up the queue of a ring created with parameters `p`, whose mask
    /// and entry count the kernel reports as `ring_mask` and `ring_entries`.
    ///
    /// Fails with `Invalid` unless the entry count is a power of two of at
    /// most `MAX_ENTRIES` with the mask one below it.
    pub fn new(p: &params, ring_mask: u32, ring_entries: u32) -> (r: Result<CQueue<U>, RingError>)
        ensures
            r is Ok <==> geometry(ring_entries, ring_mask),
            r is Err ==> r == Err::<CQueue<U>, RingError>(RingError::Invalid),
            r is Ok ==> Self::fresh(r->Ok_0@, *p, ring_mask, ring_entries),
    {
        if !check_geometry(ring_entries, ring_mask) {
            return Err(RingError::Invalid);
        }
        let wide = p.flags & IORING_SETUP_CQE32 != 0;
        let count: usize = if wide {
            2 * (ring_entries as usize)
        } else {
            ring_entries as usize
        };
        let mut cqes: Vec<cqe<U>> = Vec::new();
        let mut i: usize = 0;
        while i < count
            invariant
                i <= count,
                cqes.len() == i,
                forall|j: int| 0 <= j < i ==> (#[trigger] cqes@[j]).is_blank(),
            decreases count - i,
        {
            cqes.push(cqe::blank());
            i = i + 1;
        }
        Ok(
            CQueue {
                khead: 0,
                ktail: 0,
                kflags: 0,
                koverflow: 0,
                cqes,
                ring_mask,
                ring_entries,
                ext_arg: p.features & IORING_FEAT_EXT_ARG != 0,
                wide,
            },
        )
    }

    /// The consumer index.
    pub fn head(&self) -> (r: u32)
        ensures
            r == self@.head,
    {
        self.khead
    }

    /// The producer index.
    pub fn tail(&self) -> (r: u32)
        ensures
            r == self@.tail,
    {
        self.ktail
    }

    /// The kernel's flag word as last observed.
    pub fn flags(&self) -> (r: u32)
        ensures
            r == self@.flags,
    {
        self.kflags
    }

    /// The kernel's overflow count as last observed.
    pub fn overflow(&self) -> (r: u32)
        ensures
            r == self@.overflow,
    {
        self.koverflow
    }

    pub fn ring_mask(&self) -> (r: u32)
        ensures
            r == self@.mask,
    {
        self.ring_mask
    }

    pub fn ring_entries(&self) -> (r: u32)
        ensures
            r == self@.entries,
    {
        self.ring_entries
    }

    /// Whether the kernel supports extended-argument waits.
    pub fn ext_arg(&self) -> (r: bool)
        ensures
            r == self@.ext_arg,
    {
        self.ext_arg
    }

    /// Whether the wide entry layout is in use.
    pub fn wide(&self) -> (r: bool)
        ensures
            r == self@.wide,
    {
        self.wide
    }

    /// The slot that holds the entry with the given index.
    pub fn slot_of(&self, index: u32) -> (r: usize)
        requires
            self.inv(),
        ensures
            r == spec_slot(index, self@.mask, self@.wide),
            r < self@.slots.len(),
    {
        slot(index, self.ring_mask, self.wide)
    }

    /// The entry in the given slot, if there is such a slot.
    pub fn entry(&self, slot: usize) -> (r: Option<cqe<U>>)
        ensures
            r == if slot < self@.slots.len() {
                Some(self@.slots[slot as int])
            } else {
                None
            },
    {
        if slot < self.cqes.len() {
            Some(self.cqes[slot])
        } else {
            None
        }
    }

    /// The number of entries produced and not yet consumed.
    pub fn available(&self) -> (r: u32)
        ensures
            r == self@.available(),
    {
        distance(self.ktail, self.khead)
    }

    /// Whether the kernel has flagged that completions overflowed the ring.
    pub fn overflowed(&self) -> (r: bool)
        ensures
            r == self@.overflowed(),
    {
        (self.kflags & IORING_SQ_CQ_OVERFLOW) != 0
    }

    /// Whether the kernel holds completions that only entering it releases.
    pub fn needs_flush(&self) -> (r: bool)
        ensures
            r == self@.needs_flush(),
    {
        (self.kflags & (IORING_SQ_CQ_OVERFLOW | IORING_SQ_TASKRUN)) != 0
    }

    /// Moves the consumer index on by `nr`, handing that many slots back to
    /// the kernel. With `nr == 0` nothing changes.
    pub fn advance(&mut self, nr: u32)
        ensures
            final(self)@ == old(self)@.advanced(nr),
            nr == 0 ==> final(self)@ == old(self)@,
    {
        self.khead = self.khead.wrapping_add(nr);
    }

    /// Looks at the oldest outstanding entry without consuming it.
    ///
    /// On a queue without extended-argument waits, entries with the reserved
    /// timeout tag are internal: each one found at the head is consumed. One
    /// with a negative result ends the call with the error number that the
    /// result stands for, the result negated; the others are passed over. The first entry behind them is returned
    /// with the number of entries outstanding from it on, or `None` with 0
    /// if there is none.
    pub fn peek(&mut self) -> (r: Result<(Option<cqe<U>>, u32), RingError>)
        requires
            old(self).inv(),
        ensures
            final(self).inv(),
            final(self)@ == old(self)@.peeked(),
            r == old(self)@.peek_result(),
    {
        let ghost start = self@;
        let ghost mut passed: nat = 0;
        loop
            invariant
                self.inv(),
                start == old(self)@,
                passed <= start.ready().len(),
                self@ == start.advanced(passed as u32),
                self@.ready() == start.ready().skip(passed as int),
                start.skips() == passed + self@.skips(),
            decreases self@.available(),
        {
            let available = distance(self.ktail, self.khead);
            if available == 0 {
                return Ok((None, 0));
            }
            let index = slot(self.khead, self.ring_mask, self.wide);
            let entry = self.cqes[index];
            assert(entry == self@.ready()[0]) by {
                assert(self@.head.wrapping_add(0) == self@.head);
            }
            if self.ext_arg || entry.user_data != UDATA_TIMEOUT {
                return Ok((Some(entry), available));
            }
            proof {
                lemma_advance_skips(self@, 1);
                assert(start.advanced(passed as u32).advanced(1) == start.advanced(
                    (passed + 1) as u32,
                ));
                assert(start.ready().skip(passed as int).skip(1) =~= start.ready().skip(
                    passed as int + 1,
                ));
            }
            self.khead = self.khead.wrapping_add(1);
            if entry.res < 0 {
                let code: i32 = if entry.res == i32::MIN {
                    i32::MAX
                } else {
                    -entry.res
                };
                return Err(RingError::Os(code));
            }
            proof {
                passed = passed + 1;
            }
        }
    }

    /// The kernel's step: places `entry` at the tail and moves the tail on.
    /// Returns `false`, changing nothing, when as many entries are
    /// outstanding as the ring holds or more.
    pub fn post(&mut self, entry: cqe<U>) -> (r: bool)
        requires
            old(self).inv(),
        ensures
            final(self).inv(),
            r == (old(self)@.available() < old(self)@.entries),
            r ==> final(self)@ == old(self)@.posted(entry),
            r ==> final(self)@.ready() == old(self)@.ready().push(entry),
            !r ==> final(self)@ == old(self)@,
    {
        if distance(self.ktail, self.khead) >= self.ring_entries {
            return false;
        }
        proof {
            lemma_post_appends(self@, entry);
        }
        let index = slot(self.ktail, self.ring_mask, self.wide);
        self.cqes[index] = entry;
        self.ktail = self.ktail.wrapping_add(1);
        true
    }

    /// Takes over the kernel's flag and overflow words as just read.
    pub fn observe(&mut self, flags: u32, overflow: u32)
        ensures
            final(self)@ == old(self)@.observed(flags, overflow),
    {
        self.kflags = flags;
        self.koverflow = overflow;
    }
}

} // verus!
