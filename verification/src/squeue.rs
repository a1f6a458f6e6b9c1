//! The submission queue: the producer side of the ring that the kernel
//! drains.
//!
//! Entries are allocated against a local shadow tail, filled in place, and
//! made visible to the kernel in one step by `flush`. The kernel's half of
//! the protocol, the consumption of published entries, enters through
//! `observe`.
//!
//! A caller that mirrors a live ring loads the kernel's head with acquire
//! ordering, and the flag word with a relaxed load behind a full fence: the
//! wakeup flag is written by the kernel's polling thread, and no store of
//! this process pairs with it. It stores the published tail with the
//! ordering that `publish_order` names.

use vstd::prelude::*;
use crate::error::RingError;
use crate::index::{
    check_geometry, distance, geometry, lemma_slot_in_range, lemma_window_slots_differ, slot,
    slot_count, spec_distance, spec_slot,
};
use crate::io_uring::constants::{
    IORING_SETUP_SQE128, IORING_SETUP_SQPOLL, IORING_SQ_NEED_WAKEUP,
};
use crate::io_uring::definitions::{params, sqe, Payload};

verus! {

/// The memory ordering with which the published tail has to be stored.
#[derive(Debug, Clone, Copy, PartialEq, Eq, Structural)]
pub enum StoreOrder {
    /// The system call that follows is the synchronisation point.
    Relaxed,
    /// A kernel thread polls the tail: the store itself has to publish the
    /// entries written before it.
    Release,
}

/// The mathematical state of a submission queue.
pub struct SQueueView<T> {
    /// Consumer index, written by the kernel, as last observed.
    pub head: u32,
    /// Producer index as the kernel sees it.
    pub tail: u32,
    /// The kernel's flag word as last observed.
    pub flags: u32,
    /// The kernel's count of entries it dropped, as last observed.
    pub dropped: u32,
    /// The index array that maps ring positions to entry slots.
    pub array: Seq<u32>,
    /// The entry slots.
    pub slots: Seq<sqe<T>>,
    /// The tail that was last published.
    pub local_head: u32,
    /// The shadow tail: one past the entry allocated last.
    pub local_tail: u32,
    pub mask: u32,
    pub entries: u32,
    /// Size in bytes of the entry array's mapping.
    pub size: usize,
    /// The wide entry layout is in use.
    pub wide: bool,
    /// A kernel thread polls the ring.
    pub sqpoll: bool,
}

impl<T> SQueueView<T> {
    /// The number of entries allocated and not yet consumed by the kernel.
    pub open spec fn outstanding(self) -> u32 {
        spec_distance(self.local_tail, self.head)
    }

    /// The number of entries published and not yet consumed by the kernel.
    pub open spec fn in_flight(self) -> u32 {
        spec_distance(self.local_head, self.head)
    }

    /// The number of entries allocated and not yet published.
    pub open spec fn staged(self) -> u32 {
        spec_distance(self.local_tail, self.local_head)
    }

    /// The geometry is that of a ring, the slot array matches it, the index
    /// array maps every position to itself, the kernel sees the tail that
    /// was last published, and no more entries are outstanding than the ring
    /// holds.
    pub open spec fn wf(self) -> bool {
        &&& geometry(self.entries, self.mask)
        &&& self.slots.len() == slot_count(self.entries, self.wide)
        &&& self.array.len() == self.entries
        &&& forall|i: int| 0 <= i < self.array.len() ==> #[trigger] self.array[i] == i
        &&& self.tail == self.local_head
        &&& self.in_flight() <= self.outstanding() <= self.entries
    }

    /// The ring has no room for another entry.
    pub open spec fn full(self) -> bool {
        spec_distance(self.local_tail.wrapping_add(1), self.head) > self.entries
    }

    /// The `k`-th outstanding entry, counted from the head.
    pub open spec fn at(self, k: int) -> sqe<T> {
        self.slots[spec_slot(self.head.wrapping_add(k as u32), self.mask, self.wide)]
    }

    /// The entries allocated and not yet consumed by the kernel, oldest
    /// first.
    pub open spec fn pending(self) -> Seq<sqe<T>> {
        Seq::new(self.outstanding() as nat, |k: int| self.at(k))
    }

    /// The queue after the next slot was allocated and left holding `entry`.
    pub open spec fn allocated(self, entry: sqe<T>) -> Self {
        SQueueView {
            local_tail: self.local_tail.wrapping_add(1),
            slots: self.slots.update(spec_slot(self.local_tail, self.mask, self.wide), entry),
            ..self
        }
    }

    /// The queue after the shadow tail was made visible to the kernel.
    pub open spec fn published(self) -> Self {
        SQueueView { tail: self.local_tail, local_head: self.local_tail, ..self }
    }

    /// The queue after one round of allocating and publishing for each of
    /// `entries` in turn, each slot left holding its entry; `None` if one of
    /// the allocations finds the ring full.
    pub open spec fn cycled(self, entries: Seq<sqe<T>>) -> Option<Self>
        decreases entries.len(),
    {
        if entries.len() == 0 {
            Some(self)
        } else if self.full() {
            None
        } else {
            self.allocated(entries[0]).published().cycled(entries.skip(1))
        }
    }

    /// The kernel has consumed published entries only.
    pub open spec fn admits(self, head: u32) -> bool {
        spec_distance(head, self.head) <= self.in_flight()
    }

    /// The queue after the kernel's words were read anew.
    pub open spec fn observed(self, head: u32, flags: u32, dropped: u32) -> Self {
        SQueueView { head, flags, dropped, ..self }
    }

    /// The kernel's polling thread has gone idle.
    pub open spec fn needs_wakeup(self) -> bool {
        self.flags & IORING_SQ_NEED_WAKEUP != 0
    }

    /// Submitting `pending` entries takes a system call: there are some, and
    /// no kernel thread polls the ring or the one that does has gone idle.
    pub open spec fn needs_enter(self, pending: u32) -> bool {
        pending > 0 && (!self.sqpoll || self.needs_wakeup())
    }

    /// The ordering that the store of the tail needs.
    pub open spec fn publish_order(self) -> StoreOrder {
        if self.sqpoll {
            StoreOrder::Release
        } else {
            StoreOrder::Relaxed
        }
    }
}

/// Allocating on a ring that is not full appends the entry to the
/// outstanding ones.
pub proof fn lemma_allocate_appends<T>(v: SQueueView<T>, entry: sqe<T>)
    requires
        v.wf(),
        !v.full(),
    ensures
        v.allocated(entry).wf(),
        v.allocated(entry).pending() == v.pending().push(entry),
        v.allocated(entry).outstanding() == v.outstanding() + 1,
        v.allocated(entry).staged() == v.staged() + 1,
{
    let w = v.allocated(entry);
    let len = v.outstanding();
    lemma_slot_in_range(v.local_tail, v.entries, v.mask, v.wide);
    assert(w.outstanding() == len + 1);
    assert forall|k: int| 0 <= k < len implies w.at(k) == v.at(k) by {
        let index = v.head.wrapping_add(k as u32);
        let d = (len - k) as u32;
        assert(index.wrapping_add(d) == v.local_tail);
        lemma_window_slots_differ(index, d, v.entries, v.mask, v.wide);
        lemma_slot_in_range(index, v.entries, v.mask, v.wide);
    }
    assert(w.at(len as int) == entry) by {
        assert(v.head.wrapping_add(len) == v.local_tail);
    }
    assert(w.pending() =~= v.pending().push(entry));
}

/// When the kernel consumes `n` published entries, the `n` oldest
/// outstanding entries are gone.
pub proof fn lemma_observe_consumes<T>(v: SQueueView<T>, head: u32, flags: u32, dropped: u32)
    requires
        v.wf(),
        v.admits(head),
    ensures
        v.observed(head, flags, dropped).wf(),
        v.observed(head, flags, dropped).pending() == v.pending().skip(
            spec_distance(head, v.head) as int,
        ),
{
    let w = v.observed(head, flags, dropped);
    let n = spec_distance(head, v.head);
    assert(w.outstanding() == v.outstanding() - n);
    assert forall|k: int| 0 <= k < w.outstanding() implies w.at(k) == v.at(k + n) by {
        assert(w.head.wrapping_add(k as u32) == v.head.wrapping_add((k + n) as u32));
    }
    assert(w.pending() =~= v.pending().skip(n as int));
}

/// The producer's record of a submission ring.
#[derive(Debug)]
pub struct SQueue<T> {
    khead: u32,
    ktail: u32,
    kflags: u32,
    kdropped: u32,
    array: Vec<u32>,
    sqes: Vec<sqe<T>>,
    sqe_head: u32,
    sqe_tail: u32,
    ring_mask: u32,
    ring_entries: u32,
    size: usize,
    wide: bool,
    sqpoll: bool,
}

impl<T> View for SQueue<T> {
    type V = SQueueView<T>;

    closed spec fn view(&self) -> SQueueView<T> {
        SQueueView {
            head: self.khead,
            tail: self.ktail,
            flags: self.kflags,
            dropped: self.kdropped,
            array: self.array@,
            slots: self.sqes@,
            local_head: self.sqe_head,
            local_tail: self.sqe_tail,
            mask: self.ring_mask,
            entries: self.ring_entries,
            size: self.size,
            wide: self.wide,
            sqpoll: self.sqpoll,
        }
    }
}

impl<T: Payload> SQueue<T> {
    /// The invariant of the queue.
    pub open spec fn inv(&self) -> bool {
        self@.wf()
    }

    /// The size in bytes of the entry array of a ring with `entries`
    /// entries.
    pub open spec fn spec_size(entries: u32) -> int {
        vstd::layout::size_of::<sqe<T>>() * entries
    }

    /// The queue of a ring that was just created with the given parameters:
    /// every index zero, every slot blank.
    pub open spec fn fresh(v: SQueueView<T>, p: params, ring_mask: u32, ring_entries: u32) -> bool {
        &&& v.wf()
        &&& v.head == 0
        &&& v.tail == 0
        &&& v.flags == 0
        &&& v.dropped == 0
        &&& v.local_head == 0
        &&& v.local_tail == 0
        &&& v.mask == ring_mask
        &&& v.entries == ring_entries
        &&& v.size == Self::spec_size(p.sq_entries)
        &&& v.wide == (p.flags & IORING_SETUP_SQE128 != 0)
        &&& v.sqpoll == (p.flags & IORING_SETUP_SQPOLL != 0)
        &&& forall|i: int| 0 <= i < v.slots.len() ==> (#[trigger] v.slots[i]).is_blank()
    }

    /// Sets up the queue of a ring created with parameters `p`, whose mask
    /// and entry count the kernel reports as `ring_mask` and `ring_entries`.
    ///
    /// Fails with `Invalid` unless the entry count is a power of two of at
    /// most `MAX_ENTRIES` with the mask one below it, and the size of the
    /// entry array fits the address space.
    pub fn new(p: &params, ring_mask: u32, ring_entries: u32) -> (r: Result<SQueue<T>, RingError>)
        ensures
            r is Ok <==> geometry(ring_entries, ring_mask) && Self::spec_size(p.sq_entries)
                <= usize::MAX,
            r is Err ==> r->Err_0 == RingError::Invalid,
            r is Ok ==> Self::fresh(r->Ok_0@, *p, ring_mask, ring_entries),
    {
        if !check_geometry(ring_entries, ring_mask) {
            return Err(RingError::Invalid);
        }
        let size = match core::mem::size_of::<sqe<T>>().checked_mul(p.sq_entries as usize) {
            Some(size) => size,
            None => {
                return Err(RingError::Invalid);
            },
        };
        let wide = p.flags & IORING_SETUP_SQE128 != 0;
        let count: usize = if wide {
            2 * (ring_entries as usize)
        } else {
            ring_entries as usize
        };
        let mut sqes: Vec<sqe<T>> = Vec::new();
        let mut i: usize = 0;
        while i < count
            invariant
                i <= count,
                sqes.len() == i,
                forall|j: int| 0 <= j < i ==> (#[trigger] sqes@[j]).is_blank(),
            decreases count - i,
        {
            sqes.push(sqe::blank());
            i = i + 1;
        }
        let mut array: Vec<u32> = Vec::new();
        let mut k: u32 = 0;
        while k < ring_entries
            invariant
                k <= ring_entries,
                array.len() == k,
                forall|j: int| 0 <= j < k ==> #[trigger] array@[j] == j,
            decreases ring_entries - k,
        {
            array.push(k);
            k = k + 1;
        }
        Ok(
            SQueue {
                khead: 0,
                ktail: 0,
                kflags: 0,
                kdropped: 0,
                array,
                sqes,
                sqe_head: 0,
                sqe_tail: 0,
                ring_mask,
                ring_entries,
                size,
                wide,
                sqpoll: p.flags & IORING_SETUP_SQPOLL != 0,
            },
        )
    }

    /// The kernel's consumer index as last observed.
    pub fn head(&self) -> (r: u32)
        ensures
            r == self@.head,
    {
        self.khead
    }

    /// The producer index as the kernel sees it.
    pub fn tail(&self) -> (r: u32)
        ensures
            r == self@.tail,
    {
        self.ktail
    }

    /// The kernel's flag word as last observed.
    pub fn flags(&self) -> (r: u32)
        ensures
            r == self@.flags,
    {
        self.kflags
    }

    /// The kernel's count of dropped entries as last observed.
    pub fn dropped(&self) -> (r: u32)
        ensures
            r == self@.dropped,
    {
        self.kdropped
    }

    /// The tail that was last published.
    pub fn sqe_head(&self) -> (r: u32)
        ensures
            r == self@.local_head,
    {
        self.sqe_head
    }

    /// The shadow tail.
    pub fn sqe_tail(&self) -> (r: u32)
        ensures
            r == self@.local_tail,
    {
        self.sqe_tail
    }

    pub fn ring_mask(&self) -> (r: u32)
        ensures
            r == self@.mask,
    {
        self.ring_mask
    }

    pub fn ring_entries(&self) -> (r: u32)
        ensures
            r == self@.entries,
    {
        self.ring_entries
    }

    /// The size in bytes of the entry array's mapping.
    pub fn size(&self) -> (r: usize)
        ensures
            r == self@.size,
    {
        self.size
    }

    /// Whether the wide entry layout is in use.
    pub fn wide(&self) -> (r: bool)
        ensures
            r == self@.wide,
    {
        self.wide
    }

    /// Whether a kernel thread polls the ring.
    pub fn sqpoll(&self) -> (r: bool)
        ensures
            r == self@.sqpoll,
    {
        self.sqpoll
    }

    /// The slot that holds the entry with the given index.
    pub fn slot_of(&self, index: u32) -> (r: usize)
        requires
            self.inv(),
        ensures
            r == spec_slot(index, self@.mask, self@.wide),
            r < self@.slots.len(),
    {
        slot(index, self.ring_mask, self.wide)
    }

    /// The entry in the given slot, if there is such a slot.
    pub fn entry(&self, slot: usize) -> (r: Option<sqe<T>>)
        ensures
            r == if slot < self@.slots.len() {
                Some(self@.slots[slot as int])
            } else {
                None
            },
    {
        if slot < self.sqes.len() {
            Some(self.sqes[slot])
        } else {
            None
        }
    }

    /// The value of the index array at `position`, if there is such a
    /// position. On every queue it is the position itself.
    pub fn array_at(&self, position: usize) -> (r: Option<u32>)
        requires
            self.inv(),
        ensures
            r == if position < self@.entries {
                Some(position as u32)
            } else {
                None
            },
    {
        if position < self.array.len() {
            Some(self.array[position])
        } else {
            None
        }
    }

    /// Whether the kernel's polling thread has gone idle, so that the next
    /// system call has to wake it.
    pub fn needs_wakeup(&self) -> (r: bool)
        ensures
            r == self@.needs_wakeup(),
    {
        (self.kflags & IORING_SQ_NEED_WAKEUP) != 0
    }

    /// Whether submitting `pending` entries takes a system call.
    pub fn needs_enter(&self, pending: u32) -> (r: bool)
        ensures
            r == self@.needs_enter(pending),
    {
        pending > 0 && (!self.sqpoll || self.needs_wakeup())
    }

    /// Whether entries were allocated since the tail was last published.
    pub fn needs_publish(&self) -> (r: bool)
        ensures
            r == (self@.local_head != self@.local_tail),
    {
        self.sqe_head != self.sqe_tail
    }

    /// The ordering with which the published tail has to be stored: release
    /// when a kernel thread polls the ring, relaxed otherwise.
    pub fn publish_order(&self) -> (r: StoreOrder)
        ensures
            r == self@.publish_order(),
    {
        if self.sqpoll {
            StoreOrder::Release
        } else {
            StoreOrder::Relaxed
        }
    }

    /// Allocates the next entry slot, blank, and hands it out to be filled.
    ///
    /// Returns `None`, changing nothing, when the ring is full: the caller
    /// drains completions or submits, and tries again.
    pub fn next(&mut self) -> (r: Option<&mut sqe<T>>)
        requires
            old(self).inv(),
        ensures
            final(self).inv(),
            r is None <==> old(self)@.full(),
            match r {
                Some(entry) => {
                    &&& entry.is_blank()
                    &&& final(self)@ == old(self)@.allocated(*final(entry))
                    &&& final(self)@.pending() == old(self)@.pending().push(*final(entry))
                },
                None => final(self)@ == old(self)@,
            },
    {
        let index = slot(self.sqe_tail, self.ring_mask, self.wide);
        let next = self.sqe_tail.wrapping_add(1);
        let head = self.khead;
        if distance(next, head) > self.ring_entries {
            return None;
        }
        proof {
            assert forall|e: sqe<T>| #[trigger]
                self@.allocated(e).pending() == self@.pending().push(e) by {
                lemma_allocate_appends(self@, e);
            }
        }
        self.sqe_tail = next;
        let blank = sqe::blank();
        let entry = &mut self.sqes[index];
        *entry = blank;
        Some(entry)
    }

    /// Allocates the next entry and fills in the common fields of an
    /// operation; every other field is zero. The opcode is the low byte of
    /// `op`.
    ///
    /// Returns `None`, changing nothing, when the ring is full.
    pub fn prep(
        &mut self,
        op: u32,
        fd: i32,
        addr: u64,
        len: u32,
        offset: u64,
        flags: u32,
    ) -> (r: Option<&mut sqe<T>>)
        requires
            old(self).inv(),
        ensures
            final(self).inv(),
            r is None <==> old(self)@.full(),
            match r {
                Some(entry) => {
                    &&& entry.is_prepared(op, fd, addr, len, offset, flags)
                    &&& final(self)@ == old(self)@.allocated(*final(entry))
                    &&& final(self)@.pending() == old(self)@.pending().push(*final(entry))
                },
                None => final(self)@ == old(self)@,
            },
    {
        match self.next() {
            Some(entry) => {
                entry.opcode = #[verifier::truncate] (op as u8);
                entry.fd = fd;
                entry.addr2 = offset;
                entry.addr1 = addr;
                entry.len = len;
                entry.op_flags = flags;
                Some(entry)
            },
            None => None,
        }
    }

    /// Makes the entries allocated so far visible to the kernel: the shadow
    /// tail becomes the published tail, if it is not already. Returns the
    /// number of entries the kernel has yet to consume.
    ///
    /// With nothing allocated since the last call nothing changes.
    pub fn flush(&mut self) -> (r: u32)
        requires
            old(self).inv(),
        ensures
            final(self).inv(),
            final(self)@ == old(self)@.published(),
            old(self)@.staged() == 0 ==> final(self)@ == old(self)@,
            r == old(self)@.outstanding(),
    {
        let tail = self.sqe_tail;
        if self.sqe_head != tail {
            self.sqe_head = tail;
            self.ktail = tail;
        }
        distance(tail, self.khead)
    }

    /// Takes over the kernel's words as just read. The kernel only ever
    /// consumes published entries: a head beyond the published tail is
    /// refused and `false` returned, with nothing changed.
    pub fn observe(&mut self, head: u32, flags: u32, dropped: u32) -> (r: bool)
        requires
            old(self).inv(),
        ensures
            final(self).inv(),
            r == old(self)@.admits(head),
            r ==> final(self)@ == old(self)@.observed(head, flags, dropped),
            r ==> final(self)@.pending() == old(self)@.pending().skip(
                spec_distance(head, old(self)@.head) as int,
            ),
            !r ==> final(self)@ == old(self)@,
    {
        if distance(head, self.khead) > distance(self.sqe_head, self.khead) {
            return false;
        }
        proof {
            lemma_observe_consumes(self@, head, flags, dropped);
        }
        self.khead = head;
        self.kflags = flags;
        self.kdropped = dropped;
        true
    }
}

} // verus!
