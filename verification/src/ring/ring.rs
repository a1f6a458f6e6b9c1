//! The ring: both queues, the setup flags and the features the kernel
//! reported, and the descriptors for the system calls.

use vstd::prelude::*;
use crate::cqueue::{CQueue, CQueueView};
use crate::error::RingError;
use crate::index::{geometry, spec_distance};
use crate::io_uring::constants::{
    IORING_FEAT_EXT_ARG, IORING_SETUP_CQE32, IORING_SETUP_IOPOLL, IORING_SETUP_SQE128,
    IORING_SETUP_SQPOLL, IORING_SETUP_SUBMIT_ALL,
};
use crate::io_uring::definitions::{cqe, params, sqe, Payload};
use crate::squeue::{SQueue, SQueueView};
use crate::util::map::{RingMapping, RingMappingView};

verus! {

/// The size in bytes of a narrow submission entry.
pub const SQE_SIZE: usize = 64;

/// The size in bytes of a wide submission entry.
pub const SQE128_SIZE: usize = 128;

/// The size in bytes of a narrow completion entry.
pub const CQE_SIZE: usize = 16;

/// The size in bytes of a wide completion entry.
pub const CQE32_SIZE: usize = 32;

/// The setup flags for entries of the given sizes: polling-thread mode and
/// submit-all always, and the wide-layout flag of each entry kind whose size
/// is the wide one. Sizes that are neither narrow nor wide are `Invalid`.
pub open spec fn spec_entry_flags(sqe_size: usize, cqe_size: usize) -> Result<u32, RingError> {
    if (sqe_size != SQE_SIZE && sqe_size != SQE128_SIZE) || (cqe_size != CQE_SIZE && cqe_size
        != CQE32_SIZE) {
        Err(RingError::Invalid)
    } else {
        Ok(
            IORING_SETUP_SQPOLL | IORING_SETUP_SUBMIT_ALL | (if sqe_size == SQE128_SIZE {
                IORING_SETUP_SQE128
            } else {
                0
            }) | (if cqe_size == CQE32_SIZE {
                IORING_SETUP_CQE32
            } else {
                0
            }),
        )
    }
}

/// The setup flags for entries of the given sizes.
pub fn entry_flags(sqe_size: usize, cqe_size: usize) -> (r: Result<u32, RingError>)
    ensures
        r == spec_entry_flags(sqe_size, cqe_size),
{
    let sqe_setup: u32 = if sqe_size == SQE_SIZE {
        0
    } else if sqe_size == SQE128_SIZE {
        IORING_SETUP_SQE128
    } else {
        return Err(RingError::Invalid);
    };
    let cqe_setup: u32 = if cqe_size == CQE_SIZE {
        0
    } else if cqe_size == CQE32_SIZE {
        IORING_SETUP_CQE32
    } else {
        return Err(RingError::Invalid);
    };
    Ok(IORING_SETUP_SQPOLL | IORING_SETUP_SUBMIT_ALL | sqe_setup | cqe_setup)
}

/// The number of bytes that the control block of both rings spans: the
/// larger of the submission side, which ends with the index array, and the
/// completion side, which ends with the completion entries.
pub open spec fn spec_ring_size(p: params, cqe_size: usize) -> int {
    let sq_size = p.sq_off.array + p.sq_entries * 4;
    let cq_size = p.cq_off.cqes + p.cq_entries * cqe_size;
    if sq_size >= cq_size {
        sq_size
    } else {
        cq_size
    }
}

/// The number of bytes to map for the control block of both rings, given the
/// size of one completion entry. `Invalid` if the number does not fit the
/// address space.
pub fn ring_size(p: &params, cqe_size: usize) -> (r: Result<usize, RingError>)
    ensures
        r is Ok <==> spec_ring_size(*p, cqe_size) <= usize::MAX,
        r is Ok ==> r->Ok_0 == spec_ring_size(*p, cqe_size),
        r is Err ==> r->Err_0 == RingError::Invalid,
{
    let sq_size: u64 = p.sq_off.array as u64 + p.sq_entries as u64 * 4;
    let cq_bytes = match (p.cq_entries as usize).checked_mul(cqe_size) {
        Some(bytes) => bytes,
        None => {
            return Err(RingError::Invalid);
        },
    };
    let cq_size = match (p.cq_off.cqes as usize).checked_add(cq_bytes) {
        Some(size) => size,
        None => {
            return Err(RingError::Invalid);
        },
    };
    if sq_size > usize::MAX as u64 {
        return Err(RingError::Invalid);
    }
    let sq_size = sq_size as usize;
    if sq_size >= cq_size {
        Ok(sq_size)
    } else {
        Ok(cq_size)
    }
}

/// The number of bytes that the array of submission entries spans.
pub open spec fn spec_sqes_size(p: params, sqe_size: usize) -> int {
    p.sq_entries * sqe_size
}

/// The number of bytes to map for the array of submission entries, given
/// the size of one entry. `Invalid` if the number does not fit the address
/// space.
pub fn sqes_size(p: &params, sqe_size: usize) -> (r: Result<usize, RingError>)
    ensures
        r is Ok <==> spec_sqes_size(*p, sqe_size) <= usize::MAX,
        r is Ok ==> r->Ok_0 == spec_sqes_size(*p, sqe_size),
        r is Err ==> r->Err_0 == RingError::Invalid,
{
    match (p.sq_entries as usize).checked_mul(sqe_size) {
        Some(size) => Ok(size),
        None => Err(RingError::Invalid),
    }
}

/// The mathematical state of a ring.
pub struct RingView<T, U> {
    pub ring: RingMappingView,
    pub ring_fd: i32,
    pub enter_fd: i32,
    /// The setup flags.
    pub flags: u32,
    /// The features the kernel reported.
    pub features: u32,
    pub sq: SQueueView<T>,
    pub cq: CQueueView<U>,
}

impl<T, U> RingView<T, U> {
    /// Both queues are sound, and their modes are those of the ring's flags
    /// and features.
    pub open spec fn wf(self) -> bool {
        &&& self.sq.wf()
        &&& self.cq.wf()
        &&& self.sq.sqpoll == (self.flags & IORING_SETUP_SQPOLL != 0)
        &&& self.sq.wide == (self.flags & IORING_SETUP_SQE128 != 0)
        &&& self.cq.wide == (self.flags & IORING_SETUP_CQE32 != 0)
        &&& self.cq.ext_arg == (self.features & IORING_FEAT_EXT_ARG != 0)
    }

    /// Whether the ring was set up with the given flag, or any of the given
    /// flags.
    pub open spec fn has_flag(self, flag: u32) -> bool {
        self.flags & flag != 0
    }

    /// Completions are reaped by polling: only a system call delivers them.
    pub open spec fn iopoll(self) -> bool {
        self.flags & IORING_SETUP_IOPOLL != 0
    }
}

/// A ring.
#[derive(Debug)]
pub struct Ring<T, U> {
    pub(crate) ring: RingMapping,
    pub(crate) ring_fd: i32,
    pub(crate) enter_fd: i32,
    pub(crate) flags: u32,
    pub(crate) features: u32,
    pub(crate) sq: SQueue<T>,
    pub(crate) cq: CQueue<U>,
}

impl<T, U> View for Ring<T, U> {
    type V = RingView<T, U>;

    open(crate) spec fn view(&self) -> RingView<T, U> {
        RingView {
            ring: self.ring@,
            ring_fd: self.ring_fd,
            enter_fd: self.enter_fd,
            flags: self.flags,
            features: self.features,
            sq: self.sq@,
            cq: self.cq@,
        }
    }
}

impl<T: Payload, U: Payload> Ring<T, U> {
    /// The invariant of the ring.
    pub open spec fn inv(&self) -> bool {
        self@.wf()
    }

    /// The setup flags for a ring with entries of these types: those of the
    /// sizes of its submission and completion entries.
    pub fn init_flags() -> (r: Result<u32, RingError>)
        ensures
            r == spec_entry_flags(
                vstd::layout::size_of::<sqe<T>>() as usize,
                vstd::layout::size_of::<cqe<U>>() as usize,
            ),
    {
        entry_flags(core::mem::size_of::<sqe<T>>(), core::mem::size_of::<cqe<U>>())
    }

    /// The geometry that `new` accepts: each ring's entry count is a power
    /// of two of at most `MAX_ENTRIES` with its mask one below it, the size of
    /// the submission entry array fits the address space, and every word and
    /// array of both rings lies inside the mapping.
    pub open spec fn accepts(
        p: params,
        ring: RingMappingView,
        sq_mask: u32,
        sq_entries: u32,
        cq_mask: u32,
        cq_entries: u32,
    ) -> bool {
        &&& geometry(sq_entries, sq_mask)
        &&& geometry(cq_entries, cq_mask)
        &&& SQueue::<T>::spec_size(p.sq_entries) <= usize::MAX
        &&& ring.covers_sq(p)
        &&& ring.covers_cq(p, vstd::layout::size_of::<cqe<U>>() as usize)
    }

    /// Assembles the ring behind descriptor `fd` from what the kernel
    /// reported at setup (`p`), the mapping of the control block, and the
    /// masks and entry counts read from it. Both queues start empty, with
    /// every slot blank.
    ///
    /// Fails with `Invalid` on a geometry that `accepts` does not hold of.
    pub fn new(
        fd: i32,
        p: &params,
        ring: RingMapping,
        sq_mask: u32,
        sq_entries: u32,
        cq_mask: u32,
        cq_entries: u32,
    ) -> (r: Result<Ring<T, U>, RingError>)
        ensures
            r is Ok <==> Self::accepts(*p, ring@, sq_mask, sq_entries, cq_mask, cq_entries),
            r is Err ==> r->Err_0 == RingError::Invalid,
            r is Ok ==> {
                let v = r->Ok_0@;
                &&& r->Ok_0.inv()
                &&& v.ring == ring@
                &&& v.ring_fd == fd
                &&& v.enter_fd == fd
                &&& v.flags == p.flags
                &&& v.features == p.features
                &&& SQueue::<T>::fresh(v.sq, *p, sq_mask, sq_entries)
                &&& CQueue::<U>::fresh(v.cq, *p, cq_mask, cq_entries)
            },
    {
        let cqe_size = core::mem::size_of::<cqe<U>>();
        if ring.sq_fields(p).is_none() || ring.cq_fields(p, cqe_size).is_none() {
            return Err(RingError::Invalid);
        }
        let sq = match SQueue::<T>::new(p, sq_mask, sq_entries) {
            Ok(sq) => sq,
            Err(e) => {
                return Err(e);
            },
        };
        let cq = match CQueue::<U>::new(p, cq_mask, cq_entries) {
            Ok(cq) => cq,
            Err(e) => {
                return Err(e);
            },
        };
        Ok(Ring { ring, ring_fd: fd, enter_fd: fd, flags: p.flags, features: p.features, sq, cq })
    }

    /// The mapping of the control block.
    pub fn ring(&self) -> (r: RingMapping)
        ensures
            r@ == self@.ring,
    {
        self.ring
    }

    /// The descriptor of the ring.
    pub fn ring_fd(&self) -> (r: i32)
        ensures
            r == self@.ring_fd,
    {
        self.ring_fd
    }

    /// The descriptor that system calls on the ring take.
    pub fn enter_fd(&self) -> (r: i32)
        ensures
            r == self@.enter_fd,
    {
        self.enter_fd
    }

    /// The setup flags.
    pub fn flags(&self) -> (r: u32)
        ensures
            r == self@.flags,
    {
        self.flags
    }

    /// The features the kernel reported.
    pub fn features(&self) -> (r: u32)
        ensures
            r == self@.features,
    {
        self.features
    }

    /// Whether the ring was set up with the given flag, or any of the given
    /// flags.
    pub fn has_flag(&self, flag: u32) -> (r: bool)
        ensures
            r == self@.has_flag(flag),
    {
        (self.flags & flag) != 0
    }

    /// The submission queue.
    pub fn sq(&self) -> (r: &SQueue<T>)
        ensures
            r@ == self@.sq,
    {
        &self.sq
    }

    /// The completion queue.
    pub fn cq(&self) -> (r: &CQueue<U>)
        ensures
            r@ == self@.cq,
    {
        &self.cq
    }

    /// Takes over the submission ring's kernel words as just read; see
    /// `SQueue::observe`.
    pub fn observe_sq(&mut self, head: u32, flags: u32, dropped: u32) -> (r: bool)
        requires
            old(self).inv(),
        ensures
            final(self).inv(),
            r == old(self)@.sq.admits(head),
            r ==> final(self)@ == (RingView {
                sq: old(self)@.sq.observed(head, flags, dropped),
                ..old(self)@
            }),
            r ==> final(self)@.sq.pending() == old(self)@.sq.pending().skip(
                spec_distance(head, old(self)@.sq.head) as int,
            ),
            !r ==> final(self)@ == old(self)@,
    {
        self.sq.observe(head, flags, dropped)
    }

    /// Takes over the completion ring's kernel words as just read; see
    /// `CQueue::observe`.
    pub fn observe_cq(&mut self, flags: u32, overflow: u32)
        requires
            old(self).inv(),
        ensures
            final(self).inv(),
            final(self)@ == (RingView {
                cq: old(self)@.cq.observed(flags, overflow),
                ..old(self)@
            }),
    {
        self.cq.observe(flags, overflow);
    }

    /// The kernel's step on the completion ring; see `CQueue::post`.
    pub fn post(&mut self, entry: cqe<U>) -> (r: bool)
        requires
            old(self).inv(),
        ensures
            final(self).inv(),
            r == (old(self)@.cq.available() < old(self)@.cq.entries),
            r ==> final(self)@ == (RingView { cq: old(self)@.cq.posted(entry), ..old(self)@ }),
            r ==> final(self)@.cq.ready() == old(self)@.cq.ready().push(entry),
            !r ==> final(self)@ == old(self)@,
    {
        self.cq.post(entry)
    }
}

} // verus!
