//! The record of a mapped memory region, and the bounds-checked address
//! arithmetic on it.

use vstd::prelude::*;
use crate::io_uring::definitions::params;

verus! {

/// The size in bytes of one word of a ring's control block.
pub const WORD: usize = 4;

/// The addresses of the submission ring's words and of its index array.
#[derive(Debug, Clone, Copy)]
pub struct SQueueFields {
    pub head: usize,
    pub tail: usize,
    pub ring_mask: usize,
    pub ring_entries: usize,
    pub flags: usize,
    pub dropped: usize,
    pub array: usize,
}

/// The addresses of the completion ring's words and of its entry array.
#[derive(Debug, Clone, Copy)]
pub struct CQueueFields {
    pub head: usize,
    pub tail: usize,
    pub ring_mask: usize,
    pub ring_entries: usize,
    pub overflow: usize,
    pub cqes: usize,
    pub flags: usize,
}

/// A region of memory shared with the kernel: where it starts and how many
/// bytes it spans. The region never wraps around the end of the address
/// space.
#[derive(Debug, Clone, Copy)]
pub struct RingMapping {
    data: usize,
    size: usize,
}

/// The mathematical state of a mapping.
pub struct RingMappingView {
    pub data: usize,
    pub size: usize,
}

impl View for RingMapping {
    type V = RingMappingView;

    closed spec fn view(&self) -> RingMappingView {
        RingMappingView { data: self.data, size: self.size }
    }
}

impl RingMappingView {
    /// The bytes from `offset` up to `offset + width` lie inside the region.
    pub open spec fn covers(self, offset: int, width: int) -> bool {
        0 <= offset && 0 <= width && offset + width <= self.size
    }

    /// The address `offset` bytes into the region.
    pub open spec fn at(self, offset: u32) -> usize {
        (self.data + offset) as usize
    }

    /// Every word of the submission ring, and its index array of one word
    /// for each entry, lies inside the region.
    pub open spec fn covers_sq(self, p: params) -> bool {
        &&& self.covers(p.sq_off.head as int, WORD as int)
        &&& self.covers(p.sq_off.tail as int, WORD as int)
        &&& self.covers(p.sq_off.ring_mask as int, WORD as int)
        &&& self.covers(p.sq_off.ring_entries as int, WORD as int)
        &&& self.covers(p.sq_off.flags as int, WORD as int)
        &&& self.covers(p.sq_off.dropped as int, WORD as int)
        &&& self.covers(p.sq_off.array as int, p.sq_entries * WORD)
    }

    /// Every word of the completion ring, and its array of entries of
    /// `cqe_size` bytes each, lies inside the region.
    pub open spec fn covers_cq(self, p: params, cqe_size: usize) -> bool {
        &&& self.covers(p.cq_off.head as int, WORD as int)
        &&& self.covers(p.cq_off.tail as int, WORD as int)
        &&& self.covers(p.cq_off.ring_mask as int, WORD as int)
        &&& self.covers(p.cq_off.ring_entries as int, WORD as int)
        &&& self.covers(p.cq_off.overflow as int, WORD as int)
        &&& self.covers(p.cq_off.flags as int, WORD as int)
        &&& self.covers(p.cq_off.cqes as int, p.cq_entries * cqe_size)
    }

    /// Where the kernel's offsets place the submission ring in the region.
    pub open spec fn sq_fields(self, p: params) -> SQueueFields {
        SQueueFields {
            head: self.at(p.sq_off.head),
            tail: self.at(p.sq_off.tail),
            ring_mask: self.at(p.sq_off.ring_mask),
            ring_entries: self.at(p.sq_off.ring_entries),
            flags: self.at(p.sq_off.flags),
            dropped: self.at(p.sq_off.dropped),
            array: self.at(p.sq_off.array),
        }
    }

    /// Where the kernel's offsets place the completion ring in the region.
    pub open spec fn cq_fields(self, p: params) -> CQueueFields {
        CQueueFields {
            head: self.at(p.cq_off.head),
            tail: self.at(p.cq_off.tail),
            ring_mask: self.at(p.cq_off.ring_mask),
            ring_entries: self.at(p.cq_off.ring_entries),
            overflow: self.at(p.cq_off.overflow),
            cqes: self.at(p.cq_off.cqes),
            flags: self.at(p.cq_off.flags),
        }
    }
}

impl RingMapping {
    /// Every record is of a region that ends inside the address space.
    #[verifier::type_invariant]
    spec fn inv(&self) -> bool {
        self.data + self.size <= usize::MAX
    }

    /// Records a region of `len` bytes at address `data`. Returns `None` if
    /// such a region would run past the end of the address space.
    pub fn new(data: usize, len: usize) -> (r: Option<RingMapping>)
        ensures
            r is Some <==> data + len <= usize::MAX,
            r is Some ==> r->Some_0@ == (RingMappingView { data, size: len }),
    {
        if len <= usize::MAX - data {
            Some(RingMapping { data, size: len })
        } else {
            None
        }
    }

    /// The address at which the region starts.
    pub fn raw(&self) -> (r: usize)
        ensures
            r == self@.data,
    {
        self.data
    }

    /// The number of bytes in the region.
    pub fn len(&self) -> (r: usize)
        ensures
            r == self@.size,
    {
        self.size
    }

    /// The address `count` bytes past the start, if it lies inside the
    /// region or at its end.
    pub fn add(&self, count: usize) -> (r: Option<usize>)
        ensures
            r == if count <= self@.size {
                Some((self@.data + count) as usize)
            } else {
                None
            },
    {
        proof {
            use_type_invariant(self);
        }
        if count <= self.size {
            Some(self.data + count)
        } else {
            None
        }
    }

    /// The address `count` bytes before the start, if it lies inside the
    /// region: only the start itself does.
    pub fn sub(&self, count: usize) -> (r: Option<usize>)
        ensures
            r == if count == 0 {
                Some(self@.data)
            } else {
                None
            },
    {
        if count == 0 {
            Some(self.data)
        } else {
            None
        }
    }

    /// The address `count` bytes from the start, if it lies inside the
    /// region or at its end.
    pub fn offset(&self, count: isize) -> (r: Option<usize>)
        ensures
            r == if 0 <= count <= self@.size {
                Some((self@.data + count) as usize)
            } else {
                None
            },
    {
        proof {
            use_type_invariant(self);
        }
        if count >= 0 && count as usize <= self.size {
            Some(self.data + count as usize)
        } else {
            None
        }
    }

    /// The address of a field of `width` bytes that starts `offset` bytes
    /// into the region, if the whole field lies inside the region.
    pub fn field(&self, offset: u32, width: usize) -> (r: Option<usize>)
        ensures
            r == if self@.covers(offset as int, width as int) {
                Some(self@.at(offset))
            } else {
                None
            },
    {
        proof {
            use_type_invariant(self);
        }
        let offset = offset as usize;
        if offset <= self.size && width <= self.size - offset {
            Some(self.data + offset)
        } else {
            None
        }
    }

    /// The addresses of the submission ring's words and of its index array,
    /// at the offsets that the kernel reported; `None` unless all of them lie
    /// inside the region.
    pub fn sq_fields(&self, p: &params) -> (r: Option<SQueueFields>)
        ensures
            r == if self@.covers_sq(*p) {
                Some(self@.sq_fields(*p))
            } else {
                None
            },
    {
        let array_bytes = p.sq_entries as u64 * WORD as u64;
        if array_bytes > usize::MAX as u64 {
            return None;
        }
        let head = self.field(p.sq_off.head, WORD)?;
        let tail = self.field(p.sq_off.tail, WORD)?;
        let ring_mask = self.field(p.sq_off.ring_mask, WORD)?;
        let ring_entries = self.field(p.sq_off.ring_entries, WORD)?;
        let flags = self.field(p.sq_off.flags, WORD)?;
        let dropped = self.field(p.sq_off.dropped, WORD)?;
        let array = self.field(p.sq_off.array, array_bytes as usize)?;
        Some(SQueueFields { head, tail, ring_mask, ring_entries, flags, dropped, array })
    }

    /// The addresses of the completion ring's words and of its array of
    /// entries of `cqe_size` bytes each, at the offsets that the kernel
    /// reported; `None` unless all of them lie inside the region.
    pub fn cq_fields(&self, p: &params, cqe_size: usize) -> (r: Option<CQueueFields>)
        ensures
            r == if self@.covers_cq(*p, cqe_size) {
                Some(self@.cq_fields(*p))
            } else {
                None
            },
    {
        let cqes_bytes = match (p.cq_entries as usize).checked_mul(cqe_size) {
            Some(bytes) => bytes,
            None => {
                return None;
            },
        };
        let head = self.field(p.cq_off.head, WORD)?;
        let tail = self.field(p.cq_off.tail, WORD)?;
        let ring_mask = self.field(p.cq_off.ring_mask, WORD)?;
        let ring_entries = self.field(p.cq_off.ring_entries, WORD)?;
        let overflow = self.field(p.cq_off.overflow, WORD)?;
        let flags = self.field(p.cq_off.flags, WORD)?;
        let cqes = self.field(p.cq_off.cqes, cqes_bytes)?;
        Some(CQueueFields { head, tail, ring_mask, ring_entries, overflow, cqes, flags })
    }
}

} // verus!
