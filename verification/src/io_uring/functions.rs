//! Constructors and in-place builders of the kernel records.

use vstd::prelude::*;
use crate::io_uring::constants::{
    IORING_ACCEPT_MULTISHOT, IORING_OP_ACCEPT, IORING_OP_POLL_ADD, IORING_OP_RECV,
    IORING_OP_RECVMSG, IORING_OP_SEND, IORING_OP_SENDMSG, IORING_OP_SENDMSG_ZC, IORING_OP_SEND_ZC,
    IORING_POLL_ADD_MULTI, IORING_RECV_MULTISHOT, IOSQE_IO_HARDLINK, IOSQE_IO_LINK,
};
use crate::io_uring::definitions::{
    __kernel_timespec, cqe, cqring_offsets, getevents_arg, params, sqe, sqring_offsets, Payload,
};

verus! {

/// The number of signals that a kernel signal mask covers.
pub const NSIG: u32 = 64;

/// The size in bytes of a kernel signal mask.
pub const SIGMASK_SIZE: u32 = 8;

impl __kernel_timespec {
    /// Whole seconds of `ms` milliseconds, rounded towards zero.
    pub open spec fn spec_seconds(ms: i64) -> int {
        if ms >= 0 {
            ms / 1000
        } else {
            -((-ms) / 1000)
        }
    }

    /// What is left of `ms` milliseconds after the whole seconds, in
    /// nanoseconds; it has the sign of `ms`.
    pub open spec fn spec_nanoseconds(ms: i64) -> int {
        if ms >= 0 {
            (ms % 1000) * 1000000
        } else {
            -(((-ms) % 1000) * 1000000)
        }
    }

    /// `ms` milliseconds as seconds and nanoseconds.
    pub open spec fn spec_from_ms(ms: i64) -> __kernel_timespec {
        __kernel_timespec {
            tv_sec: Self::spec_seconds(ms) as i64,
            tv_nsec: Self::spec_nanoseconds(ms) as i64,
        }
    }

    /// Splits a duration in milliseconds into seconds and nanoseconds.
    pub fn from_ms(ms: i64) -> (r: __kernel_timespec)
        ensures
            r == Self::spec_from_ms(ms),
            r.tv_sec == Self::spec_seconds(ms),
            r.tv_nsec == Self::spec_nanoseconds(ms),
            r.tv_sec * 1000 + r.tv_nsec / 1000000 == ms,
    {
        __kernel_timespec { tv_sec: ms / 1000, tv_nsec: (ms % 1000) * 1000000 }
    }
}

/// The bit that turns an operation with the given opcode into a multishot
/// one, or zero if the operation has no multishot form.
pub open spec fn multishot_bit(opcode: u8) -> u16 {
    if opcode == IORING_OP_RECVMSG || opcode == IORING_OP_RECV {
        IORING_RECV_MULTISHOT as u16
    } else if opcode == IORING_OP_POLL_ADD {
        IORING_POLL_ADD_MULTI as u16
    } else if opcode == IORING_OP_ACCEPT {
        IORING_ACCEPT_MULTISHOT as u16
    } else {
        0
    }
}

/// The opcode of the zero-copy form of an operation, or the opcode itself if
/// the operation has no such form.
pub open spec fn zerocopy_opcode(opcode: u8) -> u8 {
    if opcode == IORING_OP_SEND {
        IORING_OP_SEND_ZC as u8
    } else if opcode == IORING_OP_SENDMSG {
        IORING_OP_SENDMSG_ZC as u8
    } else {
        opcode
    }
}

/// Whether an operation with the given opcode has a zero-copy form.
pub open spec fn has_zerocopy(opcode: u8) -> bool {
    opcode == IORING_OP_SEND || opcode == IORING_OP_SENDMSG
}

impl<T: Payload> sqe<T> {
    /// Every field of the entry is zero.
    pub open spec fn is_blank(self) -> bool {
        &&& self.opcode == 0
        &&& self.flags == 0
        &&& self.ioprio == 0
        &&& self.fd == 0
        &&& self.addr2 == 0
        &&& self.addr1 == 0
        &&& self.len == 0
        &&& self.op_flags == 0
        &&& self.user_data == 0
        &&& self.buf_select == 0
        &&& self.personality == 0
        &&& self.file_select == 0
        &&& self.addr3.is_zero()
    }

    /// The entry holds the common fields of an operation and zero
    /// elsewhere. The opcode is the low byte of `op`.
    pub open spec fn is_prepared(
        self,
        op: u32,
        fd: i32,
        addr: u64,
        len: u32,
        offset: u64,
        flags: u32,
    ) -> bool {
        &&& self.opcode == op as u8
        &&& self.flags == 0
        &&& self.ioprio == 0
        &&& self.fd == fd
        &&& self.addr2 == offset
        &&& self.addr1 == addr
        &&& self.len == len
        &&& self.op_flags == flags
        &&& self.user_data == 0
        &&& self.buf_select == 0
        &&& self.personality == 0
        &&& self.file_select == 0
        &&& self.addr3.is_zero()
    }

    /// An entry with every field zero.
    pub fn blank() -> (r: Self)
        ensures
            r.is_blank(),
    {
        sqe {
            opcode: 0,
            flags: 0,
            ioprio: 0,
            fd: 0,
            addr2: 0,
            addr1: 0,
            len: 0,
            op_flags: 0,
            user_data: 0,
            buf_select: 0,
            personality: 0,
            file_select: 0,
            addr3: T::zeroed(),
        }
    }
}

impl<T> sqe<T> {
    /// Sets the user tag to an address.
    pub fn set_data_ptr(&mut self, data: usize) -> (r: &mut Self)
        ensures
            *final(self) == *final(r),
            *r == (sqe { user_data: data as u64, ..*old(self) }),
    {
        self.user_data = data as u64;
        self
    }

    /// Sets the user tag.
    pub fn set_data_u64(&mut self, data: u64) -> (r: &mut Self)
        ensures
            *final(self) == *final(r),
            *r == (sqe { user_data: data, ..*old(self) }),
    {
        self.user_data = data;
        self
    }

    /// Links the entry to the one submitted after it.
    pub fn link(&mut self) -> (r: &mut Self)
        ensures
            *final(self) == *final(r),
            *r == (sqe { flags: old(self).flags | 0x04, ..*old(self) }),
    {
        self.flags = self.flags | (IOSQE_IO_LINK as u8);
        self
    }

    /// Links the entry to the one submitted after it, whatever its result.
    pub fn hardlink(&mut self) -> (r: &mut Self)
        ensures
            *final(self) == *final(r),
            *r == (sqe { flags: old(self).flags | 0x08, ..*old(self) }),
    {
        self.flags = self.flags | (IOSQE_IO_HARDLINK as u8);
        self
    }

    /// Selects the slot `file_index` of the fixed file table; the entry
    /// carries the index plus one.
    pub fn direct(&mut self, file_index: u32) -> (r: &mut Self)
        requires
            file_index < u32::MAX,
        ensures
            *final(self) == *final(r),
            *r == (sqe { file_select: (file_index + 1) as u32, ..*old(self) }),
    {
        self.file_select = file_index + 1;
        self
    }

    /// Turns the operation into its multishot form, if it has one.
    pub fn multishot(&mut self) -> (r: &mut Self)
        ensures
            *final(self) == *final(r),
            *r == (sqe {
                ioprio: old(self).ioprio | multishot_bit(old(self).opcode),
                ..*old(self)
            }),
    {
        let opcode = self.opcode as u32;
        let bit: u32 = if opcode == IORING_OP_RECVMSG {
            IORING_RECV_MULTISHOT
        } else if opcode == IORING_OP_POLL_ADD {
            IORING_POLL_ADD_MULTI
        } else if opcode == IORING_OP_ACCEPT {
            IORING_ACCEPT_MULTISHOT
        } else if opcode == IORING_OP_RECV {
            IORING_RECV_MULTISHOT
        } else {
            0
        };
        self.ioprio = self.ioprio | (bit as u16);
        self
    }

    /// Turns the operation into its zero-copy form, if it has one, and adds
    /// `ioprio` to its priority bits; otherwise changes nothing.
    pub fn zerocopy(&mut self, ioprio: u16) -> (r: &mut Self)
        ensures
            *final(self) == *final(r),
            has_zerocopy(old(self).opcode) ==> *r == (sqe {
                ioprio: old(self).ioprio | ioprio,
                opcode: zerocopy_opcode(old(self).opcode),
                ..*old(self)
            }),
            !has_zerocopy(old(self).opcode) ==> *r == *old(self),
    {
        let opcode = self.opcode as u32;
        if opcode == IORING_OP_SEND {
            self.ioprio = self.ioprio | ioprio;
            self.opcode = IORING_OP_SEND_ZC as u8;
        } else if opcode == IORING_OP_SENDMSG {
            self.ioprio = self.ioprio | ioprio;
            self.opcode = IORING_OP_SENDMSG_ZC as u8;
        }
        self
    }
}

impl<U: Payload> cqe<U> {
    /// Every field of the entry is zero.
    pub open spec fn is_blank(self) -> bool {
        &&& self.user_data == 0
        &&& self.res == 0
        &&& self.flags == 0
        &&& self.big_cqe.is_zero()
    }

    /// An entry with every field zero.
    pub fn blank() -> (r: Self)
        ensures
            r.is_blank(),
    {
        cqe { user_data: 0, res: 0, flags: 0, big_cqe: U::zeroed() }
    }
}

impl<T> cqe<T> {
    /// The user tag as an address: its low bits, as many as an address has.
    pub fn get_data_ptr(&self) -> (r: usize)
        ensures
            r == self.user_data as usize,
    {
        #[verifier::truncate]
        (self.user_data as usize)
    }

    /// The user tag.
    pub fn get_data_u64(&self) -> (r: u64)
        ensures
            r == self.user_data,
    {
        self.user_data
    }
}

impl Default for sqring_offsets {
    fn default() -> (r: Self)
        ensures
            r == (sqring_offsets {
                head: 0,
                tail: 0,
                ring_mask: 0,
                ring_entries: 0,
                flags: 0,
                dropped: 0,
                array: 0,
                resv1: 0,
                resv2: 0,
            }),
    {
        sqring_offsets {
            head: 0,
            tail: 0,
            ring_mask: 0,
            ring_entries: 0,
            flags: 0,
            dropped: 0,
            array: 0,
            resv1: 0,
            resv2: 0,
        }
    }
}

impl Default for cqring_offsets {
    fn default() -> (r: Self)
        ensures
            r == (cqring_offsets {
                head: 0,
                tail: 0,
                ring_mask: 0,
                ring_entries: 0,
                overflow: 0,
                cqes: 0,
                flags: 0,
                resv1: 0,
                resv2: 0,
            }),
    {
        cqring_offsets {
            head: 0,
            tail: 0,
            ring_mask: 0,
            ring_entries: 0,
            overflow: 0,
            cqes: 0,
            flags: 0,
            resv1: 0,
            resv2: 0,
        }
    }
}

impl params {
    /// The parameters with which a ring with the given setup flags is asked
    /// for: everything but the flags is zero.
    pub fn new(flags: u32) -> (r: params)
        ensures
            r.flags == flags,
            r.sq_entries == 0,
            r.cq_entries == 0,
            r.sq_thread_cpu == 0,
            r.sq_thread_idle == 0,
            r.features == 0,
            r.wd_fd == 0,
            r.resv@ == seq![0u32, 0u32, 0u32],
            r.sq_off == (sqring_offsets {
                head: 0,
                tail: 0,
                ring_mask: 0,
                ring_entries: 0,
                flags: 0,
                dropped: 0,
                array: 0,
                resv1: 0,
                resv2: 0,
            }),
            r.cq_off == (cqring_offsets {
                head: 0,
                tail: 0,
                ring_mask: 0,
                ring_entries: 0,
                overflow: 0,
                cqes: 0,
                flags: 0,
                resv1: 0,
                resv2: 0,
            }),
    {
        params {
            sq_entries: 0,
            cq_entries: 0,
            flags,
            sq_thread_cpu: 0,
            sq_thread_idle: 0,
            features: 0,
            wd_fd: 0,
            resv: [0, 0, 0],
            sq_off: sqring_offsets::default(),
            cq_off: cqring_offsets::default(),
        }
    }
}

impl getevents_arg {
    /// The extended argument of a wait, from the address of the signal mask
    /// and the address of the timeout.
    pub fn new(mask: u64, ts: u64) -> (r: getevents_arg)
        ensures
            r == (getevents_arg { sigmask: mask, sigmask_sz: SIGMASK_SIZE, pad: 0, ts }),
    {
        getevents_arg { sigmask: mask, sigmask_sz: NSIG / 8, pad: 0, ts }
    }
}

} // verus!
