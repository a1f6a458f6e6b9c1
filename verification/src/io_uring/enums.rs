//! The flag sets and code tables of the kernel interface as enumerations,
//! each with the number that stands for it on the wire.

use vstd::prelude::*;
use crate::io_uring::constants::{
    IORING_ACCEPT_MULTISHOT, IORING_ASYNC_CANCEL_ALL, IORING_ASYNC_CANCEL_ANY,
    IORING_ASYNC_CANCEL_FD, IORING_ASYNC_CANCEL_FIXED, IORING_CQE_BUFFER_SHIFT,
    IORING_CQE_F_BUFFER, IORING_CQE_F_MORE, IORING_CQE_F_NOTIF, IORING_CQE_F_SOCK_NOEMPTY,
    IORING_CQ_EVENTFD_DISABLED, IORING_ENTER_EXT_ARG, IORING_ENTER_GETEVENTS,
    IORING_ENTER_REGISTERED_RING, IORING_ENTER_SQ_WAIT, IORING_ENTER_SQ_WAKEUP,
    IORING_FEAT_CQE_SKIP, IORING_FEAT_CUR_PERSONALITY, IORING_FEAT_EXT_ARG, IORING_FEAT_FAST_POLL,
    IORING_FEAT_LINKED_FILE, IORING_FEAT_NATIVE_WORKERS, IORING_FEAT_NODROP,
    IORING_FEAT_POLL_32BITS, IORING_FEAT_REGISTER_BUFFERS, IORING_FEAT_REGISTER_BUFFERS2,
    IORING_FEAT_REGISTER_BUFFERS_UPDATE, IORING_FEAT_REGISTER_ENABLE_RINGS,
    IORING_FEAT_REGISTER_EVENTFD, IORING_FEAT_REGISTER_EVENTFD_ASYNC, IORING_FEAT_REGISTER_FILES,
    IORING_FEAT_REGISTER_FILES2, IORING_FEAT_REGISTER_FILES_UPDATE,
    IORING_FEAT_REGISTER_FILES_UPDATE2, IORING_FEAT_REGISTER_FILE_ALLOC_RANGE,
    IORING_FEAT_REGISTER_IOWQ_AFF, IORING_FEAT_REGISTER_IOWQ_MAX_WORKERS,
    IORING_FEAT_REGISTER_LAST, IORING_FEAT_REGISTER_PBUF_RING, IORING_FEAT_REGISTER_PERSONALITY,
    IORING_FEAT_REGISTER_PROBE, IORING_FEAT_REGISTER_RESTRICTIONS, IORING_FEAT_REGISTER_RING_FDS,
    IORING_FEAT_REGISTER_SYNC_CANCEL, IORING_FEAT_RSRC_TAGS, IORING_FEAT_RW_CUR_POS,
    IORING_FEAT_SINGLE_MMAP, IORING_FEAT_SQPOLL_NONFIXED, IORING_FEAT_SUBMIT_STABLE,
    IORING_FEAT_UNREGISTER_BUFFERS, IORING_FEAT_UNREGISTER_EVENTFD, IORING_FEAT_UNREGISTER_FILES,
    IORING_FEAT_UNREGISTER_IOWQ_AFF, IORING_FEAT_UNREGISTER_PBUF_RING,
    IORING_FEAT_UNREGISTER_PERSONALITY, IORING_FEAT_UNREGISTER_RING_FDS, IORING_FSYNC_DATASYNC,
    IORING_LINK_TIMEOUT_UPDATE, IORING_MSG_DATA, IORING_MSG_RING_CQE_SKIP, IORING_MSG_SEND_FD,
    IORING_NOTIF_USAGE_ZC_COPIED, IORING_OFF_CQ_RING, IORING_OFF_SQES, IORING_OFF_SQ_RING,
    IORING_OP_ACCEPT, IORING_OP_ASYNC_CANCEL, IORING_OP_CLOSE, IORING_OP_CONNECT,
    IORING_OP_EPOLL_CTL, IORING_OP_FADVISE, IORING_OP_FALLOCATE, IORING_OP_FGETXATTR,
    IORING_OP_FILES_UPDATE, IORING_OP_FSETXATTR, IORING_OP_FSYNC, IORING_OP_GETXATTR,
    IORING_OP_LAST, IORING_OP_LINKAT, IORING_OP_LINK_TIMEOUT, IORING_OP_MADVISE, IORING_OP_MKDIRAT,
    IORING_OP_MSG_RING, IORING_OP_NOP, IORING_OP_OPENAT, IORING_OP_OPENAT2, IORING_OP_POLL_ADD,
    IORING_OP_POLL_REMOVE, IORING_OP_PROVIDE_BUFFERS, IORING_OP_READ, IORING_OP_READV,
    IORING_OP_READ_FIXED, IORING_OP_RECV, IORING_OP_RECVMSG, IORING_OP_REMOVE_BUFFERS,
    IORING_OP_RENAMEAT, IORING_OP_SEND, IORING_OP_SENDMSG, IORING_OP_SENDMSG_ZC, IORING_OP_SEND_ZC,
    IORING_OP_SETXATTR, IORING_OP_SHUTDOWN, IORING_OP_SOCKET, IORING_OP_SPLICE, IORING_OP_STATX,
    IORING_OP_SYMLINKAT, IORING_OP_SYNC_FILE_RANGE, IORING_OP_TEE, IORING_OP_TIMEOUT,
    IORING_OP_TIMEOUT_REMOVE, IORING_OP_UNLINKAT, IORING_OP_URING_CMD, IORING_OP_WRITE,
    IORING_OP_WRITEV, IORING_OP_WRITE_FIXED, IORING_POLL_ADD_LEVEL, IORING_POLL_ADD_MULTI,
    IORING_POLL_UPDATE_EVENTS, IORING_POLL_UPDATE_USER_DATA, IORING_RECVSEND_FIXED_BUF,
    IORING_RECVSEND_POLL_FIRST, IORING_RECV_MULTISHOT, IORING_RESTRICTION_LAST,
    IORING_RESTRICTION_REGISTER_OP, IORING_RESTRICTION_SQE_FLAGS_ALLOWED,
    IORING_RESTRICTION_SQE_FLAGS_REQUIRED, IORING_RESTRICTION_SQE_OP, IORING_SEND_ZC_REPORT_USAGE,
    IORING_SETUP_ATTACH_WQ, IORING_SETUP_CLAMP, IORING_SETUP_COOP_TASKRUN, IORING_SETUP_CQE32,
    IORING_SETUP_CQSIZE, IORING_SETUP_DEFER_TASKRUN, IORING_SETUP_IOPOLL, IORING_SETUP_R_DISABLED,
    IORING_SETUP_SINGLE_ISSUER, IORING_SETUP_SQE128, IORING_SETUP_SQPOLL, IORING_SETUP_SQ_AFF,
    IORING_SETUP_SUBMIT_ALL, IORING_SETUP_TASKRUN_FLAG, IORING_SQ_CQ_OVERFLOW,
    IORING_SQ_NEED_WAKEUP, IORING_SQ_TASKRUN, IORING_TIMEOUT_ABS, IORING_TIMEOUT_BOOTTIME,
    IORING_TIMEOUT_CLOCK_MASK, IORING_TIMEOUT_ETIME_SUCCESS, IORING_TIMEOUT_REALTIME,
    IORING_TIMEOUT_UPDATE, IORING_TIMEOUT_UPDATE_MASK, IORING_URING_CMD_FIXED, IOSQE_ASYNC,
    IOSQE_BUFFER_SELECT, IOSQE_CQE_SKIP_SUCCESS, IOSQE_FIXED_FILE, IOSQE_IO_DRAIN,
    IOSQE_IO_HARDLINK, IOSQE_IO_LINK, IO_WQ_BOUND, IO_WQ_UNBOUND, SPLICE_F_FD_IN_FIXED,
};

verus! {

/// Flags of a submission entry.
#[derive(Debug, Clone, Copy, PartialEq, Eq)]
pub enum SQE_FLAGS {
    FIXED_FILE,
    IO_DRAIN,
    IO_LINK,
    IO_HARDLINK,
    ASYNC,
    BUFFER_SELECT,
    SKIP_SUCCESS,
}

impl SQE_FLAGS {
    /// The number that stands for the variant.
    pub open spec fn spec_value(self) -> u32 {
        match self {
            SQE_FLAGS::FIXED_FILE => 0x1,
            SQE_FLAGS::IO_DRAIN => 0x2,
            SQE_FLAGS::IO_LINK => 0x4,
            SQE_FLAGS::IO_HARDLINK => 0x8,
            SQE_FLAGS::ASYNC => 0x10,
            SQE_FLAGS::BUFFER_SELECT => 0x20,
            SQE_FLAGS::SKIP_SUCCESS => 0x40,
        }
    }

    /// The number that stands for the variant.
    pub fn value(self) -> (r: u32)
        ensures
            r == self.spec_value(),
    {
        match self {
            SQE_FLAGS::FIXED_FILE => IOSQE_FIXED_FILE,
            SQE_FLAGS::IO_DRAIN => IOSQE_IO_DRAIN,
            SQE_FLAGS::IO_LINK => IOSQE_IO_LINK,
            SQE_FLAGS::IO_HARDLINK => IOSQE_IO_HARDLINK,
            SQE_FLAGS::ASYNC => IOSQE_ASYNC,
            SQE_FLAGS::BUFFER_SELECT => IOSQE_BUFFER_SELECT,
            SQE_FLAGS::SKIP_SUCCESS => IOSQE_CQE_SKIP_SUCCESS,
        }
    }
}

/// Flags of ring setup.
#[derive(Debug, Clone, Copy, PartialEq, Eq)]
pub enum SETUP {
    IOPOLL,
    SQPOLL,
    SQ_AFF,
    CQSIZE,
    CLAMP,
    ATTACH_WQ,
    R_DISABLED,
    SUBMIT_ALL,
    COOP_TASKRUN,
    TASKRUN_FLAG,
    SQE128,
    CQE32,
    SINGLE_ISSUER,
    DEFER_TASKRUN,
}

impl SETUP {
    /// The number that stands for the variant.
    pub open spec fn spec_value(self) -> u32 {
        match self {
            SETUP::IOPOLL => 0x1,
            SETUP::SQPOLL => 0x2,
            SETUP::SQ_AFF => 0x4,
            SETUP::CQSIZE => 0x8,
            SETUP::CLAMP => 0x10,
            SETUP::ATTACH_WQ => 0x20,
            SETUP::R_DISABLED => 0x40,
            SETUP::SUBMIT_ALL => 0x80,
            SETUP::COOP_TASKRUN => 0x100,
            SETUP::TASKRUN_FLAG => 0x200,
            SETUP::SQE128 => 0x400,
            SETUP::CQE32 => 0x800,
            SETUP::SINGLE_ISSUER => 0x1000,
            SETUP::DEFER_TASKRUN => 0x2000,
        }
    }

    /// The number that stands for the variant.
    pub fn value(self) -> (r: u32)
        ensures
            r == self.spec_value(),
    {
        match self {
            SETUP::IOPOLL => IORING_SETUP_IOPOLL,
            SETUP::SQPOLL => IORING_SETUP_SQPOLL,
            SETUP::SQ_AFF => IORING_SETUP_SQ_AFF,
            SETUP::CQSIZE => IORING_SETUP_CQSIZE,
            SETUP::CLAMP => IORING_SETUP_CLAMP,
            SETUP::ATTACH_WQ => IORING_SETUP_ATTACH_WQ,
            SETUP::R_DISABLED => IORING_SETUP_R_DISABLED,
            SETUP::SUBMIT_ALL => IORING_SETUP_SUBMIT_ALL,
            SETUP::COOP_TASKRUN => IORING_SETUP_COOP_TASKRUN,
            SETUP::TASKRUN_FLAG => IORING_SETUP_TASKRUN_FLAG,
            SETUP::SQE128 => IORING_SETUP_SQE128,
            SETUP::CQE32 => IORING_SETUP_CQE32,
            SETUP::SINGLE_ISSUER => IORING_SETUP_SINGLE_ISSUER,
            SETUP::DEFER_TASKRUN => IORING_SETUP_DEFER_TASKRUN,
        }
    }
}

/// Operation codes of a submission entry.
#[derive(Debug, Clone, Copy, PartialEq, Eq)]
pub enum OP {
    NOP,
    READV,
    WRITEV,
    FSYNC,
    READ_FIXED,
    WRITE_FIXED,
    POLL_ADD,
    POLL_REMOVE,
    SYNC_FILE_RANGE,
    SENDMSG,
    RECVMSG,
    TIMEOUT,
    TIMEOUT_REMOVE,
    ACCEPT,
    ASYNC_CANCEL,
    LINK_TIMEOUT,
    CONNECT,
    FALLOCATE,
    OPENAT,
    CLOSE,
    FILES_UPDATE,
    STATX,
    READ,
    WRITE,
    FADVISE,
    MADVISE,
    SEND,
    RECV,
    OPENAT2,
    EPOLL_CTL,
    SPLICE,
    PROVIDE_BUFFERS,
    REMOVE_BUFFERS,
    TEE,
    SHUTDOWN,
    RENAMEAT,
    UNLINKAT,
    MKDIRAT,
    SYMLINKAT,
    LINKAT,
    MSG_RING,
    FSETXATTR,
    SETXATTR,
    FGETXATTR,
    GETXATTR,
    SOCKET,
    URING_CMD,
    SEND_ZC,
    SENDMSG_ZC,
    LAST,
}

impl OP {
    /// The number that stands for the variant.
    pub open spec fn spec_value(self) -> u32 {
        match self {
            OP::NOP => 0,
            OP::READV => 1,
            OP::WRITEV => 2,
            OP::FSYNC => 3,
            OP::READ_FIXED => 4,
            OP::WRITE_FIXED => 5,
            OP::POLL_ADD => 6,
            OP::POLL_REMOVE => 7,
            OP::SYNC_FILE_RANGE => 8,
            OP::SENDMSG => 9,
            OP::RECVMSG => 10,
            OP::TIMEOUT => 11,
            OP::TIMEOUT_REMOVE => 12,
            OP::ACCEPT => 13,
            OP::ASYNC_CANCEL => 14,
            OP::LINK_TIMEOUT => 15,
            OP::CONNECT => 16,
            OP::FALLOCATE => 17,
            OP::OPENAT => 18,
            OP::CLOSE => 19,
            OP::FILES_UPDATE => 20,
            OP::STATX => 21,
            OP::READ => 22,
            OP::WRITE => 23,
            OP::FADVISE => 24,
            OP::MADVISE => 25,
            OP::SEND => 26,
            OP::RECV => 27,
            OP::OPENAT2 => 28,
            OP::EPOLL_CTL => 29,
            OP::SPLICE => 30,
            OP::PROVIDE_BUFFERS => 31,
            OP::REMOVE_BUFFERS => 32,
            OP::TEE => 33,
            OP::SHUTDOWN => 34,
            OP::RENAMEAT => 35,
            OP::UNLINKAT => 36,
            OP::MKDIRAT => 37,
            OP::SYMLINKAT => 38,
            OP::LINKAT => 39,
            OP::MSG_RING => 40,
            OP::FSETXATTR => 41,
            OP::SETXATTR => 42,
            OP::FGETXATTR => 43,
            OP::GETXATTR => 44,
            OP::SOCKET => 45,
            OP::URING_CMD => 46,
            OP::SEND_ZC => 47,
            OP::SENDMSG_ZC => 48,
            OP::LAST => 49,
        }
    }

    /// The number that stands for the variant.
    pub fn value(self) -> (r: u32)
        ensures
            r == self.spec_value(),
    {
        match self {
            OP::NOP => IORING_OP_NOP,
            OP::READV => IORING_OP_READV,
            OP::WRITEV => IORING_OP_WRITEV,
            OP::FSYNC => IORING_OP_FSYNC,
            OP::READ_FIXED => IORING_OP_READ_FIXED,
            OP::WRITE_FIXED => IORING_OP_WRITE_FIXED,
            OP::POLL_ADD => IORING_OP_POLL_ADD,
            OP::POLL_REMOVE => IORING_OP_POLL_REMOVE,
            OP::SYNC_FILE_RANGE => IORING_OP_SYNC_FILE_RANGE,
            OP::SENDMSG => IORING_OP_SENDMSG,
            OP::RECVMSG => IORING_OP_RECVMSG,
            OP::TIMEOUT => IORING_OP_TIMEOUT,
            OP::TIMEOUT_REMOVE => IORING_OP_TIMEOUT_REMOVE,
            OP::ACCEPT => IORING_OP_ACCEPT,
            OP::ASYNC_CANCEL => IORING_OP_ASYNC_CANCEL,
            OP::LINK_TIMEOUT => IORING_OP_LINK_TIMEOUT,
            OP::CONNECT => IORING_OP_CONNECT,
            OP::FALLOCATE => IORING_OP_FALLOCATE,
            OP::OPENAT => IORING_OP_OPENAT,
            OP::CLOSE => IORING_OP_CLOSE,
            OP::FILES_UPDATE => IORING_OP_FILES_UPDATE,
            OP::STATX => IORING_OP_STATX,
            OP::READ => IORING_OP_READ,
            OP::WRITE => IORING_OP_WRITE,
            OP::FADVISE => IORING_OP_FADVISE,
            OP::MADVISE => IORING_OP_MADVISE,
            OP::SEND => IORING_OP_SEND,
            OP::RECV => IORING_OP_RECV,
            OP::OPENAT2 => IORING_OP_OPENAT2,
            OP::EPOLL_CTL => IORING_OP_EPOLL_CTL,
            OP::SPLICE => IORING_OP_SPLICE,
            OP::PROVIDE_BUFFERS => IORING_OP_PROVIDE_BUFFERS,
            OP::REMOVE_BUFFERS => IORING_OP_REMOVE_BUFFERS,
            OP::TEE => IORING_OP_TEE,
            OP::SHUTDOWN => IORING_OP_SHUTDOWN,
            OP::RENAMEAT => IORING_OP_RENAMEAT,
            OP::UNLINKAT => IORING_OP_UNLINKAT,
            OP::MKDIRAT => IORING_OP_MKDIRAT,
            OP::SYMLINKAT => IORING_OP_SYMLINKAT,
            OP::LINKAT => IORING_OP_LINKAT,
            OP::MSG_RING => IORING_OP_MSG_RING,
            OP::FSETXATTR => IORING_OP_FSETXATTR,
            OP::SETXATTR => IORING_OP_SETXATTR,
            OP::FGETXATTR => IORING_OP_FGETXATTR,
            OP::GETXATTR => IORING_OP_GETXATTR,
            OP::SOCKET => IORING_OP_SOCKET,
            OP::URING_CMD => IORING_OP_URING_CMD,
            OP::SEND_ZC => IORING_OP_SEND_ZC,
            OP::SENDMSG_ZC => IORING_OP_SENDMSG_ZC,
            OP::LAST => IORING_OP_LAST,
        }
    }
}

/// Flags of a ring command.
#[derive(Debug, Clone, Copy, PartialEq, Eq)]
pub enum CMD {
    FIXED,
}

impl CMD {
    /// The number that stands for the variant.
    pub open spec fn spec_value(self) -> u32 {
        match self {
            CMD::FIXED => 0x1,
        }
    }

    /// The number that stands for the variant.
    pub fn value(self) -> (r: u32)
        ensures
            r == self.spec_value(),
    {
        match self {
            CMD::FIXED => IORING_URING_CMD_FIXED,
        }
    }
}

/// Flags of a sync operation.
#[derive(Debug, Clone, Copy, PartialEq, Eq)]
pub enum FSYNC {
    DATASYNC,
}

impl FSYNC {
    /// The number that stands for the variant.
    pub open spec fn spec_value(self) -> u32 {
        match self {
            FSYNC::DATASYNC => 0x1,
        }
    }

    /// The number that stands for the variant.
    pub fn value(self) -> (r: u32)
        ensures
            r == self.spec_value(),
    {
        match self {
            FSYNC::DATASYNC => IORING_FSYNC_DATASYNC,
        }
    }
}

/// Flags of a timeout operation.
#[derive(Debug, Clone, Copy, PartialEq, Eq)]
pub enum TIMEOUT {
    ABS,
    UPDATE,
    BOOTTIME,
    REALTIME,
    LINK_TIMEOUT_UPDATE,
    ETIME_SUCCESS,
    CLOCK_MASK,
    UPDATE_MASK,
}

impl TIMEOUT {
    /// The number that stands for the variant.
    pub open spec fn spec_value(self) -> u32 {
        match self {
            TIMEOUT::ABS => 0x1,
            TIMEOUT::UPDATE => 0x2,
            TIMEOUT::BOOTTIME => 0x4,
            TIMEOUT::REALTIME => 0x8,
            TIMEOUT::LINK_TIMEOUT_UPDATE => 0x10,
            TIMEOUT::ETIME_SUCCESS => 0x20,
            TIMEOUT::CLOCK_MASK => 0xc,
            TIMEOUT::UPDATE_MASK => 0x12,
        }
    }

    /// The number that stands for the variant.
    pub fn value(self) -> (r: u32)
        ensures
            r == self.spec_value(),
    {
        match self {
            TIMEOUT::ABS => IORING_TIMEOUT_ABS,
            TIMEOUT::UPDATE => IORING_TIMEOUT_UPDATE,
            TIMEOUT::BOOTTIME => IORING_TIMEOUT_BOOTTIME,
            TIMEOUT::REALTIME => IORING_TIMEOUT_REALTIME,
            TIMEOUT::LINK_TIMEOUT_UPDATE => IORING_LINK_TIMEOUT_UPDATE,
            TIMEOUT::ETIME_SUCCESS => IORING_TIMEOUT_ETIME_SUCCESS,
            TIMEOUT::CLOCK_MASK => IORING_TIMEOUT_CLOCK_MASK,
            TIMEOUT::UPDATE_MASK => IORING_TIMEOUT_UPDATE_MASK,
        }
    }
}

/// Flags of a splice operation.
#[derive(Debug, Clone, Copy, PartialEq, Eq)]
pub enum SPLICE {
    F_FD_IN_FIXED,
}

impl SPLICE {
    /// The number that stands for the variant.
    pub open spec fn spec_value(self) -> u32 {
        match self {
            SPLICE::F_FD_IN_FIXED => 0x80000000,
        }
    }

    /// The number that stands for the variant.
    pub fn value(self) -> (r: u32)
        ensures
            r == self.spec_value(),
    {
        match self {
            SPLICE::F_FD_IN_FIXED => SPLICE_F_FD_IN_FIXED,
        }
    }
}

/// Flags of a poll operation.
#[derive(Debug, Clone, Copy, PartialEq, Eq)]
pub enum POLL {
    ADD_MULTI,
    UPDATE_EVENTS,
    UPDATE_USER_DATA,
    ADD_LEVEL,
}

impl POLL {
    /// The number that stands for the variant.
    pub open spec fn spec_value(self) -> u32 {
        match self {
            POLL::ADD_MULTI => 0x1,
            POLL::UPDATE_EVENTS => 0x2,
            POLL::UPDATE_USER_DATA => 0x4,
            POLL::ADD_LEVEL => 0x8,
        }
    }

    /// The number that stands for the variant.
    pub fn value(self) -> (r: u32)
        ensures
            r == self.spec_value(),
    {
        match self {
            POLL::ADD_MULTI => IORING_POLL_ADD_MULTI,
            POLL::UPDATE_EVENTS => IORING_POLL_UPDATE_EVENTS,
            POLL::UPDATE_USER_DATA => IORING_POLL_UPDATE_USER_DATA,
            POLL::ADD_LEVEL => IORING_POLL_ADD_LEVEL,
        }
    }
}

/// Flags of a cancel operation.
#[derive(Debug, Clone, Copy, PartialEq, Eq)]
pub enum ASYNC_CANCEL {
    ALL,
    FD,
    ANY,
    FIXED,
}

impl ASYNC_CANCEL {
    /// The number that stands for the variant.
    pub open spec fn spec_value(self) -> u32 {
        match self {
            ASYNC_CANCEL::ALL => 0x1,
            ASYNC_CANCEL::FD => 0x2,
            ASYNC_CANCEL::ANY => 0x4,
            ASYNC_CANCEL::FIXED => 0x8,
        }
    }

    /// The number that stands for the variant.
    pub fn value(self) -> (r: u32)
        ensures
            r == self.spec_value(),
    {
        match self {
            ASYNC_CANCEL::ALL => IORING_ASYNC_CANCEL_ALL,
            ASYNC_CANCEL::FD => IORING_ASYNC_CANCEL_FD,
            ASYNC_CANCEL::ANY => IORING_ASYNC_CANCEL_ANY,
            ASYNC_CANCEL::FIXED => IORING_ASYNC_CANCEL_FIXED,
        }
    }
}

/// Priority bits of send and receive operations.
#[derive(Debug, Clone, Copy, PartialEq, Eq)]
pub enum IOPRIO {
    RECVSEND_POLL_FIRST,
    RECV_MULTISHOT,
    RECVSEND_FIXED_BUF,
    SEND_ZC_REPORT_USAGE,
}

impl IOPRIO {
    /// The number that stands for the variant.
    pub open spec fn spec_value(self) -> u32 {
        match self {
            IOPRIO::RECVSEND_POLL_FIRST => 0x1,
            IOPRIO::RECV_MULTISHOT => 0x2,
            IOPRIO::RECVSEND_FIXED_BUF => 0x4,
            IOPRIO::SEND_ZC_REPORT_USAGE => 0x8,
        }
    }

    /// The number that stands for the variant.
    pub fn value(self) -> (r: u32)
        ensures
            r == self.spec_value(),
    {
        match self {
            IOPRIO::RECVSEND_POLL_FIRST => IORING_RECVSEND_POLL_FIRST,
            IOPRIO::RECV_MULTISHOT => IORING_RECV_MULTISHOT,
            IOPRIO::RECVSEND_FIXED_BUF => IORING_RECVSEND_FIXED_BUF,
            IOPRIO::SEND_ZC_REPORT_USAGE => IORING_SEND_ZC_REPORT_USAGE,
        }
    }
}

/// Bits in the result of a notification.
#[derive(Debug, Clone, Copy, PartialEq, Eq)]
pub enum NOTIF {
    USAGE_ZC_COPIED,
}

impl NOTIF {
    /// The number that stands for the variant.
    pub open spec fn spec_value(self) -> u32 {
        match self {
            NOTIF::USAGE_ZC_COPIED => 0x80000000,
        }
    }

    /// The number that stands for the variant.
    pub fn value(self) -> (r: u32)
        ensures
            r == self.spec_value(),
    {
        match self {
            NOTIF::USAGE_ZC_COPIED => IORING_NOTIF_USAGE_ZC_COPIED,
        }
    }
}

/// Priority bits of an accept operation.
#[derive(Debug, Clone, Copy, PartialEq, Eq)]
pub enum ACCEPT {
    MULTISHOT,
}

impl ACCEPT {
    /// The number that stands for the variant.
    pub open spec fn spec_value(self) -> u32 {
        match self {
            ACCEPT::MULTISHOT => 0x1,
        }
    }

    /// The number that stands for the variant.
    pub fn value(self) -> (r: u32)
        ensures
            r == self.spec_value(),
    {
        match self {
            ACCEPT::MULTISHOT => IORING_ACCEPT_MULTISHOT,
        }
    }
}

/// Kinds of message between rings.
#[derive(Debug, Clone, Copy, PartialEq, Eq)]
pub enum MSG {
    DATA,
    SEND_FD,
}

impl MSG {
    /// The number that stands for the variant.
    pub open spec fn spec_value(self) -> u32 {
        match self {
            MSG::DATA => 0,
            MSG::SEND_FD => 1,
        }
    }

    /// The number that stands for the variant.
    pub fn value(self) -> (r: u32)
        ensures
            r == self.spec_value(),
    {
        match self {
            MSG::DATA => IORING_MSG_DATA,
            MSG::SEND_FD => IORING_MSG_SEND_FD,
        }
    }
}

/// Flags of a message between rings.
#[derive(Debug, Clone, Copy, PartialEq, Eq)]
pub enum MSG_RING {
    CQE_SKIP,
}

impl MSG_RING {
    /// The number that stands for the variant.
    pub open spec fn spec_value(self) -> u32 {
        match self {
            MSG_RING::CQE_SKIP => 0x1,
        }
    }

    /// The number that stands for the variant.
    pub fn value(self) -> (r: u32)
        ensures
            r == self.spec_value(),
    {
        match self {
            MSG_RING::CQE_SKIP => IORING_MSG_RING_CQE_SKIP,
        }
    }
}

/// Flags of a completion entry.
#[derive(Debug, Clone, Copy, PartialEq, Eq)]
pub enum CQE_F {
    BUFFER,
    MORE,
    SOCK_NOEMPTY,
    NOTIF,
}

impl CQE_F {
    /// The number that stands for the variant.
    pub open spec fn spec_value(self) -> u32 {
        match self {
            CQE_F::BUFFER => 0x1,
            CQE_F::MORE => 0x2,
            CQE_F::SOCK_NOEMPTY => 0x4,
            CQE_F::NOTIF => 0x8,
        }
    }

    /// The number that stands for the variant.
    pub fn value(self) -> (r: u32)
        ensures
            r == self.spec_value(),
    {
        match self {
            CQE_F::BUFFER => IORING_CQE_F_BUFFER,
            CQE_F::MORE => IORING_CQE_F_MORE,
            CQE_F::SOCK_NOEMPTY => IORING_CQE_F_SOCK_NOEMPTY,
            CQE_F::NOTIF => IORING_CQE_F_NOTIF,
        }
    }
}

/// Layout of the flags of a completion entry.
#[derive(Debug, Clone, Copy, PartialEq, Eq)]
pub enum CQE {
    BUFFER_SHIFT,
}

impl CQE {
    /// The number that stands for the variant.
    pub open spec fn spec_value(self) -> u32 {
        match self {
            CQE::BUFFER_SHIFT => 16,
        }
    }

    /// The number that stands for the variant.
    pub fn value(self) -> (r: u32)
        ensures
            r == self.spec_value(),
    {
        match self {
            CQE::BUFFER_SHIFT => IORING_CQE_BUFFER_SHIFT,
        }
    }
}

/// Offsets at which the regions of a ring are mapped.
#[derive(Debug, Clone, Copy, PartialEq, Eq)]
pub enum OFF {
    SQ_RING,
    CQ_RING,
    SQES,
}

impl OFF {
    /// The number that stands for the variant.
    pub open spec fn spec_value(self) -> u64 {
        match self {
            OFF::SQ_RING => 0x00000000,
            OFF::CQ_RING => 0x08000000,
            OFF::SQES => 0x10000000,
        }
    }

    /// The number that stands for the variant.
    pub fn value(self) -> (r: u64)
        ensures
            r == self.spec_value(),
    {
        match self {
            OFF::SQ_RING => IORING_OFF_SQ_RING,
            OFF::CQ_RING => IORING_OFF_CQ_RING,
            OFF::SQES => IORING_OFF_SQES,
        }
    }
}

/// Bits of the submission ring's flag word.
#[derive(Debug, Clone, Copy, PartialEq, Eq)]
pub enum SQ {
    NEED_WAKEUP,
    OVERFLOW,
    TASKRUN,
}

impl SQ {
    /// The number that stands for the variant.
    pub open spec fn spec_value(self) -> u32 {
        match self {
            SQ::NEED_WAKEUP => 0x1,
            SQ::OVERFLOW => 0x2,
            SQ::TASKRUN => 0x4,
        }
    }

    /// The number that stands for the variant.
    pub fn value(self) -> (r: u32)
        ensures
            r == self.spec_value(),
    {
        match self {
            SQ::NEED_WAKEUP => IORING_SQ_NEED_WAKEUP,
            SQ::OVERFLOW => IORING_SQ_CQ_OVERFLOW,
            SQ::TASKRUN => IORING_SQ_TASKRUN,
        }
    }
}

/// Bits of the completion ring's flag word.
#[derive(Debug, Clone, Copy, PartialEq, Eq)]
pub enum CQ {
    EVENTFD_DISABLED,
}

impl CQ {
    /// The number that stands for the variant.
    pub open spec fn spec_value(self) -> u32 {
        match self {
            CQ::EVENTFD_DISABLED => 0x1,
        }
    }

    /// The number that stands for the variant.
    pub fn value(self) -> (r: u32)
        ensures
            r == self.spec_value(),
    {
        match self {
            CQ::EVENTFD_DISABLED => IORING_CQ_EVENTFD_DISABLED,
        }
    }
}

/// Flags of the call that enters the kernel.
#[derive(Debug, Clone, Copy, PartialEq, Eq)]
pub enum ENTER {
    GET_EVENTS,
    SQ_WAKEUP,
    SQ_WAIT,
    EXT_ARG,
    REGISTERED_RING,
}

impl ENTER {
    /// The number that stands for the variant.
    pub open spec fn spec_value(self) -> u32 {
        match self {
            ENTER::GET_EVENTS => 0x1,
            ENTER::SQ_WAKEUP => 0x2,
            ENTER::SQ_WAIT => 0x4,
            ENTER::EXT_ARG => 0x8,
            ENTER::REGISTERED_RING => 0x10,
        }
    }

    /// The number that stands for the variant.
    pub fn value(self) -> (r: u32)
        ensures
            r == self.spec_value(),
    {
        match self {
            ENTER::GET_EVENTS => IORING_ENTER_GETEVENTS,
            ENTER::SQ_WAKEUP => IORING_ENTER_SQ_WAKEUP,
            ENTER::SQ_WAIT => IORING_ENTER_SQ_WAIT,
            ENTER::EXT_ARG => IORING_ENTER_EXT_ARG,
            ENTER::REGISTERED_RING => IORING_ENTER_REGISTERED_RING,
        }
    }
}

/// Features that the kernel reports at setup.
#[derive(Debug, Clone, Copy, PartialEq, Eq)]
pub enum FEAT {
    SINGLE_MMAP,
    NODROP,
    SUBMIT_STABLE,
    RW_CUR_POS,
    CUR_PERSONALITY,
    FAST_POLL,
    POLL_32BITS,
    SQPOLL_NONFIXED,
    EXT_ARG,
    NATIVE_WORKERS,
    RSRC_TAGS,
    CQE_SKIP,
    LINKED_FILE,
}

impl FEAT {
    /// The number that stands for the variant.
    pub open spec fn spec_value(self) -> u32 {
        match self {
            FEAT::SINGLE_MMAP => 0x1,
            FEAT::NODROP => 0x2,
            FEAT::SUBMIT_STABLE => 0x4,
            FEAT::RW_CUR_POS => 0x8,
            FEAT::CUR_PERSONALITY => 0x10,
            FEAT::FAST_POLL => 0x20,
            FEAT::POLL_32BITS => 0x40,
            FEAT::SQPOLL_NONFIXED => 0x80,
            FEAT::EXT_ARG => 0x100,
            FEAT::NATIVE_WORKERS => 0x200,
            FEAT::RSRC_TAGS => 0x400,
            FEAT::CQE_SKIP => 0x800,
            FEAT::LINKED_FILE => 0x1000,
        }
    }

    /// The number that stands for the variant.
    pub fn value(self) -> (r: u32)
        ensures
            r == self.spec_value(),
    {
        match self {
            FEAT::SINGLE_MMAP => IORING_FEAT_SINGLE_MMAP,
            FEAT::NODROP => IORING_FEAT_NODROP,
            FEAT::SUBMIT_STABLE => IORING_FEAT_SUBMIT_STABLE,
            FEAT::RW_CUR_POS => IORING_FEAT_RW_CUR_POS,
            FEAT::CUR_PERSONALITY => IORING_FEAT_CUR_PERSONALITY,
            FEAT::FAST_POLL => IORING_FEAT_FAST_POLL,
            FEAT::POLL_32BITS => IORING_FEAT_POLL_32BITS,
            FEAT::SQPOLL_NONFIXED => IORING_FEAT_SQPOLL_NONFIXED,
            FEAT::EXT_ARG => IORING_FEAT_EXT_ARG,
            FEAT::NATIVE_WORKERS => IORING_FEAT_NATIVE_WORKERS,
            FEAT::RSRC_TAGS => IORING_FEAT_RSRC_TAGS,
            FEAT::CQE_SKIP => IORING_FEAT_CQE_SKIP,
            FEAT::LINKED_FILE => IORING_FEAT_LINKED_FILE,
        }
    }
}

/// Operation codes of registration.
#[derive(Debug, Clone, Copy, PartialEq, Eq)]
pub enum REGISTER {
    REGISTER_BUFFERS,
    UNREGISTER_BUFFERS,
    REGISTER_FILES,
    UNREGISTER_FILES,
    REGISTER_EVENTFD,
    UNREGISTER_EVENTFD,
    REGISTER_FILES_UPDATE,
    REGISTER_EVENTFD_ASYNC,
    REGISTER_PROBE,
    REGISTER_PERSONALITY,
    UNREGISTER_PERSONALITY,
    REGISTER_RESTRICTIONS,
    REGISTER_ENABLE_RINGS,
    REGISTER_FILES2,
    REGISTER_FILES_UPDATE2,
    REGISTER_BUFFERS2,
    REGISTER_BUFFERS_UPDATE,
    REGISTER_IOWQ_AFF,
    UNREGISTER_IOWQ_AFF,
    REGISTER_IOWQ_MAX_WORKERS,
    REGISTER_RING_FDS,
    UNREGISTER_RING_FDS,
    REGISTER_PBUF_RING,
    UNREGISTER_PBUF_RING,
    REGISTER_SYNC_CANCEL,
    REGISTER_FILE_ALLOC_RANGE,
    REGISTER_LAST,
}

impl REGISTER {
    /// The number that stands for the variant.
    pub open spec fn spec_value(self) -> u32 {
        match self {
            REGISTER::REGISTER_BUFFERS => 0,
            REGISTER::UNREGISTER_BUFFERS => 1,
            REGISTER::REGISTER_FILES => 2,
            REGISTER::UNREGISTER_FILES => 3,
            REGISTER::REGISTER_EVENTFD => 4,
            REGISTER::UNREGISTER_EVENTFD => 5,
            REGISTER::REGISTER_FILES_UPDATE => 6,
            REGISTER::REGISTER_EVENTFD_ASYNC => 7,
            REGISTER::REGISTER_PROBE => 8,
            REGISTER::REGISTER_PERSONALITY => 9,
            REGISTER::UNREGISTER_PERSONALITY => 10,
            REGISTER::REGISTER_RESTRICTIONS => 11,
            REGISTER::REGISTER_ENABLE_RINGS => 12,
            REGISTER::REGISTER_FILES2 => 13,
            REGISTER::REGISTER_FILES_UPDATE2 => 14,
            REGISTER::REGISTER_BUFFERS2 => 15,
            REGISTER::REGISTER_BUFFERS_UPDATE => 16,
            REGISTER::REGISTER_IOWQ_AFF => 17,
            REGISTER::UNREGISTER_IOWQ_AFF => 18,
            REGISTER::REGISTER_IOWQ_MAX_WORKERS => 19,
            REGISTER::REGISTER_RING_FDS => 20,
            REGISTER::UNREGISTER_RING_FDS => 21,
            REGISTER::REGISTER_PBUF_RING => 22,
            REGISTER::UNREGISTER_PBUF_RING => 23,
            REGISTER::REGISTER_SYNC_CANCEL => 24,
            REGISTER::REGISTER_FILE_ALLOC_RANGE => 25,
            REGISTER::REGISTER_LAST => 26,
        }
    }

    /// The number that stands for the variant.
    pub fn value(self) -> (r: u32)
        ensures
            r == self.spec_value(),
    {
        match self {
            REGISTER::REGISTER_BUFFERS => IORING_FEAT_REGISTER_BUFFERS,
            REGISTER::UNREGISTER_BUFFERS => IORING_FEAT_UNREGISTER_BUFFERS,
            REGISTER::REGISTER_FILES => IORING_FEAT_REGISTER_FILES,
            REGISTER::UNREGISTER_FILES => IORING_FEAT_UNREGISTER_FILES,
            REGISTER::REGISTER_EVENTFD => IORING_FEAT_REGISTER_EVENTFD,
            REGISTER::UNREGISTER_EVENTFD => IORING_FEAT_UNREGISTER_EVENTFD,
            REGISTER::REGISTER_FILES_UPDATE => IORING_FEAT_REGISTER_FILES_UPDATE,
            REGISTER::REGISTER_EVENTFD_ASYNC => IORING_FEAT_REGISTER_EVENTFD_ASYNC,
            REGISTER::REGISTER_PROBE => IORING_FEAT_REGISTER_PROBE,
            REGISTER::REGISTER_PERSONALITY => IORING_FEAT_REGISTER_PERSONALITY,
            REGISTER::UNREGISTER_PERSONALITY => IORING_FEAT_UNREGISTER_PERSONALITY,
            REGISTER::REGISTER_RESTRICTIONS => IORING_FEAT_REGISTER_RESTRICTIONS,
            REGISTER::REGISTER_ENABLE_RINGS => IORING_FEAT_REGISTER_ENABLE_RINGS,
            REGISTER::REGISTER_FILES2 => IORING_FEAT_REGISTER_FILES2,
            REGISTER::REGISTER_FILES_UPDATE2 => IORING_FEAT_REGISTER_FILES_UPDATE2,
            REGISTER::REGISTER_BUFFERS2 => IORING_FEAT_REGISTER_BUFFERS2,
            REGISTER::REGISTER_BUFFERS_UPDATE => IORING_FEAT_REGISTER_BUFFERS_UPDATE,
            REGISTER::REGISTER_IOWQ_AFF => IORING_FEAT_REGISTER_IOWQ_AFF,
            REGISTER::UNREGISTER_IOWQ_AFF => IORING_FEAT_UNREGISTER_IOWQ_AFF,
            REGISTER::REGISTER_IOWQ_MAX_WORKERS => IORING_FEAT_REGISTER_IOWQ_MAX_WORKERS,
            REGISTER::REGISTER_RING_FDS => IORING_FEAT_REGISTER_RING_FDS,
            REGISTER::UNREGISTER_RING_FDS => IORING_FEAT_UNREGISTER_RING_FDS,
            REGISTER::REGISTER_PBUF_RING => IORING_FEAT_REGISTER_PBUF_RING,
            REGISTER::UNREGISTER_PBUF_RING => IORING_FEAT_UNREGISTER_PBUF_RING,
            REGISTER::REGISTER_SYNC_CANCEL => IORING_FEAT_REGISTER_SYNC_CANCEL,
            REGISTER::REGISTER_FILE_ALLOC_RANGE => IORING_FEAT_REGISTER_FILE_ALLOC_RANGE,
            REGISTER::REGISTER_LAST => IORING_FEAT_REGISTER_LAST,
        }
    }
}

/// Categories of kernel workers.
#[derive(Debug, Clone, Copy, PartialEq, Eq)]
pub enum IO_WQ {
    BOUND,
    UNBOUND,
}

impl IO_WQ {
    /// The number that stands for the variant.
    pub open spec fn spec_value(self) -> u32 {
        match self {
            IO_WQ::BOUND => 0,
            IO_WQ::UNBOUND => 1,
        }
    }

    /// The number that stands for the variant.
    pub fn value(self) -> (r: u32)
        ensures
            r == self.spec_value(),
    {
        match self {
            IO_WQ::BOUND => IO_WQ_BOUND,
            IO_WQ::UNBOUND => IO_WQ_UNBOUND,
        }
    }
}

/// Operation codes of a restriction.
#[derive(Debug, Clone, Copy, PartialEq, Eq)]
pub enum RESTRICTION {
    REGISTER_OP,
    SQE_OP,
    SQE_FLAGS_ALLOWED,
    SQE_FLAGS_REQUIRED,
    LAST,
}

impl RESTRICTION {
    /// The number that stands for the variant.
    pub open spec fn spec_value(self) -> u32 {
        match self {
            RESTRICTION::REGISTER_OP => 0,
            RESTRICTION::SQE_OP => 1,
            RESTRICTION::SQE_FLAGS_ALLOWED => 2,
            RESTRICTION::SQE_FLAGS_REQUIRED => 3,
            RESTRICTION::LAST => 4,
        }
    }

    /// The number that stands for the variant.
    pub fn value(self) -> (r: u32)
        ensures
            r == self.spec_value(),
    {
        match self {
            RESTRICTION::REGISTER_OP => IORING_RESTRICTION_REGISTER_OP,
            RESTRICTION::SQE_OP => IORING_RESTRICTION_SQE_OP,
            RESTRICTION::SQE_FLAGS_ALLOWED => IORING_RESTRICTION_SQE_FLAGS_ALLOWED,
            RESTRICTION::SQE_FLAGS_REQUIRED => IORING_RESTRICTION_SQE_FLAGS_REQUIRED,
            RESTRICTION::LAST => IORING_RESTRICTION_LAST,
        }
    }
}

} // verus!
