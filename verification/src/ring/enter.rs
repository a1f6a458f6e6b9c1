//! What the ring asks of the system call that enters the kernel, and what
//! it takes back from it.
//!
//! The ring never makes the call itself. It decides whether one is needed
//! and with which arguments; its caller makes the call and reports how it
//! ended.

use vstd::prelude::*;
use crate::error::errno_time;
use crate::io_uring::constants::{
    IORING_ENTER_EXT_ARG, IORING_ENTER_GETEVENTS, IORING_ENTER_SQ_WAKEUP,
};
use crate::io_uring::definitions::{__kernel_timespec, getevents_arg, Payload};
use crate::io_uring::functions::SIGMASK_SIZE;
use crate::ring::ring::{Ring, RingView};

verus! {

/// The last argument of the call.
#[derive(Debug, Clone, Copy)]
pub enum EnterArg {
    /// The bare signal mask, by address (zero for none).
    Sigmask { sig: u64 },
    /// The extended argument: the signal mask by address and a timeout. The
    /// caller places the timeout in memory and passes both as a
    /// `getevents_arg`.
    Extended { sig: u64, ts: __kernel_timespec },
}

impl EnterArg {
    /// The argument size that goes with the argument: that of a signal mask,
    /// or that of the extended argument block.
    pub open spec fn spec_size(self) -> nat {
        match self {
            EnterArg::Sigmask { .. } => SIGMASK_SIZE as nat,
            EnterArg::Extended { .. } => vstd::layout::size_of::<getevents_arg>(),
        }
    }

    /// The argument size to pass with the argument.
    pub fn size(&self) -> (r: usize)
        ensures
            r == self.spec_size(),
    {
        match self {
            EnterArg::Sigmask { .. } => SIGMASK_SIZE as usize,
            EnterArg::Extended { .. } => core::mem::size_of::<getevents_arg>(),
        }
    }
}

/// One call into the kernel, to be made by the ring's caller.
#[derive(Debug, Clone, Copy)]
pub struct EnterCall {
    pub fd: i32,
    pub to_submit: u32,
    pub min_complete: u32,
    pub flags: u32,
    pub arg: EnterArg,
}

/// How a call into the kernel ended.
#[derive(Debug, Clone, Copy)]
pub enum Entered {
    /// The kernel took this many submission entries.
    Submitted(u32),
    /// The timeout passed with the call ran out.
    Expired,
    /// The call failed with this error number.
    Failed(i32),
}

impl Entered {
    /// How a call that failed with error number `errno` ended, on a platform
    /// whose number for an expired timer is `time`.
    pub open spec fn classified(errno: i32, time: i32) -> Entered {
        if errno == time {
            Entered::Expired
        } else {
            Entered::Failed(errno)
        }
    }

    /// How a call that failed with error number `errno` ended, given the
    /// platform's number for an expired timer.
    pub fn classify(errno: i32, time: i32) -> (r: Entered)
        ensures
            r == Self::classified(errno, time),
    {
        if errno == time {
            Entered::Expired
        } else {
            Entered::Failed(errno)
        }
    }

    /// How a call that failed with error number `errno` ended on this
    /// platform: its timeout ran out, or it failed with that number.
    pub fn from_errno(errno: i32) -> (r: Entered)
        ensures
            exists|time: i32| r == Self::classified(errno, time),
    {
        let time = errno_time();
        Self::classify(errno, time)
    }
}

impl<T, U> RingView<T, U> {
    /// A wait with this timeout passes the extended argument: a timeout was
    /// asked for and the kernel supports it.
    pub open spec fn uses_ext_arg(self, timeout: u64) -> bool {
        self.cq.ext_arg && timeout > 0
    }

    /// The flags of a call: the wait flag with the caller's own wait flags
    /// if the call is to wait for or flush completions, the wakeup flag if
    /// the polling thread has gone idle, and the extended-argument flag if the
    /// call passes the extended argument.
    pub open spec fn enter_flags(self, getevents: bool, get_flags: u32, timeout: u64) -> u32 {
        (if getevents {
            IORING_ENTER_GETEVENTS | get_flags
        } else {
            0
        }) | (if self.sq.needs_wakeup() {
            IORING_ENTER_SQ_WAKEUP
        } else {
            0
        }) | (if self.uses_ext_arg(timeout) {
            IORING_ENTER_EXT_ARG
        } else {
            0
        })
    }

    /// The last argument of a call: the extended argument with the timeout
    /// in seconds and nanoseconds where it is used, the bare signal mask
    /// otherwise.
    pub open spec fn enter_arg(self, sig: u64, timeout: u64) -> EnterArg {
        if self.uses_ext_arg(timeout) {
            EnterArg::Extended { sig, ts: __kernel_timespec::spec_from_ms(timeout as i64) }
        } else {
            EnterArg::Sigmask { sig }
        }
    }

    /// The call that submits `to_submit` entries and waits for
    /// `min_complete` completions.
    pub open spec fn enter_call(
        self,
        to_submit: u32,
        min_complete: u32,
        getevents: bool,
        get_flags: u32,
        sig: u64,
        timeout: u64,
    ) -> EnterCall {
        EnterCall {
            fd: self.enter_fd,
            to_submit,
            min_complete,
            flags: self.enter_flags(getevents, get_flags, timeout),
            arg: self.enter_arg(sig, timeout),
        }
    }
}

impl<T: Payload, U: Payload> Ring<T, U> {
    /// Builds the call that submits `to_submit` entries and waits for
    /// `min_complete` completions, with a timeout of `timeout` milliseconds
    /// (zero for none).
    pub fn enter_call(
        &self,
        to_submit: u32,
        min_complete: u32,
        getevents: bool,
        get_flags: u32,
        sig: u64,
        timeout: u64,
    ) -> (r: EnterCall)
        ensures
            r == self@.enter_call(to_submit, min_complete, getevents, get_flags, sig, timeout),
    {
        let ext = self.cq.ext_arg() && timeout > 0;
        let mut flags: u32 = 0;
        if getevents {
            flags = IORING_ENTER_GETEVENTS | get_flags;
        }
        let wakeup: u32 = if self.sq.needs_wakeup() {
            IORING_ENTER_SQ_WAKEUP
        } else {
            0
        };
        let extended: u32 = if ext {
            IORING_ENTER_EXT_ARG
        } else {
            0
        };
        let arg = if ext {
            EnterArg::Extended {
                sig,
                ts: __kernel_timespec::from_ms(
                    #[verifier::truncate]
                    (timeout as i64),
                ),
            }
        } else {
            EnterArg::Sigmask { sig }
        };
        EnterCall {
            fd: self.enter_fd,
            to_submit,
            min_complete,
            flags: flags | wakeup | extended,
            arg,
        }
    }
}

} // verus!
