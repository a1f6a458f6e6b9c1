//! The ways in which an operation on a ring fails, and the error numbers
//! that stand for them at the system-call boundary.

use vstd::prelude::*;

verus! {

/// A failure reported by the ring.
///
/// A full submission ring is not among them: allocation reports it by
/// returning `None`, and the caller publishes or submits and tries again.
#[derive(Debug, Clone, Copy, PartialEq, Eq, Structural)]
pub enum RingError {
    /// Nothing is ready, nothing was asked for and nothing calls for the
    /// kernel: the caller may come back later.
    WouldBlock,
    /// A bounded wait ran out before a completion arrived.
    TimedOut,
    /// The entry or ring geometry is not one that the kernel interface has.
    Invalid,
    /// Another error of the kernel, by its error number: that of a failed
    /// system call, or the one that the negative result of an internal
    /// timeout completion stands for.
    Os(i32),
}

/// The constant `libc::EAGAIN`, the platform's error number for "try again".
/// Nothing is claimed of its value.
#[verifier::external_body]
fn errno_again() -> i32 {
    libc::EAGAIN
}

/// The constant `libc::ETIME`, the platform's error number for an expired
/// timer. Nothing is claimed of its value.
#[verifier::external_body]
pub(crate) fn errno_time() -> i32 {
    libc::ETIME
}

/// The constant `libc::EINVAL`, the platform's error number for an invalid
/// argument. Nothing is claimed of its value.
#[verifier::external_body]
fn errno_invalid() -> i32 {
    libc::EINVAL
}

impl RingError {
    /// The error number of the failure on a platform whose numbers for "try
    /// again", "timer expired" and "invalid argument" are `again`, `time` and
    /// `invalid`.
    pub open spec fn spec_errno(self, again: i32, time: i32, invalid: i32) -> i32 {
        match self {
            RingError::WouldBlock => again,
            RingError::TimedOut => time,
            RingError::Invalid => invalid,
            RingError::Os(code) => code,
        }
    }

    /// The error number of the failure, given the platform's numbers.
    pub fn errno(self, again: i32, time: i32, invalid: i32) -> (r: i32)
        ensures
            r == self.spec_errno(again, time, invalid),
    {
        match self {
            RingError::WouldBlock => again,
            RingError::TimedOut => time,
            RingError::Invalid => invalid,
            RingError::Os(code) => code,
        }
    }

    /// The error number of the failure on this platform. The number that an
    /// `Os` carries comes back as it is.
    pub fn raw_os_error(self) -> (r: i32)
        ensures
            exists|again: i32, time: i32, invalid: i32|
                r == self.spec_errno(again, time, invalid),
            self is Os ==> r == self->Os_0,
    {
        let again = errno_again();
        let time = errno_time();
        let invalid = errno_invalid();
        let r = self.errno(again, time, invalid);
        r
    }
}

} // verus!
