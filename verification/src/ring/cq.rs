//! Submitting and waiting with retries.
//!
//! One submit-and-wait request may take several calls into the kernel: a
//! call may take fewer entries than it was offered, and a wait may return
//! before a completion is there. `GetEvents` is the state of such a request.
//! `Ring::cqe_get` runs one pass over it, up to the call into the kernel that
//! the pass needs; the caller makes the call and reports its end to
//! `GetEvents::entered`, which says whether another pass is due.

use vstd::prelude::*;
use crate::cqueue::{lemma_peek, UDATA_TIMEOUT};
use crate::error::RingError;
use crate::io_uring::constants::IORING_OP_TIMEOUT;
use crate::io_uring::definitions::{cqe, sqe, Payload};
use crate::ring::enter::{EnterCall, Entered};
use crate::ring::ring::{Ring, RingView};

verus! {

/// The state of one submit-and-wait request.
#[derive(Debug, Clone, Copy)]
pub struct GetEvents<U> {
    /// The number of published entries that the kernel has yet to take.
    pub submit: u32,
    /// The number of completions to wait for.
    pub min_complete: u32,
    /// The caller's own flags for a call that waits.
    pub get_flags: u32,
    /// The address of the signal mask for a call that waits; zero for none.
    pub sig: u64,
    /// The timeout of the wait in milliseconds; zero for none.
    pub timeout: u64,
    /// A call into the kernel has returned without ending the request.
    pub looped: bool,
    /// The first failure of the request. Once set it is what every later
    /// pass and every later report returns.
    pub error: Option<RingError>,
    /// The completion that was at the head of the queue when the pending
    /// call into the kernel was asked for.
    pub held: Option<cqe<U>>,
}

/// Where a pass over a request, or the report of a call, has left it.
#[derive(Debug, Clone, Copy)]
pub enum Step<U> {
    /// The request has ended, with this completion at the head of the
    /// queue, or with none and nothing left to wait for.
    Done(Option<cqe<U>>),
    /// The request has failed.
    Fail(RingError),
    /// The caller makes this call into the kernel and reports its end.
    Enter(EnterCall),
    /// The caller runs another pass.
    Again,
}

impl<U> GetEvents<U> {
    /// The entries still to submit after the kernel took `submitted` of
    /// them.
    pub open spec fn remaining(self, submitted: u32) -> u32 {
        if submitted >= self.submit {
            0
        } else {
            (self.submit - submitted) as u32
        }
    }

    /// Nothing is there, nothing is waited for and nothing is to submit.
    pub open spec fn idle(self, entry: Option<cqe<U>>) -> bool {
        entry is None && self.min_complete == 0 && self.submit == 0
    }

    /// What `entered` returns.
    ///
    /// A failed call fails the request with its error number, a call whose
    /// timeout ran out with `TimedOut`. After a call that succeeded the
    /// request ends if a completion was at the head of the queue when the
    /// call was asked for, or if nothing is left to submit and nothing is
    /// waited for; otherwise another pass is due.
    pub open spec fn entered_step(self, ret: Entered) -> Step<U> {
        if self.error is Some {
            Step::Fail(self.error->Some_0)
        } else {
            match ret {
                Entered::Failed(errno) => Step::Fail(RingError::Os(errno)),
                Entered::Expired => Step::Fail(RingError::TimedOut),
                Entered::Submitted(n) => if self.held is Some {
                    Step::Done(self.held)
                } else if self.remaining(n) == 0 && self.min_complete == 0 {
                    Step::Done(None)
                } else {
                    Step::Again
                },
            }
        }
    }

    /// The request after `entered`: a failure is recorded, what the kernel
    /// took is no longer to submit, and the held completion is let go. The
    /// request counts as looped once another pass is due.
    pub open spec fn entered_state(self, ret: Entered) -> Self {
        match self.entered_step(ret) {
            Step::Fail(e) => GetEvents { error: Some(e), held: None, ..self },
            Step::Again => GetEvents {
                submit: self.remaining(ret->Submitted_0),
                looped: true,
                held: None,
                ..self
            },
            _ => GetEvents { submit: self.remaining(ret->Submitted_0), held: None, ..self },
        }
    }

    /// The request after a pass that ended in `step` with `entry` at the head
    /// of the queue: a failure is recorded, and the entry is held while a
    /// call into the kernel is pending.
    pub open spec fn passed(self, step: Step<U>, entry: Option<cqe<U>>) -> Self {
        match step {
            Step::Fail(e) => GetEvents { error: Some(e), held: None, ..self },
            Step::Enter(_) => GetEvents { held: entry, ..self },
            _ => GetEvents { held: None, ..self },
        }
    }

}

impl<U: Payload> GetEvents<U> {
    /// A request to submit `to_submit` published entries and wait for
    /// `min_complete` completions.
    pub fn new(
        to_submit: u32,
        min_complete: u32,
        get_flags: u32,
        sig: u64,
        timeout: u64,
    ) -> (r: GetEvents<U>)
        ensures
            r == (GetEvents::<U> {
                submit: to_submit,
                min_complete,
                get_flags,
                sig,
                timeout,
                looped: false,
                error: None,
                held: None,
            }),
    {
        GetEvents {
            submit: to_submit,
            min_complete,
            get_flags,
            sig,
            timeout,
            looped: false,
            error: None,
            held: None,
        }
    }

    /// Takes the end of the call into the kernel that the last pass asked
    /// for.
    pub fn entered(&mut self, ret: Entered) -> (r: Step<U>)
        ensures
            r == old(self).entered_step(ret),
            *final(self) == old(self).entered_state(ret),
            !(r is Enter),
    {
        if let Some(e) = self.error {
            self.held = None;
            return Step::Fail(e);
        }
        match ret {
            Entered::Failed(errno) => {
                let e = RingError::Os(errno);
                self.error = Some(e);
                self.held = None;
                Step::Fail(e)
            },
            Entered::Expired => {
                self.error = Some(RingError::TimedOut);
                self.held = None;
                Step::Fail(RingError::TimedOut)
            },
            Entered::Submitted(n) => {
                self.submit = if n >= self.submit {
                    0
                } else {
                    self.submit - n
                };
                let held = self.held;
                self.held = None;
                if held.is_some() {
                    Step::Done(held)
                } else if self.submit == 0 && self.min_complete == 0 {
                    Step::Done(None)
                } else {
                    self.looped = true;
                    Step::Again
                }
            },
        }
    }
}

impl<T, U> RingView<T, U> {
    /// Where one pass over the request `st` ends.
    ///
    /// A request that has failed stays failed. Else the pass looks at the
    /// completion queue, and an error found there fails the request. With no
    /// completion there, nothing to wait for and nothing to submit, the
    /// request would block, unless this is its first pass and the kernel
    /// holds completions back: then the kernel is entered to release them.
    /// The kernel is entered, too, to wait for completions that are not there
    /// yet and to take submissions that no polling thread picks up; where
    /// none of these holds the request ends with what is at the head of the
    /// queue. A request with a timeout does not enter the kernel twice: on a
    /// pass after the first it ends with the completion at the head, or
    /// without one has timed out.
    pub open spec fn get_step(self, st: GetEvents<U>) -> Step<U> {
        if st.error is Some {
            Step::Fail(st.error->Some_0)
        } else {
            match self.cq.peek_result() {
                Err(e) => Step::Fail(e),
                Ok((entry, available)) => {
                    let getevents = st.min_complete > available || st.idle(entry);
                    if st.idle(entry) && (st.looped || !self.cq_needs_enter()) {
                        Step::Fail(RingError::WouldBlock)
                    } else if !getevents && !self.sq.needs_enter(st.submit) {
                        Step::Done(entry)
                    } else if st.looped && st.timeout > 0 {
                        if entry is None {
                            Step::Fail(RingError::TimedOut)
                        } else {
                            Step::Done(entry)
                        }
                    } else {
                        Step::Enter(
                            self.enter_call(
                                st.submit,
                                st.min_complete,
                                getevents,
                                st.get_flags,
                                st.sig,
                                st.timeout,
                            ),
                        )
                    }
                },
            }
        }
    }

    /// A wait with this timeout has to arm an internal timeout: a timeout was
    /// asked for, and the kernel takes none with the call.
    pub open spec fn needs_timeout_op(self, timeout: u64) -> bool {
        timeout > 0 && !self.cq.ext_arg
    }

    /// The request after one pass.
    pub open spec fn get_state(self, st: GetEvents<U>) -> GetEvents<U> {
        st.passed(
            self.get_step(st),
            match self.cq.peek_result() {
                Ok((entry, _)) => entry,
                Err(_) => None,
            },
        )
    }

    /// The ring after one pass over the request `st`: the pass over a
    /// request that has not failed looks at the completion queue.
    pub open spec fn get_ring(self, st: GetEvents<U>) -> Self {
        if st.error is Some {
            self
        } else {
            self.peeked()
        }
    }
}

/// A request that waits for at least one completion never ends without
/// one.
pub proof fn lemma_wait_yields_completion<T, U>(ring: RingView<T, U>, st: GetEvents<U>)
    requires
        st.min_complete >= 1,
    ensures
        ring.get_step(st) is Done ==> ring.get_step(st)->Done_0 is Some,
{
    lemma_peek(ring.cq);
}

impl<T: Payload, U: Payload> Ring<T, U> {
    /// Runs one pass over the request `st`; see `RingView::get_step` for
    /// where it ends.
    pub fn cqe_get(&mut self, st: &mut GetEvents<U>) -> (r: Step<U>)
        requires
            old(self).inv(),
        ensures
            final(self).inv(),
            r == old(self)@.get_step(*old(st)),
            *final(st) == old(self)@.get_state(*old(st)),
            final(self)@ == old(self)@.get_ring(*old(st)),
            !(r is Again),
            old(st).min_complete >= 1 && r is Done ==> r->Done_0 is Some,
    {
        proof {
            if st.min_complete >= 1 {
                lemma_wait_yields_completion(self@, *st);
            }
        }
        if let Some(e) = st.error {
            st.held = None;
            return Step::Fail(e);
        }
        let (entry, available) = match self.cq.peek() {
            Ok(found) => found,
            Err(e) => {
                st.error = Some(e);
                st.held = None;
                return Step::Fail(e);
            },
        };
        let idle = entry.is_none() && st.min_complete == 0 && st.submit == 0;
        if idle {
            let iopoll = self.has_flag(crate::io_uring::constants::IORING_SETUP_IOPOLL);
            let cq_enter = self.cq.needs_flush() || iopoll;
            if st.looped || !cq_enter {
                st.error = Some(RingError::WouldBlock);
                st.held = None;
                return Step::Fail(RingError::WouldBlock);
            }
        }
        let getevents = st.min_complete > available || idle;
        if !getevents && !self.sq.needs_enter(st.submit) {
            st.held = None;
            return Step::Done(entry);
        }
        if st.looped && st.timeout > 0 {
            st.held = None;
            if entry.is_none() {
                st.error = Some(RingError::TimedOut);
                return Step::Fail(RingError::TimedOut);
            }
            return Step::Done(entry);
        }
        st.held = entry;
        Step::Enter(
            self.enter_call(
                st.submit,
                st.min_complete,
                getevents,
                st.get_flags,
                st.sig,
                st.timeout,
            ),
        )
    }

    /// Whether a wait with a timeout of `timeout` milliseconds (zero for
    /// none) has to arm an internal timeout with `arm_timeout` before its
    /// request starts: the kernel does not support extended-argument waits,
    /// so that the call into it cannot carry the timeout.
    pub fn needs_timeout_op(&self, timeout: u64) -> (r: bool)
        ensures
            r == self@.needs_timeout_op(timeout),
    {
        timeout > 0 && !self.cq.ext_arg()
    }

    /// Arms the timeout of a bounded wait on a kernel without
    /// extended-argument waits: allocates an entry for a timeout operation on
    /// the timeout value at address `ts`, to fire once that time has passed
    /// or `count` completions have arrived, and tags it with the reserved
    /// timeout tag, so that `peek` consumes its completion.
    ///
    /// Returns `None`, changing nothing, when the ring is full.
    pub fn arm_timeout(&mut self, ts: u64, count: u32) -> (r: Option<&mut sqe<T>>)
        requires
            old(self).inv(),
        ensures
            final(self).inv(),
            r is None <==> old(self)@.sq.full(),
            match r {
                Some(entry) => {
                    &&& entry.user_data == UDATA_TIMEOUT
                    &&& (sqe { user_data: 0, ..*entry }).is_prepared(
                        IORING_OP_TIMEOUT,
                        -1i32,
                        ts,
                        1,
                        count as u64,
                        0,
                    )
                    &&& final(self)@ == old(self)@.allocated(*final(entry))
                    &&& final(self)@.sq.pending() == old(self)@.sq.pending().push(*final(entry))
                },
                None => final(self)@ == old(self)@,
            },
    {
        match self.sq.prep(IORING_OP_TIMEOUT, -1, ts, 1, count as u64, 0) {
            Some(entry) => {
                entry.user_data = UDATA_TIMEOUT;
                Some(entry)
            },
            None => None,
        }
    }

    /// Starts a request that waits for one completion and submits nothing,
    /// and runs its first pass.
    pub fn wait_cqe(&mut self) -> (r: (GetEvents<U>, Step<U>))
        requires
            old(self).inv(),
        ensures
            final(self).inv(),
            final(self)@ == old(self)@.peeked(),
            r.1 == old(self)@.get_step(
                GetEvents::<U> {
                    submit: 0,
                    min_complete: 1,
                    get_flags: 0,
                    sig: 0,
                    timeout: 0,
                    looped: false,
                    error: None,
                    held: None,
                },
            ),
            r.0 == old(self)@.get_state(
                GetEvents::<U> {
                    submit: 0,
                    min_complete: 1,
                    get_flags: 0,
                    sig: 0,
                    timeout: 0,
                    looped: false,
                    error: None,
                    held: None,
                },
            ),
            !(r.1 is Again),
            r.1 is Done ==> r.1->Done_0 is Some,
    {
        let mut st = GetEvents::new(0, 1, 0, 0, 0);
        let step = self.cqe_get(&mut st);
        (st, step)
    }
}

} // verus!
