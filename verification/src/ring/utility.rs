//! Submitting and waiting in one step: whether the kernel has to be
//! entered, and with which call.

use vstd::prelude::*;
use crate::cqueue::lemma_peek;
use crate::error::RingError;
use crate::io_uring::definitions::{cqe, Payload};
use crate::ring::enter::EnterCall;
use crate::ring::ring::{Ring, RingView};

verus! {

/// What is left to do for a submission.
#[derive(Debug, Clone, Copy)]
pub enum Plan {
    /// Nothing: the kernel's polling thread takes the entries, this many,
    /// without a system call.
    Done(u32),
    /// This call into the kernel.
    Enter(EnterCall),
}

/// How far a wait for one completion has come.
#[derive(Debug, Clone, Copy)]
pub enum Waited<U> {
    /// This completion is at the head of the queue.
    Ready(cqe<U>),
    /// None is there yet: the caller makes this call and waits again.
    Enter(EnterCall),
}

impl<T, U> RingView<T, U> {
    /// Fewer completions are outstanding than the caller waits for.
    pub open spec fn wait_needs_enter(self, min_complete: u32) -> bool {
        min_complete > self.cq.available()
    }

    /// The kernel holds completions back, or delivers them only when
    /// polled.
    pub open spec fn cq_needs_enter(self) -> bool {
        self.cq.needs_flush() || self.iopoll()
    }

    /// The kernel has to be entered: to wait for completions that are not
    /// there yet, to take submissions that no polling thread will pick up, or
    /// to release completions that it holds back.
    pub open spec fn needs_enter(self, to_submit: u32, min_complete: u32) -> bool {
        ||| self.wait_needs_enter(min_complete)
        ||| self.sq.needs_enter(to_submit)
        ||| self.cq_needs_enter()
    }

    /// What `ready` returns.
    pub open spec fn ready_plan(self, to_submit: u32, min_complete: u32, sig: u64, timeout: u32)
        -> Result<Plan, RingError> {
        if self.needs_enter(to_submit, min_complete) {
            Ok(
                Plan::Enter(
                    self.enter_call(
                        to_submit,
                        min_complete,
                        self.wait_needs_enter(min_complete) || self.cq_needs_enter(),
                        0,
                        sig,
                        timeout as u64,
                    ),
                ),
            )
        } else if to_submit == 0 && min_complete == 0 {
            Err(RingError::WouldBlock)
        } else {
            Ok(Plan::Done(to_submit))
        }
    }

    /// The ring after its submission queue was published.
    pub open spec fn published(self) -> Self {
        RingView { sq: self.sq.published(), ..self }
    }

    /// The ring after a look at its completion queue.
    pub open spec fn peeked(self) -> Self {
        RingView { cq: self.cq.peeked(), ..self }
    }

    /// What `wait` returns.
    pub open spec fn waited(self) -> Result<Waited<U>, RingError> {
        match self.cq.peek_result() {
            Err(e) => Err(e),
            Ok((Some(entry), _)) => Ok(Waited::Ready(entry)),
            Ok((None, _)) => Ok(Waited::Enter(self.peeked().enter_call(0, 1, true, 0, 0, 0))),
        }
    }

    /// What `reap` returns.
    pub open spec fn reaped(self) -> Result<cqe<U>, RingError> {
        match self.cq.peek_result() {
            Err(e) => Err(e),
            Ok((Some(entry), _)) => Ok(entry),
            Ok((None, _)) => Err(RingError::WouldBlock),
        }
    }
}

impl<T: Payload, U: Payload> Ring<T, U> {
    /// Hands the slot of the completion at the head back to the kernel.
    pub fn next(&mut self)
        requires
            old(self).inv(),
        ensures
            final(self).inv(),
            final(self)@ == (RingView { cq: old(self)@.cq.advanced(1), ..old(self)@ }),
    {
        self.cq.advance(1);
    }

    /// Whether the kernel has to be entered to submit `to_submit` entries
    /// and wait for `min_complete` completions.
    pub fn needs_enter(&self, to_submit: u32, min_complete: u32) -> (r: bool)
        ensures
            r == self@.needs_enter(to_submit, min_complete),
    {
        let iopoll = self.has_flag(crate::io_uring::constants::IORING_SETUP_IOPOLL);
        min_complete > self.cq.available() || self.sq.needs_enter(to_submit)
            || self.cq.needs_flush() || iopoll
    }

    /// Decides what submitting `to_submit` published entries and waiting for
    /// `min_complete` completions takes, with signal mask `sig` (an address,
    /// zero for none) and a timeout of `timeout` milliseconds (zero for
    /// none).
    ///
    /// Where the kernel has to be entered, the call is returned. Otherwise,
    /// with nothing to submit and nothing to wait for the result is
    /// `WouldBlock`, and else the submission is done.
    pub fn ready(&self, to_submit: u32, min_complete: u32, sig: u64, timeout: u32) -> (r:
        Result<Plan, RingError>)
        ensures
            r == self@.ready_plan(to_submit, min_complete, sig, timeout),
    {
        let iopoll = self.has_flag(crate::io_uring::constants::IORING_SETUP_IOPOLL);
        let wait = min_complete > self.cq.available();
        let cq_enter = self.cq.needs_flush() || iopoll;
        let sq_enter = self.sq.needs_enter(to_submit);
        if wait || sq_enter || cq_enter {
            let call = self.enter_call(
                to_submit,
                min_complete,
                wait || cq_enter,
                0,
                sig,
                timeout as u64,
            );
            return Ok(Plan::Enter(call));
        }
        if to_submit == 0 && min_complete == 0 {
            return Err(RingError::WouldBlock);
        }
        Ok(Plan::Done(to_submit))
    }

    /// Publishes the entries allocated so far and decides what submitting
    /// them takes.
    pub fn submit(&mut self) -> (r: Result<Plan, RingError>)
        requires
            old(self).inv(),
        ensures
            final(self).inv(),
            final(self)@ == old(self)@.published(),
            r == final(self)@.ready_plan(old(self)@.sq.outstanding(), 0, 0, 0),
    {
        let to_submit = self.sq.flush();
        self.ready(to_submit, 0, 0, 0)
    }

    /// Publishes the entries allocated so far and decides what submitting
    /// them and waiting for one completion takes. After the call that it
    /// asks for, `reap` fetches the completion.
    pub fn submit_wait(&mut self) -> (r: Result<Plan, RingError>)
        requires
            old(self).inv(),
        ensures
            final(self).inv(),
            final(self)@ == old(self)@.published(),
            r == final(self)@.ready_plan(old(self)@.sq.outstanding(), 1, 0, 0),
    {
        let to_submit = self.sq.flush();
        self.ready(to_submit, 1, 0, 0)
    }

    /// Fetches the completion at the head of the queue; `WouldBlock` if
    /// there is none.
    pub fn reap(&mut self) -> (r: Result<cqe<U>, RingError>)
        requires
            old(self).inv(),
        ensures
            final(self).inv(),
            final(self)@ == old(self)@.peeked(),
            r == old(self)@.reaped(),
    {
        match self.cq.peek() {
            Err(e) => Err(e),
            Ok((Some(entry), _)) => Ok(entry),
            Ok((None, _)) => Err(RingError::WouldBlock),
        }
    }

    /// One round of waiting for a completion: the completion at the head of
    /// the queue if there is one, else the call into the kernel that waits
    /// for one. The caller makes the call and waits again.
    pub fn wait(&mut self) -> (r: Result<Waited<U>, RingError>)
        requires
            old(self).inv(),
        ensures
            final(self).inv(),
            final(self)@ == old(self)@.peeked(),
            r == old(self)@.waited(),
    {
        match self.cq.peek() {
            Err(e) => Err(e),
            Ok((Some(entry), _)) => Ok(Waited::Ready(entry)),
            Ok((None, _)) => {
                proof {
                    lemma_peek(old(self)@.cq);
                }
                match self.ready(0, 1, 0, 0) {
                    Ok(Plan::Enter(call)) => Ok(Waited::Enter(call)),
                    Ok(Plan::Done(_)) => Err(RingError::WouldBlock),
                    Err(e) => Err(e),
                }
            },
        }
    }
}

} // verus!
