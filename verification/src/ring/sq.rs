//! The ring's own door to its submission queue.

use vstd::prelude::*;
use crate::io_uring::definitions::{sqe, Payload};
use crate::ring::ring::{Ring, RingView};

verus! {

impl<T, U> RingView<T, U> {
    /// The ring after the next submission slot was allocated and left
    /// holding `entry`.
    pub open spec fn allocated(self, entry: sqe<T>) -> Self {
        RingView { sq: self.sq.allocated(entry), ..self }
    }
}

impl<T: Payload, U: Payload> Ring<T, U> {
    /// Allocates the next submission entry, blank; see `SQueue::next`.
    pub fn sqe_get(&mut self) -> (r: Option<&mut sqe<T>>)
        requires
            old(self).inv(),
        ensures
            final(self).inv(),
            r is None <==> old(self)@.sq.full(),
            match r {
                Some(entry) => {
                    &&& entry.is_blank()
                    &&& final(self)@ == old(self)@.allocated(*final(entry))
                    &&& final(self)@.sq.pending() == old(self)@.sq.pending().push(*final(entry))
                },
                None => final(self)@ == old(self)@,
            },
    {
        self.sq.next()
    }

    /// Publishes the entries allocated so far; see `SQueue::flush`.
    pub fn sqe_flush(&mut self) -> (r: u32)
        requires
            old(self).inv(),
        ensures
            final(self).inv(),
            final(self)@ == old(self)@.published(),
            old(self)@.sq.staged() == 0 ==> final(self)@ == old(self)@,
            r == old(self)@.sq.outstanding(),
    {
        self.sq.flush()
    }

    /// Allocates the next submission entry and fills in the common fields of
    /// an operation; see `SQueue::prep`.
    pub fn sqe_prep(
        &mut self,
        op: u32,
        fd: i32,
        addr: u64,
        len: u32,
        offset: u64,
        flags: u32,
    ) -> (r: Option<&mut sqe<T>>)
        requires
            old(self).inv(),
        ensures
            final(self).inv(),
            r is None <==> old(self)@.sq.full(),
            match r {
                Some(entry) => {
                    &&& entry.is_prepared(op, fd, addr, len, offset, flags)
                    &&& final(self)@ == old(self)@.allocated(*final(entry))
                    &&& final(self)@.sq.pending() == old(self)@.sq.pending().push(*final(entry))
                },
                None => final(self)@ == old(self)@,
            },
    {
        self.sq.prep(op, fd, addr, len, offset, flags)
    }
}

} // verus!
