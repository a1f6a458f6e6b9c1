//! One builder for each operation: each allocates the next submission
//! entry and fills it in for its operation.
//!
//! Addresses are passed as numbers. Where an argument is narrower or wider
//! than the field it travels in, the field takes its low bits or its
//! sign-extended value, as a cast does.

use vstd::prelude::*;
use crate::io_uring::constants::{
    IORING_FSYNC_DATASYNC, IORING_OP_ACCEPT, IORING_OP_CLOSE, IORING_OP_CONNECT,
    IORING_OP_EPOLL_CTL, IORING_OP_FADVISE, IORING_OP_FALLOCATE, IORING_OP_FGETXATTR,
    IORING_OP_FSETXATTR, IORING_OP_FSYNC, IORING_OP_LINKAT, IORING_OP_MADVISE, IORING_OP_MKDIRAT,
    IORING_OP_NOP, IORING_OP_OPENAT, IORING_OP_READ, IORING_OP_READV, IORING_OP_RECV,
    IORING_OP_RECVMSG, IORING_OP_RENAMEAT, IORING_OP_SEND, IORING_OP_SENDMSG, IORING_OP_SHUTDOWN,
    IORING_OP_SOCKET, IORING_OP_SPLICE, IORING_OP_STATX, IORING_OP_SYMLINKAT,
    IORING_OP_SYNC_FILE_RANGE, IORING_OP_TEE, IORING_OP_UNLINKAT, IORING_OP_WRITE,
    IORING_OP_WRITEV,
};
use crate::io_uring::definitions::{sqe, Payload};
use crate::ring::ring::{Ring, RingView};

verus! {

/// The constant `libc::AT_FDCWD`: the descriptor that stands for the working
/// directory in the calls that take a directory descriptor. Nothing is
/// claimed of its value.
#[verifier::external_body]
fn at_fdcwd() -> i32 {
    libc::AT_FDCWD
}

/// The constant `libc::O_CREAT`: the open flag that creates the file if it
/// does not exist. Nothing is claimed of its value.
#[verifier::external_body]
fn open_create() -> i32 {
    libc::O_CREAT
}

/// The constant `libc::O_WRONLY`: the open flag for writing only. Nothing is
/// claimed of its value.
#[verifier::external_body]
fn open_write_only() -> i32 {
    libc::O_WRONLY
}

/// The constant `libc::O_TRUNC`: the open flag that empties the file.
/// Nothing is claimed of its value.
#[verifier::external_body]
fn open_truncate() -> i32 {
    libc::O_TRUNC
}

impl<T, U> RingView<T, U> {
    /// An entry was allocated on this ring and filled in for an operation:
    /// `entry` is what the builder hands out, `left` is what the caller
    /// leaves in the slot, and `after` is the ring with `left` appended to
    /// its outstanding entries.
    pub open spec fn prepped(
        self,
        after: Self,
        entry: sqe<T>,
        left: sqe<T>,
        op: u32,
        fd: i32,
        addr: u64,
        len: u32,
        offset: u64,
        flags: u32,
    ) -> bool
        where T: Payload
    {
        &&& entry.is_prepared(op, fd, addr, len, offset, flags)
        &&& after == self.allocated(left)
        &&& after.sq.pending() == self.sq.pending().push(left)
    }
}

/// Operations that have a system call of the same name.
impl<T: Payload, U: Payload> Ring<T, U> {
    /// Reads from `fd` at `offset` into the `iovcnt` buffers listed at address `iov`.
    pub fn preadv2(
        &mut self,
        fd: i32,
        iov: u64,
        iovcnt: i32,
        offset: i64,
        flags: i32,
    ) -> (r: Option<&mut sqe<T>>)
        requires
            old(self).inv(),
        ensures
            final(self).inv(),
            r is None <==> old(self)@.sq.full(),
            match r {
                Some(entry) => old(self)@.prepped(
                    final(self)@,
                    *entry,
                    *final(entry),
                    IORING_OP_READV,
                    fd,
                    iov,
                    iovcnt as u32,
                    offset as u64,
                    flags as u32,
                ),
                None => final(self)@ == old(self)@,
            },
    {
        self.sq.prep(
            IORING_OP_READV,
            fd,
            iov,
            #[verifier::truncate]
            (iovcnt as u32),
            #[verifier::truncate]
            (offset as u64),
            #[verifier::truncate]
            (flags as u32),
        )
    }

    /// Reads like `preadv2`, without flags.
    pub fn preadv(
        &mut self,
        fd: i32,
        iov: u64,
        iovcnt: i32,
        offset: i64,
    ) -> (r: Option<&mut sqe<T>>)
        requires
            old(self).inv(),
        ensures
            final(self).inv(),
            r is None <==> old(self)@.sq.full(),
            match r {
                Some(entry) => old(self)@.prepped(
                    final(self)@,
                    *entry,
                    *final(entry),
                    IORING_OP_READV,
                    fd,
                    iov,
                    iovcnt as u32,
                    offset as u64,
                    0,
                ),
                None => final(self)@ == old(self)@,
            },
    {
        self.preadv2(fd, iov, iovcnt, offset, 0)
    }

    /// Reads like `preadv`, from the start of the file.
    pub fn readv(&mut self, fd: i32, iov: u64, iovcnt: i32) -> (r: Option<&mut sqe<T>>)
        requires
            old(self).inv(),
        ensures
            final(self).inv(),
            r is None <==> old(self)@.sq.full(),
            match r {
                Some(entry) => old(self)@.prepped(
                    final(self)@,
                    *entry,
                    *final(entry),
                    IORING_OP_READV,
                    fd,
                    iov,
                    iovcnt as u32,
                    0,
                    0,
                ),
                None => final(self)@ == old(self)@,
            },
    {
        self.preadv(fd, iov, iovcnt, 0)
    }

    /// Writes to `fd` at `offset` from the `iovcnt` buffers listed at address `iov`.
    pub fn pwritev2(
        &mut self,
        fd: i32,
        iov: u64,
        iovcnt: i32,
        offset: i64,
        flags: i32,
    ) -> (r: Option<&mut sqe<T>>)
        requires
            old(self).inv(),
        ensures
            final(self).inv(),
            r is None <==> old(self)@.sq.full(),
            match r {
                Some(entry) => old(self)@.prepped(
                    final(self)@,
                    *entry,
                    *final(entry),
                    IORING_OP_WRITEV,
                    fd,
                    iov,
                    iovcnt as u32,
                    offset as u64,
                    flags as u32,
                ),
                None => final(self)@ == old(self)@,
            },
    {
        self.sq.prep(
            IORING_OP_WRITEV,
            fd,
            iov,
            #[verifier::truncate]
            (iovcnt as u32),
            #[verifier::truncate]
            (offset as u64),
            #[verifier::truncate]
            (flags as u32),
        )
    }

    /// Writes like `pwritev2`, without flags.
    pub fn pwritev(
        &mut self,
        fd: i32,
        iov: u64,
        iovcnt: i32,
        offset: i64,
    ) -> (r: Option<&mut sqe<T>>)
        requires
            old(self).inv(),
        ensures
            final(self).inv(),
            r is None <==> old(self)@.sq.full(),
            match r {
                Some(entry) => old(self)@.prepped(
                    final(self)@,
                    *entry,
                    *final(entry),
                    IORING_OP_WRITEV,
                    fd,
                    iov,
                    iovcnt as u32,
                    offset as u64,
                    0,
                ),
                None => final(self)@ == old(self)@,
            },
    {
        self.pwritev2(fd, iov, iovcnt, offset, 0)
    }

    /// Writes like `pwritev`, at the start of the file.
    pub fn writev(&mut self, fd: i32, iov: u64, iovcnt: i32) -> (r: Option<&mut sqe<T>>)
        requires
            old(self).inv(),
        ensures
            final(self).inv(),
            r is None <==> old(self)@.sq.full(),
            match r {
                Some(entry) => old(self)@.prepped(
                    final(self)@,
                    *entry,
                    *final(entry),
                    IORING_OP_WRITEV,
                    fd,
                    iov,
                    iovcnt as u32,
                    0,
                    0,
                ),
                None => final(self)@ == old(self)@,
            },
    {
        self.pwritev(fd, iov, iovcnt, 0)
    }

    /// Flushes `fd` to storage.
    pub fn fsync(&mut self, fd: i32) -> (r: Option<&mut sqe<T>>)
        requires
            old(self).inv(),
        ensures
            final(self).inv(),
            r is None <==> old(self)@.sq.full(),
            match r {
                Some(entry) => old(self)@.prepped(
                    final(self)@,
                    *entry,
                    *final(entry),
                    IORING_OP_FSYNC,
                    fd,
                    0,
                    0,
                    0,
                    0,
                ),
                None => final(self)@ == old(self)@,
            },
    {
        self.sq.prep(
            IORING_OP_FSYNC,
            fd,
            0,
            0,
            0,
            0,
        )
    }

    /// Flushes the data of `fd` to storage.
    pub fn fdatasync(&mut self, fd: i32) -> (r: Option<&mut sqe<T>>)
        requires
            old(self).inv(),
        ensures
            final(self).inv(),
            r is None <==> old(self)@.sq.full(),
            match r {
                Some(entry) => old(self)@.prepped(
                    final(self)@,
                    *entry,
                    *final(entry),
                    IORING_OP_FSYNC,
                    fd,
                    0,
                    0,
                    0,
                    IORING_FSYNC_DATASYNC,
                ),
                None => final(self)@ == old(self)@,
            },
    {
        self.sq.prep(
            IORING_OP_FSYNC,
            fd,
            0,
            0,
            0,
            IORING_FSYNC_DATASYNC,
        )
    }

    /// Flushes `nbytes` bytes of `fd` from `offset` on to storage.
    pub fn sync_file_range(
        &mut self,
        fd: i32,
        offset: i64,
        nbytes: i64,
        flags: u32,
    ) -> (r: Option<&mut sqe<T>>)
        requires
            old(self).inv(),
        ensures
            final(self).inv(),
            r is None <==> old(self)@.sq.full(),
            match r {
                Some(entry) => old(self)@.prepped(
                    final(self)@,
                    *entry,
                    *final(entry),
                    IORING_OP_SYNC_FILE_RANGE,
                    fd,
                    0,
                    nbytes as u32,
                    offset as u64,
                    flags,
                ),
                None => final(self)@ == old(self)@,
            },
    {
        self.sq.prep(
            IORING_OP_SYNC_FILE_RANGE,
            fd,
            0,
            #[verifier::truncate]
            (nbytes as u32),
            #[verifier::truncate]
            (offset as u64),
            flags,
        )
    }

    /// Sends the message whose header is at address `msg` on `sockfd`.
    pub fn sendmsg(&mut self, sockfd: i32, msg: u64, flags: i32) -> (r: Option<&mut sqe<T>>)
        requires
            old(self).inv(),
        ensures
            final(self).inv(),
            r is None <==> old(self)@.sq.full(),
            match r {
                Some(entry) => old(self)@.prepped(
                    final(self)@,
                    *entry,
                    *final(entry),
                    IORING_OP_SENDMSG,
                    sockfd,
                    msg,
                    1,
                    0,
                    flags as u32,
                ),
                None => final(self)@ == old(self)@,
            },
    {
        self.sq.prep(
            IORING_OP_SENDMSG,
            sockfd,
            msg,
            1,
            0,
            #[verifier::truncate]
            (flags as u32),
        )
    }

    /// Receives a message on `sockfd` into the header at address `msg`.
    pub fn recvmsg(&mut self, sockfd: i32, msg: u64, flags: i32) -> (r: Option<&mut sqe<T>>)
        requires
            old(self).inv(),
        ensures
            final(self).inv(),
            r is None <==> old(self)@.sq.full(),
            match r {
                Some(entry) => old(self)@.prepped(
                    final(self)@,
                    *entry,
                    *final(entry),
                    IORING_OP_RECVMSG,
                    sockfd,
                    msg,
                    1,
                    0,
                    flags as u32,
                ),
                None => final(self)@ == old(self)@,
            },
    {
        self.sq.prep(
            IORING_OP_RECVMSG,
            sockfd,
            msg,
            1,
            0,
            #[verifier::truncate]
            (flags as u32),
        )
    }

    /// Accepts a connection on `sockfd`; the peer address goes to address `addr`, its
    /// length to address `addrlen`.
    pub fn accept4(
        &mut self,
        sockfd: i32,
        addr: u64,
        addrlen: u64,
        flags: i32,
    ) -> (r: Option<&mut sqe<T>>)
        requires
            old(self).inv(),
        ensures
            final(self).inv(),
            r is None <==> old(self)@.sq.full(),
            match r {
                Some(entry) => old(self)@.prepped(
                    final(self)@,
                    *entry,
                    *final(entry),
                    IORING_OP_ACCEPT,
                    sockfd,
                    addr,
                    0,
                    addrlen,
                    flags as u32,
                ),
                None => final(self)@ == old(self)@,
            },
    {
        self.sq.prep(
            IORING_OP_ACCEPT,
            sockfd,
            addr,
            0,
            addrlen,
            #[verifier::truncate]
            (flags as u32),
        )
    }

    /// Accepts like `accept4`, without flags.
    pub fn accept(&mut self, sockfd: i32, addr: u64, addrlen: u64) -> (r: Option<&mut sqe<T>>)
        requires
            old(self).inv(),
        ensures
            final(self).inv(),
            r is None <==> old(self)@.sq.full(),
            match r {
                Some(entry) => old(self)@.prepped(
                    final(self)@,
                    *entry,
                    *final(entry),
                    IORING_OP_ACCEPT,
                    sockfd,
                    addr,
                    0,
                    addrlen,
                    0,
                ),
                None => final(self)@ == old(self)@,
            },
    {
        self.accept4(sockfd, addr, addrlen, 0)
    }

    /// Connects `sockfd` to the address of `addrlen` bytes at address `addr`.
    pub fn connect(&mut self, sockfd: i32, addr: u64, addrlen: u32) -> (r: Option<&mut sqe<T>>)
        requires
            old(self).inv(),
        ensures
            final(self).inv(),
            r is None <==> old(self)@.sq.full(),
            match r {
                Some(entry) => old(self)@.prepped(
                    final(self)@,
                    *entry,
                    *final(entry),
                    IORING_OP_CONNECT,
                    sockfd,
                    addr,
                    0,
                    addrlen as u64,
                    0,
                ),
                None => final(self)@ == old(self)@,
            },
    {
        self.sq.prep(
            IORING_OP_CONNECT,
            sockfd,
            addr,
            0,
            addrlen as u64,
            0,
        )
    }

    /// Allocates `len` bytes of space for `fd` from `offset` on. The length travels in
    /// the address field.
    pub fn fallocate(
        &mut self,
        fd: i32,
        mode: i32,
        offset: i64,
        len: i64,
    ) -> (r: Option<&mut sqe<T>>)
        requires
            old(self).inv(),
        ensures
            final(self).inv(),
            r is None <==> old(self)@.sq.full(),
            match r {
                Some(entry) => old(self)@.prepped(
                    final(self)@,
                    *entry,
                    *final(entry),
                    IORING_OP_FALLOCATE,
                    fd,
                    len as u64,
                    mode as u32,
                    offset as u64,
                    0,
                ),
                None => final(self)@ == old(self)@,
            },
    {
        self.sq.prep(
            IORING_OP_FALLOCATE,
            fd,
            #[verifier::truncate]
            (len as u64),
            #[verifier::truncate]
            (mode as u32),
            #[verifier::truncate]
            (offset as u64),
            0,
        )
    }

    /// Opens the file named at address `pathname`, relative to `dirfd`.
    pub fn openat(
        &mut self,
        dirfd: i32,
        pathname: u64,
        flags: i32,
        mode: u32,
    ) -> (r: Option<&mut sqe<T>>)
        requires
            old(self).inv(),
        ensures
            final(self).inv(),
            r is None <==> old(self)@.sq.full(),
            match r {
                Some(entry) => old(self)@.prepped(
                    final(self)@,
                    *entry,
                    *final(entry),
                    IORING_OP_OPENAT,
                    dirfd,
                    pathname,
                    mode,
                    0,
                    flags as u32,
                ),
                None => final(self)@ == old(self)@,
            },
    {
        self.sq.prep(
            IORING_OP_OPENAT,
            dirfd,
            pathname,
            mode,
            0,
            #[verifier::truncate]
            (flags as u32),
        )
    }

    /// Closes `fd`.
    pub fn close(&mut self, fd: i32) -> (r: Option<&mut sqe<T>>)
        requires
            old(self).inv(),
        ensures
            final(self).inv(),
            r is None <==> old(self)@.sq.full(),
            match r {
                Some(entry) => old(self)@.prepped(
                    final(self)@,
                    *entry,
                    *final(entry),
                    IORING_OP_CLOSE,
                    fd,
                    0,
                    0,
                    0,
                    0,
                ),
                None => final(self)@ == old(self)@,
            },
    {
        self.sq.prep(
            IORING_OP_CLOSE,
            fd,
            0,
            0,
            0,
            0,
        )
    }

    /// Fetches the status of the file named at address `pathname`, relative to `dirfd`,
    /// into the buffer at address `statxbuf`.
    pub fn statx(
        &mut self,
        dirfd: i32,
        pathname: u64,
        flags: i32,
        mask: u32,
        statxbuf: u64,
    ) -> (r: Option<&mut sqe<T>>)
        requires
            old(self).inv(),
        ensures
            final(self).inv(),
            r is None <==> old(self)@.sq.full(),
            match r {
                Some(entry) => old(self)@.prepped(
                    final(self)@,
                    *entry,
                    *final(entry),
                    IORING_OP_STATX,
                    dirfd,
                    pathname,
                    mask,
                    statxbuf,
                    flags as u32,
                ),
                None => final(self)@ == old(self)@,
            },
    {
        self.sq.prep(
            IORING_OP_STATX,
            dirfd,
            pathname,
            mask,
            statxbuf,
            #[verifier::truncate]
            (flags as u32),
        )
    }

    /// Reads up to `count` bytes from `fd` into the buffer at address `buf`.
    pub fn read(&mut self, fd: i32, buf: u64, count: usize) -> (r: Option<&mut sqe<T>>)
        requires
            old(self).inv(),
        ensures
            final(self).inv(),
            r is None <==> old(self)@.sq.full(),
            match r {
                Some(entry) => old(self)@.prepped(
                    final(self)@,
                    *entry,
                    *final(entry),
                    IORING_OP_READ,
                    fd,
                    buf,
                    count as u32,
                    0,
                    0,
                ),
                None => final(self)@ == old(self)@,
            },
    {
        self.sq.prep(
            IORING_OP_READ,
            fd,
            buf,
            #[verifier::truncate]
            (count as u32),
            0,
            0,
        )
    }

    /// Writes up to `count` bytes to `fd` from the buffer at address `buf`.
    pub fn write(&mut self, fd: i32, buf: u64, count: usize) -> (r: Option<&mut sqe<T>>)
        requires
            old(self).inv(),
        ensures
            final(self).inv(),
            r is None <==> old(self)@.sq.full(),
            match r {
                Some(entry) => old(self)@.prepped(
                    final(self)@,
                    *entry,
                    *final(entry),
                    IORING_OP_WRITE,
                    fd,
                    buf,
                    count as u32,
                    0,
                    0,
                ),
                None => final(self)@ == old(self)@,
            },
    {
        self.sq.prep(
            IORING_OP_WRITE,
            fd,
            buf,
            #[verifier::truncate]
            (count as u32),
            0,
            0,
        )
    }

    /// Announces how `len` bytes of `fd` from `offset` on will be accessed.
    pub fn posix_fadvise(
        &mut self,
        fd: i32,
        offset: i64,
        len: i64,
        advice: i32,
    ) -> (r: Option<&mut sqe<T>>)
        requires
            old(self).inv(),
        ensures
            final(self).inv(),
            r is None <==> old(self)@.sq.full(),
            match r {
                Some(entry) => old(self)@.prepped(
                    final(self)@,
                    *entry,
                    *final(entry),
                    IORING_OP_FADVISE,
                    fd,
                    0,
                    len as u32,
                    offset as u64,
                    advice as u32,
                ),
                None => final(self)@ == old(self)@,
            },
    {
        self.sq.prep(
            IORING_OP_FADVISE,
            fd,
            0,
            #[verifier::truncate]
            (len as u32),
            #[verifier::truncate]
            (offset as u64),
            #[verifier::truncate]
            (advice as u32),
        )
    }

    /// Announces how the `length` bytes of memory at address `addr` will be used.
    pub fn madvise(&mut self, addr: u64, length: usize, advice: i32) -> (r: Option<&mut sqe<T>>)
        requires
            old(self).inv(),
        ensures
            final(self).inv(),
            r is None <==> old(self)@.sq.full(),
            match r {
                Some(entry) => old(self)@.prepped(
                    final(self)@,
                    *entry,
                    *final(entry),
                    IORING_OP_MADVISE,
                    -1i32,
                    addr,
                    length as u32,
                    0,
                    advice as u32,
                ),
                None => final(self)@ == old(self)@,
            },
    {
        self.sq.prep(
            IORING_OP_MADVISE,
            -1i32,
            addr,
            #[verifier::truncate]
            (length as u32),
            0,
            #[verifier::truncate]
            (advice as u32),
        )
    }

    /// Sends `len` bytes from the buffer at address `buf` on `sockfd`.
    pub fn send(
        &mut self,
        sockfd: i32,
        buf: u64,
        len: usize,
        flags: i32,
    ) -> (r: Option<&mut sqe<T>>)
        requires
            old(self).inv(),
        ensures
            final(self).inv(),
            r is None <==> old(self)@.sq.full(),
            match r {
                Some(entry) => old(self)@.prepped(
                    final(self)@,
                    *entry,
                    *final(entry),
                    IORING_OP_SEND,
                    sockfd,
                    buf,
                    len as u32,
                    0,
                    flags as u32,
                ),
                None => final(self)@ == old(self)@,
            },
    {
        self.sq.prep(
            IORING_OP_SEND,
            sockfd,
            buf,
            #[verifier::truncate]
            (len as u32),
            0,
            #[verifier::truncate]
            (flags as u32),
        )
    }

    /// Receives up to `len` bytes on `sockfd` into the buffer at address `buf`.
    pub fn recv(
        &mut self,
        sockfd: i32,
        buf: u64,
        len: usize,
        flags: i32,
    ) -> (r: Option<&mut sqe<T>>)
        requires
            old(self).inv(),
        ensures
            final(self).inv(),
            r is None <==> old(self)@.sq.full(),
            match r {
                Some(entry) => old(self)@.prepped(
                    final(self)@,
                    *entry,
                    *final(entry),
                    IORING_OP_RECV,
                    sockfd,
                    buf,
                    len as u32,
                    0,
                    flags as u32,
                ),
                None => final(self)@ == old(self)@,
            },
    {
        self.sq.prep(
            IORING_OP_RECV,
            sockfd,
            buf,
            #[verifier::truncate]
            (len as u32),
            0,
            #[verifier::truncate]
            (flags as u32),
        )
    }

    /// Opens the file named at address `pathname`, relative to `dirfd`; the entry is
    /// that of `openat`.
    pub fn openat2(
        &mut self,
        dirfd: i32,
        pathname: u64,
        flags: i32,
        mode: u32,
    ) -> (r: Option<&mut sqe<T>>)
        requires
            old(self).inv(),
        ensures
            final(self).inv(),
            r is None <==> old(self)@.sq.full(),
            match r {
                Some(entry) => old(self)@.prepped(
                    final(self)@,
                    *entry,
                    *final(entry),
                    IORING_OP_OPENAT,
                    dirfd,
                    pathname,
                    mode,
                    0,
                    flags as u32,
                ),
                None => final(self)@ == old(self)@,
            },
    {
        self.sq.prep(
            IORING_OP_OPENAT,
            dirfd,
            pathname,
            mode,
            0,
            #[verifier::truncate]
            (flags as u32),
        )
    }

    /// Applies `op` for `fd` to the epoll instance `epfd`, with the event at address
    /// `event`.
    pub fn epoll_ctl(&mut self, epfd: i32, op: i32, fd: i32, event: u64) -> (r: Option<&mut sqe<T>>)
        requires
            old(self).inv(),
        ensures
            final(self).inv(),
            r is None <==> old(self)@.sq.full(),
            match r {
                Some(entry) => old(self)@.prepped(
                    final(self)@,
                    *entry,
                    *final(entry),
                    IORING_OP_EPOLL_CTL,
                    epfd,
                    event,
                    op as u32,
                    fd as u64,
                    0,
                ),
                None => final(self)@ == old(self)@,
            },
    {
        self.sq.prep(
            IORING_OP_EPOLL_CTL,
            epfd,
            event,
            #[verifier::truncate]
            (op as u32),
            #[verifier::truncate]
            (fd as u64),
            0,
        )
    }

    /// Moves `len` bytes from `fd_in` to `fd_out`; the offsets are read from addresses
    /// `off_in` and `off_out`. The source descriptor travels in the file-select field.
    pub fn splice(
        &mut self,
        fd_in: i32,
        off_in: u64,
        fd_out: i32,
        off_out: u64,
        len: usize,
        flags: u32,
    ) -> (r: Option<&mut sqe<T>>)
        requires
            old(self).inv(),
        ensures
            final(self).inv(),
            r is None <==> old(self)@.sq.full(),
            match r {
                Some(entry) => {
                    &&& entry.file_select == fd_in as u32
                    &&& old(self)@.prepped(
                        final(self)@,
                        (sqe { file_select: 0, ..*entry }),
                        *final(entry),
                        IORING_OP_SPLICE,
                        fd_out,
                        off_in,
                        len as u32,
                        off_out,
                        flags,
                    )
                },
                None => final(self)@ == old(self)@,
            },
    {
        match self.sq.prep(
            IORING_OP_SPLICE,
            fd_out,
            off_in,
            #[verifier::truncate]
            (len as u32),
            off_out,
            flags,
        ) {
            Some(entry) => {
                entry.file_select = #[verifier::truncate]
                (fd_in as u32);
                Some(entry)
            },
            None => None,
        }
    }

    /// Copies `len` bytes from `fd_in` to `fd_out` without consuming them. The source
    /// descriptor travels in the file-select field.
    pub fn tee(
        &mut self,
        fd_in: i32,
        fd_out: i32,
        len: usize,
        flags: u32,
    ) -> (r: Option<&mut sqe<T>>)
        requires
            old(self).inv(),
        ensures
            final(self).inv(),
            r is None <==> old(self)@.sq.full(),
            match r {
                Some(entry) => {
                    &&& entry.file_select == fd_in as u32
                    &&& old(self)@.prepped(
                        final(self)@,
                        (sqe { file_select: 0, ..*entry }),
                        *final(entry),
                        IORING_OP_TEE,
                        fd_out,
                        0,
                        len as u32,
                        0,
                        flags,
                    )
                },
                None => final(self)@ == old(self)@,
            },
    {
        match self.sq.prep(
            IORING_OP_TEE,
            fd_out,
            0,
            #[verifier::truncate]
            (len as u32),
            0,
            flags,
        ) {
            Some(entry) => {
                entry.file_select = #[verifier::truncate]
                (fd_in as u32);
                Some(entry)
            },
            None => None,
        }
    }

    /// Shuts down one or both directions of `socket`.
    pub fn shutdown(&mut self, socket: i32, how: i32) -> (r: Option<&mut sqe<T>>)
        requires
            old(self).inv(),
        ensures
            final(self).inv(),
            r is None <==> old(self)@.sq.full(),
            match r {
                Some(entry) => old(self)@.prepped(
                    final(self)@,
                    *entry,
                    *final(entry),
                    IORING_OP_SHUTDOWN,
                    socket,
                    0,
                    how as u32,
                    0,
                    0,
                ),
                None => final(self)@ == old(self)@,
            },
    {
        self.sq.prep(
            IORING_OP_SHUTDOWN,
            socket,
            0,
            #[verifier::truncate]
            (how as u32),
            0,
            0,
        )
    }

    /// Renames the file named at address `oldpath`, relative to `olddirfd`, to the
    /// name at address `newpath`, relative to `newdirfd`.
    pub fn renameat(
        &mut self,
        olddirfd: i32,
        oldpath: u64,
        newdirfd: i32,
        newpath: u64,
    ) -> (r: Option<&mut sqe<T>>)
        requires
            old(self).inv(),
        ensures
            final(self).inv(),
            r is None <==> old(self)@.sq.full(),
            match r {
                Some(entry) => old(self)@.prepped(
                    final(self)@,
                    *entry,
                    *final(entry),
                    IORING_OP_RENAMEAT,
                    olddirfd,
                    oldpath,
                    newdirfd as u32,
                    newpath,
                    0,
                ),
                None => final(self)@ == old(self)@,
            },
    {
        self.sq.prep(
            IORING_OP_RENAMEAT,
            olddirfd,
            oldpath,
            #[verifier::truncate]
            (newdirfd as u32),
            newpath,
            0,
        )
    }

    /// Removes the name at address `pathname`, relative to `dirfd`.
    pub fn unlinkat(&mut self, dirfd: i32, pathname: u64, flags: i32) -> (r: Option<&mut sqe<T>>)
        requires
            old(self).inv(),
        ensures
            final(self).inv(),
            r is None <==> old(self)@.sq.full(),
            match r {
                Some(entry) => old(self)@.prepped(
                    final(self)@,
                    *entry,
                    *final(entry),
                    IORING_OP_UNLINKAT,
                    dirfd,
                    pathname,
                    0,
                    0,
                    flags as u32,
                ),
                None => final(self)@ == old(self)@,
            },
    {
        self.sq.prep(
            IORING_OP_UNLINKAT,
            dirfd,
            pathname,
            0,
            0,
            #[verifier::truncate]
            (flags as u32),
        )
    }

    /// Creates the directory named at address `pathname`, relative to `dirfd`.
    pub fn mkdirat(&mut self, dirfd: i32, pathname: u64, mode: u32) -> (r: Option<&mut sqe<T>>)
        requires
            old(self).inv(),
        ensures
            final(self).inv(),
            r is None <==> old(self)@.sq.full(),
            match r {
                Some(entry) => old(self)@.prepped(
                    final(self)@,
                    *entry,
                    *final(entry),
                    IORING_OP_MKDIRAT,
                    dirfd,
                    pathname,
                    mode,
                    0,
                    0,
                ),
                None => final(self)@ == old(self)@,
            },
    {
        self.sq.prep(
            IORING_OP_MKDIRAT,
            dirfd,
            pathname,
            mode,
            0,
            0,
        )
    }

    /// Creates a symbolic link named at address `newpath`, relative to `newdirfd`, to
    /// the name at address `oldpath`.
    pub fn symlinkat(
        &mut self,
        oldpath: u64,
        newdirfd: i32,
        newpath: u64,
    ) -> (r: Option<&mut sqe<T>>)
        requires
            old(self).inv(),
        ensures
            final(self).inv(),
            r is None <==> old(self)@.sq.full(),
            match r {
                Some(entry) => old(self)@.prepped(
                    final(self)@,
                    *entry,
                    *final(entry),
                    IORING_OP_SYMLINKAT,
                    newdirfd,
                    oldpath,
                    0,
                    newpath,
                    0,
                ),
                None => final(self)@ == old(self)@,
            },
    {
        self.sq.prep(
            IORING_OP_SYMLINKAT,
            newdirfd,
            oldpath,
            0,
            newpath,
            0,
        )
    }

    /// Creates a link named at address `newpath`, relative to `newdirfd`, to the file
    /// named at address `oldpath`, relative to `olddirfd`.
    pub fn linkat(
        &mut self,
        olddirfd: i32,
        oldpath: u64,
        newdirfd: i32,
        newpath: u64,
        flags: i32,
    ) -> (r: Option<&mut sqe<T>>)
        requires
            old(self).inv(),
        ensures
            final(self).inv(),
            r is None <==> old(self)@.sq.full(),
            match r {
                Some(entry) => old(self)@.prepped(
                    final(self)@,
                    *entry,
                    *final(entry),
                    IORING_OP_LINKAT,
                    olddirfd,
                    oldpath,
                    newdirfd as u32,
                    newpath,
                    flags as u32,
                ),
                None => final(self)@ == old(self)@,
            },
    {
        self.sq.prep(
            IORING_OP_LINKAT,
            olddirfd,
            oldpath,
            #[verifier::truncate]
            (newdirfd as u32),
            newpath,
            #[verifier::truncate]
            (flags as u32),
        )
    }

    /// Sets the extended attribute of `fd` named at address `name` to the `size` bytes
    /// at address `value`.
    pub fn fsetxattr(
        &mut self,
        fd: i32,
        name: u64,
        value: u64,
        size: usize,
        flags: i32,
    ) -> (r: Option<&mut sqe<T>>)
        requires
            old(self).inv(),
        ensures
            final(self).inv(),
            r is None <==> old(self)@.sq.full(),
            match r {
                Some(entry) => old(self)@.prepped(
                    final(self)@,
                    *entry,
                    *final(entry),
                    IORING_OP_FSETXATTR,
                    fd,
                    name,
                    size as u32,
                    value,
                    flags as u32,
                ),
                None => final(self)@ == old(self)@,
            },
    {
        self.sq.prep(
            IORING_OP_FSETXATTR,
            fd,
            name,
            #[verifier::truncate]
            (size as u32),
            value,
            #[verifier::truncate]
            (flags as u32),
        )
    }

    /// Reads the extended attribute of `fd` named at address `name` into the `size`
    /// bytes at address `value`.
    pub fn fgetxattr(
        &mut self,
        fd: i32,
        name: u64,
        value: u64,
        size: usize,
    ) -> (r: Option<&mut sqe<T>>)
        requires
            old(self).inv(),
        ensures
            final(self).inv(),
            r is None <==> old(self)@.sq.full(),
            match r {
                Some(entry) => old(self)@.prepped(
                    final(self)@,
                    *entry,
                    *final(entry),
                    IORING_OP_FGETXATTR,
                    fd,
                    name,
                    size as u32,
                    value,
                    0,
                ),
                None => final(self)@ == old(self)@,
            },
    {
        self.sq.prep(
            IORING_OP_FGETXATTR,
            fd,
            name,
            #[verifier::truncate]
            (size as u32),
            value,
            0,
        )
    }

    /// Creates a socket.
    pub fn socket(&mut self, domain: i32, sock_type: i32, protocol: i32) -> (r: Option<&mut sqe<T>>)
        requires
            old(self).inv(),
        ensures
            final(self).inv(),
            r is None <==> old(self)@.sq.full(),
            match r {
                Some(entry) => old(self)@.prepped(
                    final(self)@,
                    *entry,
                    *final(entry),
                    IORING_OP_SOCKET,
                    domain,
                    0,
                    protocol as u32,
                    sock_type as u64,
                    0,
                ),
                None => final(self)@ == old(self)@,
            },
    {
        self.sq.prep(
            IORING_OP_SOCKET,
            domain,
            0,
            #[verifier::truncate]
            (protocol as u32),
            #[verifier::truncate]
            (sock_type as u64),
            0,
        )
    }

    /// Opens like `openat`, relative to the working directory.
    pub fn open(&mut self, pathname: u64, flags: i32, mode: u32) -> (r: Option<&mut sqe<T>>)
        requires
            old(self).inv(),
        ensures
            final(self).inv(),
            r is None <==> old(self)@.sq.full(),
            match r {
                Some(entry) => old(self)@.prepped(
                    final(self)@,
                    *entry,
                    *final(entry),
                    IORING_OP_OPENAT,
                    entry.fd,
                    pathname,
                    mode,
                    0,
                    flags as u32,
                ),
                None => final(self)@ == old(self)@,
            },
    {
        self.openat(at_fdcwd(), pathname, flags, mode)
    }

    /// Opens like `open`, with the three given open flags together: the
    /// platform's flags for creating the file if need be, for writing only,
    /// and for emptying the file.
    pub fn creat_with(
        &mut self,
        pathname: u64,
        mode: u32,
        create: i32,
        write_only: i32,
        truncate: i32,
    ) -> (r: Option<&mut sqe<T>>)
        requires
            old(self).inv(),
        ensures
            final(self).inv(),
            r is None <==> old(self)@.sq.full(),
            match r {
                Some(entry) => old(self)@.prepped(
                    final(self)@,
                    *entry,
                    *final(entry),
                    IORING_OP_OPENAT,
                    entry.fd,
                    pathname,
                    mode,
                    0,
                    (create | write_only | truncate) as u32,
                ),
                None => final(self)@ == old(self)@,
            },
    {
        self.open(pathname, create | write_only | truncate, mode)
    }

    /// Opens like `open`, creating the file if need be, for writing only and
    /// emptied: `creat_with` on the flags that libc names `O_CREAT`,
    /// `O_WRONLY` and `O_TRUNC`.
    pub fn creat(&mut self, pathname: u64, mode: u32) -> (r: Option<&mut sqe<T>>)
        requires
            old(self).inv(),
        ensures
            final(self).inv(),
            r is None <==> old(self)@.sq.full(),
            match r {
                Some(entry) => old(self)@.prepped(
                    final(self)@,
                    *entry,
                    *final(entry),
                    IORING_OP_OPENAT,
                    entry.fd,
                    pathname,
                    mode,
                    0,
                    entry.op_flags,
                ),
                None => final(self)@ == old(self)@,
            },
    {
        self.creat_with(pathname, mode, open_create(), open_write_only(), open_truncate())
    }

    /// Renames like `renameat`, both names relative to the working
    /// directory.
    pub fn rename(&mut self, oldpath: u64, newpath: u64) -> (r: Option<&mut sqe<T>>)
        requires
            old(self).inv(),
        ensures
            final(self).inv(),
            r is None <==> old(self)@.sq.full(),
            match r {
                Some(entry) => {
                    &&& entry.len == entry.fd as u32
                    &&& old(self)@.prepped(
                        final(self)@,
                        *entry,
                        *final(entry),
                        IORING_OP_RENAMEAT,
                        entry.fd,
                        oldpath,
                        entry.len,
                        newpath,
                        0,
                    )
                },
                None => final(self)@ == old(self)@,
            },
    {
        let cwd = at_fdcwd();
        self.renameat(cwd, oldpath, cwd, newpath)
    }

    /// Removes a name like `unlinkat`, relative to the working directory and
    /// without flags.
    pub fn unlink(&mut self, pathname: u64) -> (r: Option<&mut sqe<T>>)
        requires
            old(self).inv(),
        ensures
            final(self).inv(),
            r is None <==> old(self)@.sq.full(),
            match r {
                Some(entry) => old(self)@.prepped(
                    final(self)@,
                    *entry,
                    *final(entry),
                    IORING_OP_UNLINKAT,
                    entry.fd,
                    pathname,
                    0,
                    0,
                    0,
                ),
                None => final(self)@ == old(self)@,
            },
    {
        self.unlinkat(at_fdcwd(), pathname, 0)
    }

    /// Creates a directory like `mkdirat`, relative to the working
    /// directory.
    pub fn mkdir(&mut self, path: u64, mode: u32) -> (r: Option<&mut sqe<T>>)
        requires
            old(self).inv(),
        ensures
            final(self).inv(),
            r is None <==> old(self)@.sq.full(),
            match r {
                Some(entry) => old(self)@.prepped(
                    final(self)@,
                    *entry,
                    *final(entry),
                    IORING_OP_MKDIRAT,
                    entry.fd,
                    path,
                    mode,
                    0,
                    0,
                ),
                None => final(self)@ == old(self)@,
            },
    {
        self.mkdirat(at_fdcwd(), path, mode)
    }

    /// Creates a symbolic link like `symlinkat`, the new name relative to
    /// the working directory.
    pub fn symlink(&mut self, path1: u64, path2: u64) -> (r: Option<&mut sqe<T>>)
        requires
            old(self).inv(),
        ensures
            final(self).inv(),
            r is None <==> old(self)@.sq.full(),
            match r {
                Some(entry) => old(self)@.prepped(
                    final(self)@,
                    *entry,
                    *final(entry),
                    IORING_OP_SYMLINKAT,
                    entry.fd,
                    path1,
                    0,
                    path2,
                    0,
                ),
                None => final(self)@ == old(self)@,
            },
    {
        self.symlinkat(path1, at_fdcwd(), path2)
    }

    /// Creates a link like `linkat`, both names relative to the working
    /// directory and without flags.
    pub fn link(&mut self, path1: u64, path2: u64) -> (r: Option<&mut sqe<T>>)
        requires
            old(self).inv(),
        ensures
            final(self).inv(),
            r is None <==> old(self)@.sq.full(),
            match r {
                Some(entry) => {
                    &&& entry.len == entry.fd as u32
                    &&& old(self)@.prepped(
                        final(self)@,
                        *entry,
                        *final(entry),
                        IORING_OP_LINKAT,
                        entry.fd,
                        path1,
                        entry.len,
                        path2,
                        0,
                    )
                },
                None => final(self)@ == old(self)@,
            },
    {
        let cwd = at_fdcwd();
        self.linkat(cwd, path1, cwd, path2, 0)
    }
}

/// Operations that only the ring has. On these, and on the builders that go
/// through `libc::AT_FDCWD`, the directory descriptor in the entry is the one
/// that constant names.
impl<T: Payload, U: Payload> Ring<T, U> {
    /// Does nothing but complete.
    pub fn nop(&mut self) -> (r: Option<&mut sqe<T>>)
        requires
            old(self).inv(),
        ensures
            final(self).inv(),
            r is None <==> old(self)@.sq.full(),
            match r {
                Some(entry) => old(self)@.prepped(
                    final(self)@,
                    *entry,
                    *final(entry),
                    IORING_OP_NOP,
                    -1i32,
                    0,
                    0,
                    0,
                    0,
                ),
                None => final(self)@ == old(self)@,
            },
    {
        self.sq.prep(
            IORING_OP_NOP,
            -1i32,
            0,
            0,
            0,
            0,
        )
    }
}

} // verus!
