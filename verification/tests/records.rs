use rsring::io_uring::constants::{
    IORING_OP_ACCEPT, IORING_OP_NOP, IORING_OP_POLL_ADD, IORING_OP_READ, IORING_OP_RECV,
    IORING_OP_RECVMSG, IORING_OP_SEND, IORING_OP_SENDMSG, IORING_OP_SENDMSG_ZC, IORING_OP_SEND_ZC,
};
use rsring::io_uring::definitions::{
    __kernel_timespec, cqe, cqring_offsets, getevents_arg, params, sqe, sqring_offsets, Payload,
};
use rsring::io_uring::enums::{
    ACCEPT, ASYNC_CANCEL, CMD, CQ, CQE, CQE_F, ENTER, FEAT, FSYNC, IOPRIO, IO_WQ, MSG, MSG_RING,
    NOTIF, OFF, OP, POLL, REGISTER, RESTRICTION, SETUP, SPLICE, SQ, SQE_FLAGS, TIMEOUT,
};
use rsring::io_uring::functions::{NSIG, SIGMASK_SIZE};

fn entry(opcode: u32) -> sqe<[u64; 2]> {
    let mut e = sqe::<[u64; 2]>::blank();
    e.opcode = opcode as u8;
    e
}

#[test]
fn milliseconds_split_into_seconds_and_nanoseconds() {
    let t = __kernel_timespec::from_ms(50);
    assert_eq!((t.tv_sec, t.tv_nsec), (0, 50_000_000));
    let t = __kernel_timespec::from_ms(1500);
    assert_eq!((t.tv_sec, t.tv_nsec), (1, 500_000_000));
    let t = __kernel_timespec::from_ms(0);
    assert_eq!((t.tv_sec, t.tv_nsec), (0, 0));
    let t = __kernel_timespec::from_ms(999);
    assert_eq!((t.tv_sec, t.tv_nsec), (0, 999_000_000));
    let t = __kernel_timespec::from_ms(60_000);
    assert_eq!((t.tv_sec, t.tv_nsec), (60, 0));
    let t = __kernel_timespec::from_ms(-1500);
    assert_eq!((t.tv_sec, t.tv_nsec), (-1, -500_000_000));
    let t = __kernel_timespec::from_ms(i64::MAX);
    assert_eq!((t.tv_sec, t.tv_nsec), (9_223_372_036_854_775, 807_000_000));
    let t = __kernel_timespec::from_ms(i64::MIN);
    assert_eq!((t.tv_sec, t.tv_nsec), (-9_223_372_036_854_775, -808_000_000));
}

#[test]
fn payloads_are_cleared() {
    assert_eq!(<[u64; 2] as Payload>::zeroed(), [0u64; 2]);
    assert_eq!(<[u8; 80] as Payload>::zeroed(), [0u8; 80]);
    assert_eq!(<[u8; 16] as Payload>::zeroed(), [0u8; 16]);
    assert_eq!(<[u8; 0] as Payload>::zeroed(), [0u8; 0]);
    let blank = sqe::<[u8; 80]>::blank();
    assert_eq!(blank.opcode, 0);
    assert_eq!(blank.fd, 0);
    assert_eq!(blank.user_data, 0);
    assert_eq!(blank.addr3, [0u8; 80]);
    let done = cqe::<[u8; 16]>::blank();
    assert_eq!((done.user_data, done.res, done.flags, done.big_cqe), (0, 0, 0, [0u8; 16]));
}

#[test]
fn user_tag_is_set_and_read() {
    let mut e = entry(IORING_OP_NOP);
    e.set_data_u64(0xdead_beef_0000_0001);
    assert_eq!(e.user_data, 0xdead_beef_0000_0001);
    e.set_data_ptr(0x1000);
    assert_eq!(e.user_data, 0x1000);
    assert_eq!(e.opcode, 0);
    let c = cqe { user_data: 0x1234_5678, res: 1, flags: 0, big_cqe: [0u8; 0] };
    assert_eq!(c.get_data_u64(), 0x1234_5678);
    assert_eq!(c.get_data_ptr(), 0x1234_5678);
}

#[test]
fn link_bits_are_added() {
    let mut e = entry(IORING_OP_READ);
    e.flags = 0x01;
    e.link();
    assert_eq!(e.flags, 0x05);
    e.hardlink();
    assert_eq!(e.flags, 0x0d);
    e.link().hardlink().set_data_u64(3);
    assert_eq!(e.flags, 0x0d);
    assert_eq!(e.user_data, 3);
    assert_eq!(e.opcode, 22);
}

#[test]
fn direct_stores_the_index_plus_one() {
    let mut e = entry(IORING_OP_ACCEPT);
    e.direct(0);
    assert_eq!(e.file_select, 1);
    e.direct(41);
    assert_eq!(e.file_select, 42);
    e.direct(u32::MAX - 1);
    assert_eq!(e.file_select, u32::MAX);
}

#[test]
fn multishot_sets_the_bit_of_the_operation() {
    for (op, bit) in [
        (IORING_OP_RECVMSG, 2u16),
        (IORING_OP_POLL_ADD, 1),
        (IORING_OP_ACCEPT, 1),
        (IORING_OP_RECV, 2),
        (IORING_OP_READ, 0),
        (IORING_OP_SEND, 0),
        (IORING_OP_NOP, 0),
    ] {
        let mut e = entry(op);
        e.ioprio = 0x10;
        e.multishot();
        assert_eq!(e.ioprio, 0x10 | bit);
        assert_eq!(e.opcode as u32, op);
    }
}

#[test]
fn zerocopy_switches_the_operation() {
    let mut e = entry(IORING_OP_SEND);
    e.ioprio = 0x1;
    e.zerocopy(0x8);
    assert_eq!(e.ioprio, 0x9);
    assert_eq!(e.opcode as u32, IORING_OP_SEND_ZC);

    let mut e = entry(IORING_OP_SENDMSG);
    e.zerocopy(0x4);
    assert_eq!(e.ioprio, 0x4);
    assert_eq!(e.opcode as u32, IORING_OP_SENDMSG_ZC);

    let mut e = entry(IORING_OP_RECV);
    e.ioprio = 0x2;
    e.zerocopy(0x8);
    assert_eq!(e.ioprio, 0x2);
    assert_eq!(e.opcode as u32, IORING_OP_RECV);
}

#[test]
fn new_params_carry_only_the_flags() {
    let p = params::new(0x482);
    assert_eq!(p.flags, 0x482);
    assert_eq!(p.sq_entries, 0);
    assert_eq!(p.cq_entries, 0);
    assert_eq!(p.sq_thread_cpu, 0);
    assert_eq!(p.sq_thread_idle, 0);
    assert_eq!(p.features, 0);
    assert_eq!(p.wd_fd, 0);
    assert_eq!(p.resv, [0, 0, 0]);
    assert_eq!(p.sq_off.head, 0);
    assert_eq!(p.sq_off.array, 0);
    assert_eq!(p.sq_off.resv2, 0);
    assert_eq!(p.cq_off.cqes, 0);
    assert_eq!(p.cq_off.overflow, 0);
    let s = sqring_offsets::default();
    assert_eq!((s.head, s.tail, s.ring_mask, s.ring_entries, s.flags, s.dropped), (0, 0, 0, 0, 0, 0));
    let c = cqring_offsets::default();
    assert_eq!((c.head, c.tail, c.ring_mask, c.ring_entries, c.flags, c.cqes), (0, 0, 0, 0, 0, 0));
}

#[test]
fn extended_argument_carries_both_addresses() {
    let a = getevents_arg::new(0x1000, 0x2000);
    assert_eq!(a.sigmask, 0x1000);
    assert_eq!(a.sigmask_sz, 8);
    assert_eq!(a.pad, 0);
    assert_eq!(a.ts, 0x2000);
    assert_eq!(NSIG, 64);
    assert_eq!(SIGMASK_SIZE, NSIG / 8);
}

#[test]
fn flag_enumerations_have_their_bits() {
    assert_eq!(SQE_FLAGS::FIXED_FILE.value(), 1);
    assert_eq!(SQE_FLAGS::IO_HARDLINK.value(), 8);
    assert_eq!(SQE_FLAGS::ASYNC.value(), 16);
    assert_eq!(SQE_FLAGS::SKIP_SUCCESS.value(), 64);
    assert_eq!(SETUP::IOPOLL.value(), 1);
    assert_eq!(SETUP::SQPOLL.value(), 2);
    assert_eq!(SETUP::SQE128.value(), 1 << 10);
    assert_eq!(SETUP::CQE32.value(), 1 << 11);
    assert_eq!(SETUP::DEFER_TASKRUN.value(), 1 << 13);
    assert_eq!(CMD::FIXED.value(), 1);
    assert_eq!(FSYNC::DATASYNC.value(), 1);
    assert_eq!(TIMEOUT::ABS.value(), 1);
    assert_eq!(TIMEOUT::ETIME_SUCCESS.value(), 32);
    assert_eq!(TIMEOUT::CLOCK_MASK.value(), TIMEOUT::BOOTTIME.value() | TIMEOUT::REALTIME.value());
    assert_eq!(
        TIMEOUT::UPDATE_MASK.value(),
        TIMEOUT::UPDATE.value() | TIMEOUT::LINK_TIMEOUT_UPDATE.value()
    );
    assert_eq!(SPLICE::F_FD_IN_FIXED.value(), 1 << 31);
    assert_eq!(POLL::ADD_LEVEL.value(), 8);
    assert_eq!(ASYNC_CANCEL::ANY.value(), 4);
    assert_eq!(IOPRIO::RECV_MULTISHOT.value(), 2);
    assert_eq!(NOTIF::USAGE_ZC_COPIED.value(), 1 << 31);
    assert_eq!(ACCEPT::MULTISHOT.value(), 1);
    assert_eq!(MSG_RING::CQE_SKIP.value(), 1);
    assert_eq!(CQE_F::NOTIF.value(), 8);
    assert_eq!(CQE::BUFFER_SHIFT.value(), 16);
    assert_eq!(SQ::NEED_WAKEUP.value(), 1);
    assert_eq!(SQ::OVERFLOW.value(), 2);
    assert_eq!(SQ::TASKRUN.value(), 4);
    assert_eq!(CQ::EVENTFD_DISABLED.value(), 1);
    assert_eq!(ENTER::GET_EVENTS.value(), 1);
    assert_eq!(ENTER::EXT_ARG.value(), 8);
    assert_eq!(ENTER::REGISTERED_RING.value(), 16);
    assert_eq!(FEAT::SINGLE_MMAP.value(), 1);
    assert_eq!(FEAT::EXT_ARG.value(), 1 << 8);
    assert_eq!(FEAT::LINKED_FILE.value(), 1 << 12);
}

#[test]
fn code_enumerations_have_their_numbers() {
    assert_eq!(OP::NOP.value(), 0);
    assert_eq!(OP::READV.value(), 1);
    assert_eq!(OP::TIMEOUT.value(), 11);
    assert_eq!(OP::READ.value(), 22);
    assert_eq!(OP::SOCKET.value(), 45);
    assert_eq!(OP::SENDMSG_ZC.value(), 48);
    assert_eq!(OP::LAST.value(), 49);
    assert_eq!(MSG::DATA.value(), 0);
    assert_eq!(MSG::SEND_FD.value(), 1);
    assert_eq!(OFF::SQ_RING.value(), 0);
    assert_eq!(OFF::CQ_RING.value(), 0x0800_0000);
    assert_eq!(OFF::SQES.value(), 0x1000_0000);
    assert_eq!(REGISTER::REGISTER_BUFFERS.value(), 0);
    assert_eq!(REGISTER::REGISTER_PROBE.value(), 8);
    assert_eq!(REGISTER::REGISTER_FILE_ALLOC_RANGE.value(), 25);
    assert_eq!(REGISTER::REGISTER_LAST.value(), 26);
    assert_eq!(IO_WQ::BOUND.value(), 0);
    assert_eq!(IO_WQ::UNBOUND.value(), 1);
    assert_eq!(RESTRICTION::REGISTER_OP.value(), 0);
    assert_eq!(RESTRICTION::SQE_FLAGS_REQUIRED.value(), 3);
    assert_eq!(RESTRICTION::LAST.value(), 4);
}
