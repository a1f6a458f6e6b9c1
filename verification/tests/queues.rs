use rsring::cqueue::{CQueue, UDATA_TIMEOUT};
use rsring::error::RingError;
use rsring::index::{check_geometry, distance, slot, MAX_ENTRIES};
use rsring::io_uring::constants::{
    IORING_FEAT_EXT_ARG, IORING_OP_NOP, IORING_OP_READ, IORING_SETUP_CQE32, IORING_SETUP_SQE128,
    IORING_SETUP_SQPOLL, IORING_SQ_CQ_OVERFLOW, IORING_SQ_NEED_WAKEUP, IORING_SQ_TASKRUN,
};
use rsring::io_uring::definitions::{cqe, params};
use rsring::squeue::{SQueue, StoreOrder};

fn setup(entries: u32, flags: u32, features: u32) -> params {
    let mut p = params::new(flags);
    p.sq_entries = entries;
    p.cq_entries = entries * 2;
    p.features = features;
    p
}

fn narrow_sq(entries: u32, flags: u32) -> SQueue<[u64; 2]> {
    SQueue::new(&setup(entries, flags, 0), entries - 1, entries).unwrap()
}

fn narrow_cq(entries: u32, features: u32) -> CQueue<[u8; 0]> {
    CQueue::new(&setup(entries, 0, features), entries - 1, entries).unwrap()
}

fn completion(user_data: u64, res: i32, flags: u32) -> cqe<[u8; 0]> {
    cqe { user_data, res, flags, big_cqe: [] }
}

#[test]
fn distance_counts_entries_across_the_wrap() {
    assert_eq!(distance(5, 2), 3);
    assert_eq!(distance(7, 7), 0);
    assert_eq!(distance(2, u32::MAX - 1), 4);
    assert_eq!(distance(0, u32::MAX), 1);
    assert_eq!(distance(u32::MAX, u32::MAX - 31), 31);
    assert_eq!(distance(15, u32::MAX - 16), 32);
}

#[test]
fn slot_masks_and_doubles() {
    assert_eq!(slot(0, 31, false), 0);
    assert_eq!(slot(33, 31, false), 1);
    assert_eq!(slot(u32::MAX, 31, false), 31);
    assert_eq!(slot(33, 31, true), 2);
    assert_eq!(slot(u32::MAX, 31, true), 62);
    assert_eq!(slot(u32::MAX, MAX_ENTRIES - 1, true), 0x7fff_fffe);
}

#[test]
fn geometry_wants_a_power_of_two_and_its_mask() {
    assert!(check_geometry(1, 0));
    assert!(check_geometry(32, 31));
    assert!(check_geometry(MAX_ENTRIES, MAX_ENTRIES - 1));
    assert!(!check_geometry(0, 0));
    assert!(!check_geometry(0, u32::MAX));
    assert!(!check_geometry(24, 23));
    assert!(!check_geometry(32, 32));
    assert!(!check_geometry(32, 15));
    assert!(!check_geometry(0x8000_0000, 0x7fff_ffff));
}

#[test]
fn queues_refuse_bad_geometry() {
    let p = setup(32, 0, 0);
    assert_eq!(SQueue::<[u64; 2]>::new(&p, 30, 32).err(), Some(RingError::Invalid));
    assert_eq!(SQueue::<[u64; 2]>::new(&p, 23, 24).err(), Some(RingError::Invalid));
    assert_eq!(CQueue::<[u8; 0]>::new(&p, 63, 63).err(), Some(RingError::Invalid));
    assert_eq!(CQueue::<[u8; 0]>::new(&p, 0, 0).err(), Some(RingError::Invalid));
    assert!(SQueue::<[u64; 2]>::new(&p, 31, 32).is_ok());
    assert!(CQueue::<[u8; 0]>::new(&p, 63, 64).is_ok());
}

#[test]
fn fresh_submission_queue_is_empty_and_blank() {
    let sq = narrow_sq(8, 0);
    assert_eq!(sq.head(), 0);
    assert_eq!(sq.tail(), 0);
    assert_eq!(sq.sqe_head(), 0);
    assert_eq!(sq.sqe_tail(), 0);
    assert_eq!(sq.flags(), 0);
    assert_eq!(sq.dropped(), 0);
    assert_eq!(sq.ring_mask(), 7);
    assert_eq!(sq.ring_entries(), 8);
    assert_eq!(sq.size(), 8 * 64);
    assert!(!sq.wide());
    assert!(!sq.sqpoll());
    for i in 0..8 {
        assert_eq!(sq.array_at(i), Some(i as u32));
        let e = sq.entry(i).unwrap();
        assert_eq!(e.opcode, 0);
        assert_eq!(e.user_data, 0);
        assert_eq!(e.addr3, [0, 0]);
    }
    assert_eq!(sq.array_at(8), None);
    assert!(sq.entry(8).is_none());
}

#[test]
fn wide_submission_queue_has_two_slots_per_entry() {
    let mut sq: SQueue<[u8; 80]> =
        SQueue::new(&setup(4, IORING_SETUP_SQE128, 0), 3, 4).unwrap();
    assert!(sq.wide());
    assert_eq!(sq.size(), 4 * 128);
    assert!(sq.entry(7).is_some());
    assert!(sq.entry(8).is_none());
    assert_eq!(sq.slot_of(0), 0);
    assert_eq!(sq.slot_of(1), 2);
    assert_eq!(sq.slot_of(3), 6);
    assert_eq!(sq.slot_of(4), 0);
    for tag in 0..4u64 {
        sq.next().unwrap().user_data = 100 + tag;
    }
    assert!(sq.next().is_none());
    for index in 0..4u32 {
        assert_eq!(sq.entry(sq.slot_of(index)).unwrap().user_data, 100 + index as u64);
    }
    assert_eq!(sq.entry(1).unwrap().user_data, 0);
}

#[test]
fn allocation_cycles_up_to_capacity() {
    let mut sq = narrow_sq(32, 0);
    for n in 1..=32u32 {
        assert!(sq.next().is_some());
        assert_eq!(sq.flush(), n);
        assert_eq!(sq.sqe_tail(), n);
        assert_eq!(sq.tail(), n);
    }
    assert!(sq.next().is_none());
    assert_eq!(sq.sqe_tail(), 32);
}

#[test]
fn full_ring_rejects_allocation_until_the_kernel_consumes() {
    let mut sq = narrow_sq(4, 0);
    for _ in 0..4 {
        assert!(sq.next().is_some());
    }
    assert!(sq.next().is_none());
    assert!(sq.prep(IORING_OP_NOP, -1, 0, 0, 0, 0).is_none());
    assert_eq!(sq.sqe_tail(), 4);
    assert_eq!(sq.tail(), 0);
    assert_eq!(sq.flush(), 4);
    assert_eq!(sq.tail(), 4);
    assert!(sq.next().is_none());
    assert!(sq.observe(1, 0, 0));
    assert_eq!(sq.head(), 1);
    assert!(sq.next().is_some());
    assert_eq!(sq.sqe_tail(), 5);
    assert!(sq.next().is_none());
}

#[test]
fn allocation_hands_out_a_blank_entry() {
    let mut sq = narrow_sq(2, 0);
    {
        let e = sq.next().unwrap();
        e.user_data = 9;
        e.opcode = 7;
        e.addr3 = [1, 2];
    }
    assert_eq!(sq.flush(), 1);
    assert!(sq.observe(1, 0, 0));
    sq.next().unwrap().user_data = 10;
    assert_eq!(sq.flush(), 1);
    assert!(sq.observe(2, 0, 0));
    let e = sq.next().unwrap();
    assert_eq!(e.user_data, 0);
    assert_eq!(e.opcode, 0);
    assert_eq!(e.addr3, [0, 0]);
}

#[test]
fn prep_fills_the_common_fields() {
    let mut sq = narrow_sq(4, 0);
    {
        let e = sq.prep(IORING_OP_READ, 5, 0xdead_0000, 4096, 77, 3).unwrap();
        assert_eq!(e.opcode, 22);
        assert_eq!(e.fd, 5);
        assert_eq!(e.addr1, 0xdead_0000);
        assert_eq!(e.addr2, 77);
        assert_eq!(e.len, 4096);
        assert_eq!(e.op_flags, 3);
        assert_eq!(e.flags, 0);
        assert_eq!(e.ioprio, 0);
        assert_eq!(e.user_data, 0);
        assert_eq!(e.buf_select, 0);
        assert_eq!(e.personality, 0);
        assert_eq!(e.file_select, 0);
        assert_eq!(e.addr3, [0, 0]);
        e.set_data_u64(0x1234);
    }
    let stored = sq.entry(sq.slot_of(0)).unwrap();
    assert_eq!(stored.user_data, 0x1234);
    assert_eq!(stored.opcode, 22);
    assert_eq!(sq.prep(0x1ff, 0, 0, 0, 0, 0).unwrap().opcode, 0xff);
}

#[test]
fn flush_publishes_once() {
    let mut sq = narrow_sq(8, 0);
    assert!(!sq.needs_publish());
    assert_eq!(sq.flush(), 0);
    assert_eq!(sq.tail(), 0);
    sq.next().unwrap();
    sq.next().unwrap();
    assert!(sq.needs_publish());
    assert_eq!(sq.tail(), 0);
    assert_eq!(sq.flush(), 2);
    assert_eq!(sq.tail(), 2);
    assert_eq!(sq.sqe_head(), 2);
    assert!(!sq.needs_publish());
    assert_eq!(sq.flush(), 2);
    assert_eq!(sq.tail(), 2);
    assert_eq!(sq.sqe_head(), 2);
    assert_eq!(sq.sqe_tail(), 2);
}

#[test]
fn publish_order_follows_the_polling_mode() {
    assert_eq!(narrow_sq(8, 0).publish_order(), StoreOrder::Relaxed);
    assert_eq!(narrow_sq(8, IORING_SETUP_SQPOLL).publish_order(), StoreOrder::Release);
}

#[test]
fn wakeup_and_enter_follow_the_flag_word() {
    let mut polled = narrow_sq(8, IORING_SETUP_SQPOLL);
    assert!(polled.sqpoll());
    assert!(!polled.needs_wakeup());
    assert!(!polled.needs_enter(3));
    assert!(polled.observe(0, IORING_SQ_NEED_WAKEUP, 0));
    assert!(polled.needs_wakeup());
    assert!(polled.needs_enter(3));
    assert!(!polled.needs_enter(0));
    assert!(polled.observe(0, IORING_SQ_CQ_OVERFLOW, 2));
    assert!(!polled.needs_wakeup());
    assert_eq!(polled.dropped(), 2);

    let plain = narrow_sq(8, 0);
    assert!(plain.needs_enter(1));
    assert!(!plain.needs_enter(0));
}

#[test]
fn observe_refuses_a_head_beyond_the_published_tail() {
    let mut sq = narrow_sq(8, 0);
    sq.next().unwrap();
    sq.next().unwrap();
    assert!(!sq.observe(1, 0, 0));
    assert_eq!(sq.head(), 0);
    sq.flush();
    assert!(!sq.observe(3, 1, 1));
    assert_eq!(sq.head(), 0);
    assert_eq!(sq.flags(), 0);
    assert!(!sq.observe(u32::MAX, 0, 0));
    assert!(sq.observe(2, 1, 1));
    assert_eq!(sq.head(), 2);
    assert_eq!(sq.flags(), 1);
    assert_eq!(sq.flush(), 0);
}

#[test]
fn fresh_completion_queue_is_empty() {
    let cq = narrow_cq(8, IORING_FEAT_EXT_ARG);
    assert_eq!(cq.head(), 0);
    assert_eq!(cq.tail(), 0);
    assert_eq!(cq.flags(), 0);
    assert_eq!(cq.overflow(), 0);
    assert_eq!(cq.ring_mask(), 7);
    assert_eq!(cq.ring_entries(), 8);
    assert_eq!(cq.available(), 0);
    assert!(cq.ext_arg());
    assert!(!cq.wide());
    assert!(cq.entry(7).is_some());
    assert!(cq.entry(8).is_none());
    assert!(!narrow_cq(8, 0).ext_arg());
}

#[test]
fn posted_completion_comes_back_unchanged() {
    let mut cq = narrow_cq(4, IORING_FEAT_EXT_ARG);
    assert!(matches!(cq.peek(), Ok((None, 0))));
    assert!(cq.post(completion(0xabcd, 17, 2)));
    assert!(cq.post(completion(0xabce, -5, 0)));
    let (first, available) = cq.peek().unwrap();
    let first = first.unwrap();
    assert_eq!(available, 2);
    assert_eq!(first.user_data, 0xabcd);
    assert_eq!(first.res, 17);
    assert_eq!(first.flags, 2);
    let (again, _) = cq.peek().unwrap();
    assert_eq!(again.unwrap().user_data, 0xabcd);
    cq.advance(1);
    let (second, available) = cq.peek().unwrap();
    let second = second.unwrap();
    assert_eq!(available, 1);
    assert_eq!(second.user_data, 0xabce);
    assert_eq!(second.res, -5);
    cq.advance(1);
    assert!(matches!(cq.peek(), Ok((None, 0))));
}

#[test]
fn wide_completion_comes_back_unchanged() {
    let mut cq: CQueue<[u8; 16]> =
        CQueue::new(&setup(4, IORING_SETUP_CQE32, IORING_FEAT_EXT_ARG), 3, 4).unwrap();
    assert!(cq.wide());
    assert!(cq.entry(7).is_some());
    assert!(cq.entry(8).is_none());
    let mut payload = [0u8; 16];
    payload[15] = 0x5a;
    for round in 0..10u64 {
        assert!(cq.post(cqe { user_data: round, res: round as i32, flags: 1, big_cqe: payload }));
        let (entry, available) = cq.peek().unwrap();
        let entry = entry.unwrap();
        assert_eq!(available, 1);
        assert_eq!(entry.user_data, round);
        assert_eq!(entry.res, round as i32);
        assert_eq!(entry.flags, 1);
        assert_eq!(entry.big_cqe, payload);
        assert_eq!(entry.get_data_u64(), round);
        cq.advance(1);
    }
    assert_eq!(cq.slot_of(1), 2);
    assert_eq!(cq.entry(2).unwrap().user_data, 9);
}

#[test]
fn post_stops_at_capacity() {
    let mut cq = narrow_cq(2, IORING_FEAT_EXT_ARG);
    assert!(cq.post(completion(1, 0, 0)));
    assert!(cq.post(completion(2, 0, 0)));
    assert!(!cq.post(completion(3, 0, 0)));
    assert_eq!(cq.available(), 2);
    assert_eq!(cq.tail(), 2);
    cq.advance(1);
    assert!(cq.post(completion(3, 0, 0)));
    assert_eq!(cq.peek().unwrap().0.unwrap().user_data, 2);
    cq.advance(1);
    assert_eq!(cq.peek().unwrap().0.unwrap().user_data, 3);
}

#[test]
fn advance_by_zero_changes_nothing() {
    let mut cq = narrow_cq(4, IORING_FEAT_EXT_ARG);
    assert!(cq.post(completion(1, 0, 0)));
    cq.advance(0);
    assert_eq!(cq.head(), 0);
    assert_eq!(cq.tail(), 1);
    assert_eq!(cq.available(), 1);
    assert_eq!(cq.peek().unwrap().0.unwrap().user_data, 1);
    cq.advance(0);
    assert_eq!(cq.head(), 0);
    assert_eq!(cq.available(), 1);
}

#[test]
fn completion_indices_wrap_at_the_top() {
    let mut cq = narrow_cq(4, IORING_FEAT_EXT_ARG);
    cq.advance(u32::MAX - 1);
    assert_eq!(cq.head(), u32::MAX - 1);
    assert_eq!(cq.available(), 2);
    assert!(cq.post(completion(0x77, 1, 0)));
    assert_eq!(cq.tail(), 1);
    assert_eq!(cq.available(), 3);
    cq.advance(2);
    assert_eq!(cq.head(), 0);
    assert_eq!(cq.available(), 1);
    let (entry, available) = cq.peek().unwrap();
    assert_eq!(available, 1);
    assert_eq!(entry.unwrap().user_data, 0x77);
    cq.advance(1);
    assert_eq!(cq.head(), 1);
    assert!(matches!(cq.peek(), Ok((None, 0))));
}

#[test]
fn expired_timeout_markers_are_passed_over() {
    let mut cq = narrow_cq(8, 0);
    assert!(cq.post(completion(UDATA_TIMEOUT, 0, 0)));
    assert!(cq.post(completion(UDATA_TIMEOUT, 3, 0)));
    assert!(cq.post(completion(42, -9, 0)));
    assert!(cq.post(completion(43, 0, 0)));
    let (entry, available) = cq.peek().unwrap();
    assert_eq!(entry.unwrap().user_data, 42);
    assert_eq!(available, 2);
    assert_eq!(cq.head(), 2);
    assert_eq!(cq.available(), 2);
}

#[test]
fn only_timeout_markers_leave_nothing() {
    let mut cq = narrow_cq(8, 0);
    assert!(cq.post(completion(UDATA_TIMEOUT, 0, 0)));
    assert!(cq.post(completion(UDATA_TIMEOUT, 0, 0)));
    assert!(matches!(cq.peek(), Ok((None, 0))));
    assert_eq!(cq.head(), 2);
    assert_eq!(cq.available(), 0);
}

#[test]
fn failed_timeout_marker_is_an_error() {
    let mut cq = narrow_cq(8, 0);
    assert!(cq.post(completion(UDATA_TIMEOUT, 0, 0)));
    assert!(cq.post(completion(UDATA_TIMEOUT, -62, 0)));
    assert!(cq.post(completion(42, 0, 0)));
    assert_eq!(cq.peek().err(), Some(RingError::Os(62)));
    assert_eq!(cq.head(), 2);
    let (entry, available) = cq.peek().unwrap();
    assert_eq!(entry.unwrap().user_data, 42);
    assert_eq!(available, 1);
}

#[test]
fn failed_timeout_marker_reports_the_decoded_number() {
    for (res, number) in [(-1, 1), (-4, 4), (-62, 62), (-i32::MAX, i32::MAX), (i32::MIN, i32::MAX)] {
        let mut cq = narrow_cq(8, 0);
        assert!(cq.post(completion(UDATA_TIMEOUT, res, 0)));
        assert_eq!(cq.peek().err(), Some(RingError::Os(number)));
        assert_eq!(cq.head(), 1);
        assert_eq!(cq.tail(), 1);
        assert_eq!(RingError::Os(number).raw_os_error(), number);
    }
}

#[test]
fn timeout_tag_is_ordinary_with_extended_arguments() {
    let mut cq = narrow_cq(8, IORING_FEAT_EXT_ARG);
    assert!(cq.post(completion(UDATA_TIMEOUT, -62, 0)));
    let (entry, available) = cq.peek().unwrap();
    let entry = entry.unwrap();
    assert_eq!(entry.user_data, u64::MAX);
    assert_eq!(entry.res, -62);
    assert_eq!(available, 1);
    assert_eq!(cq.head(), 0);
}

#[test]
fn overflow_and_flush_follow_the_flag_word() {
    let mut cq = narrow_cq(8, 0);
    assert!(!cq.overflowed());
    assert!(!cq.needs_flush());
    cq.observe(IORING_SQ_CQ_OVERFLOW, 5);
    assert!(cq.overflowed());
    assert!(cq.needs_flush());
    assert_eq!(cq.overflow(), 5);
    cq.observe(IORING_SQ_TASKRUN, 5);
    assert!(!cq.overflowed());
    assert!(cq.needs_flush());
    cq.observe(IORING_SQ_NEED_WAKEUP, 0);
    assert!(!cq.overflowed());
    assert!(!cq.needs_flush());
    assert_eq!(cq.flags(), 1);
}
