use rsring::cqueue::UDATA_TIMEOUT;
use rsring::error::RingError;
use rsring::io_uring::constants::{
    IORING_ENTER_EXT_ARG, IORING_ENTER_GETEVENTS, IORING_ENTER_SQ_WAKEUP, IORING_FEAT_EXT_ARG,
    IORING_OP_NOP, IORING_SETUP_CQE32, IORING_SETUP_IOPOLL, IORING_SETUP_SQE128,
    IORING_SETUP_SQPOLL, IORING_SETUP_SUBMIT_ALL, IORING_SQ_CQ_OVERFLOW, IORING_SQ_NEED_WAKEUP,
    IORING_SQ_TASKRUN,
};
use rsring::io_uring::definitions::{cqe, params};
use rsring::ring::cq::{GetEvents, Step};
use rsring::ring::enter::{EnterArg, EnterCall, Entered};
use rsring::ring::ring::{entry_flags, ring_size, sqes_size, Ring};
use rsring::ring::utility::{Plan, Waited};
use rsring::util::map::RingMapping;
use rsring::RSRing;

const FD: i32 = 7;

fn setup(entries: u32, flags: u32, features: u32) -> params {
    let mut p = params::new(flags);
    p.sq_entries = entries;
    p.cq_entries = entries * 2;
    p.features = features;
    p.sq_off.array = 128;
    p.cq_off.cqes = 64;
    p
}

fn ring(entries: u32, flags: u32, features: u32) -> RSRing {
    let p = setup(entries, flags, features);
    let size = ring_size(&p, 16).unwrap();
    let mapping = RingMapping::new(0x7000_0000, size).unwrap();
    Ring::new(FD, &p, mapping, entries - 1, entries, 2 * entries - 1, 2 * entries).unwrap()
}

fn completion(user_data: u64, res: i32) -> cqe<[u8; 0]> {
    cqe { user_data, res, flags: 0, big_cqe: [] }
}

fn entered_call(plan: Result<Plan, RingError>) -> EnterCall {
    match plan {
        Ok(Plan::Enter(call)) => call,
        other => panic!("no call into the kernel: {:?}", other),
    }
}

fn step_call(step: Step<[u8; 0]>) -> EnterCall {
    match step {
        Step::Enter(call) => call,
        other => panic!("no call into the kernel: {:?}", other),
    }
}

/// The kernel takes `n` published entries and completes each with result 0.
fn kernel_completes(ring: &mut RSRing, n: u32) {
    for _ in 0..n {
        let head = ring.sq().head();
        let entry = ring.sq().entry(ring.sq().slot_of(head)).unwrap();
        assert!(ring.observe_sq(head.wrapping_add(1), ring.sq().flags(), 0));
        assert!(ring.post(completion(entry.user_data, 0)));
    }
}

#[test]
fn entry_flags_follow_the_entry_sizes() {
    assert_eq!(entry_flags(64, 16), Ok(IORING_SETUP_SQPOLL | IORING_SETUP_SUBMIT_ALL));
    assert_eq!(entry_flags(64, 16), Ok(0x82));
    assert_eq!(entry_flags(128, 16), Ok(0x482));
    assert_eq!(entry_flags(64, 32), Ok(0x882));
    assert_eq!(
        entry_flags(128, 32),
        Ok(IORING_SETUP_SQPOLL | IORING_SETUP_SUBMIT_ALL | IORING_SETUP_SQE128 | IORING_SETUP_CQE32)
    );
    assert_eq!(entry_flags(65, 16), Err(RingError::Invalid));
    assert_eq!(entry_flags(64, 24), Err(RingError::Invalid));
    assert_eq!(entry_flags(0, 0), Err(RingError::Invalid));
}

#[test]
fn init_flags_follow_the_entry_types() {
    assert_eq!(Ring::<[u64; 2], [u8; 0]>::init_flags(), Ok(0x82));
    assert_eq!(Ring::<[u8; 80], [u8; 0]>::init_flags(), Ok(0x482));
    assert_eq!(Ring::<[u64; 2], [u8; 16]>::init_flags(), Ok(0x882));
    assert_eq!(Ring::<[u8; 80], [u8; 16]>::init_flags(), Ok(0xc82));
}

#[test]
fn ring_size_is_the_larger_side() {
    let mut p = setup(32, 0, 0);
    assert_eq!(ring_size(&p, 16), Ok(64 + 64 * 16));
    p.sq_off.array = 4000;
    assert_eq!(ring_size(&p, 16), Ok(4000 + 32 * 4));
    p.cq_entries = 0;
    p.sq_entries = 0;
    p.sq_off.array = 0;
    p.cq_off.cqes = 0;
    assert_eq!(ring_size(&p, 16), Ok(0));
    p.cq_entries = u32::MAX;
    assert_eq!(ring_size(&p, usize::MAX), Err(RingError::Invalid));
}

#[test]
fn entry_array_size_is_entries_times_entry_size() {
    let mut p = setup(32, 0, 0);
    assert_eq!(sqes_size(&p, 64), Ok(2048));
    assert_eq!(sqes_size(&p, 128), Ok(4096));
    assert_eq!(sqes_size(&p, 0), Ok(0));
    p.sq_entries = 2;
    assert_eq!(sqes_size(&p, usize::MAX), Err(RingError::Invalid));
    assert_eq!(sqes_size(&p, usize::MAX / 2), Ok(usize::MAX - 1));
}

#[test]
fn new_ring_takes_over_the_setup() {
    let r = ring(32, IORING_SETUP_SQPOLL, IORING_FEAT_EXT_ARG);
    assert_eq!(r.ring_fd(), FD);
    assert_eq!(r.enter_fd(), FD);
    assert_eq!(r.flags(), IORING_SETUP_SQPOLL);
    assert_eq!(r.features(), IORING_FEAT_EXT_ARG);
    assert!(r.has_flag(IORING_SETUP_SQPOLL));
    assert!(!r.has_flag(IORING_SETUP_IOPOLL));
    assert_eq!(r.ring().raw(), 0x7000_0000);
    assert_eq!(r.ring().len(), 64 + 64 * 16);
    assert_eq!(r.sq().ring_entries(), 32);
    assert_eq!(r.cq().ring_entries(), 64);
    assert!(r.sq().sqpoll());
    assert!(r.cq().ext_arg());
    assert_eq!(r.sq().sqe_tail(), 0);
    assert_eq!(r.cq().available(), 0);
}

#[test]
fn new_ring_refuses_bad_geometry() {
    let p = setup(32, 0, 0);
    let mapping = RingMapping::new(0x1000, 4096).unwrap();
    assert_eq!(
        Ring::<[u64; 2], [u8; 0]>::new(FD, &p, mapping, 31, 33, 63, 64).err(),
        Some(RingError::Invalid)
    );
    assert_eq!(
        Ring::<[u64; 2], [u8; 0]>::new(FD, &p, mapping, 31, 32, 62, 64).err(),
        Some(RingError::Invalid)
    );
    let small = RingMapping::new(0x1000, 64 + 64 * 16 - 1).unwrap();
    assert_eq!(
        Ring::<[u64; 2], [u8; 0]>::new(FD, &p, small, 31, 32, 63, 64).err(),
        Some(RingError::Invalid)
    );
    assert!(Ring::<[u64; 2], [u8; 0]>::new(FD, &p, mapping, 31, 32, 63, 64).is_ok());
}

#[test]
fn single_nop_completes() {
    let mut r = ring(32, 0, IORING_FEAT_EXT_ARG);
    r.nop().unwrap().set_data_u64(0xfeed_beef);
    let call = entered_call(r.submit_wait());
    assert_eq!(call.fd, FD);
    assert_eq!(call.to_submit, 1);
    assert_eq!(call.min_complete, 1);
    assert_eq!(call.flags, IORING_ENTER_GETEVENTS);
    assert!(matches!(call.arg, EnterArg::Sigmask { sig: 0 }));
    kernel_completes(&mut r, 1);
    let done = r.reap().unwrap();
    assert_eq!(done.user_data, 0xfeed_beef);
    assert!(done.res >= 0);
    assert_eq!(r.cq().available(), 1);
    r.next();
    assert_eq!(r.cq().available(), 0);
    assert_eq!(r.reap().err(), Some(RingError::WouldBlock));
}

#[test]
fn single_nop_completes_through_the_retry_loop() {
    let mut r = ring(32, 0, IORING_FEAT_EXT_ARG);
    r.nop().unwrap().set_data_u64(99);
    let to_submit = r.sqe_flush();
    assert_eq!(to_submit, 1);
    let mut st = GetEvents::new(to_submit, 1, 0, 0, 0);
    let call = step_call(r.cqe_get(&mut st));
    assert_eq!(call.to_submit, 1);
    assert_eq!(call.min_complete, 1);
    assert_eq!(call.flags, IORING_ENTER_GETEVENTS);
    kernel_completes(&mut r, 1);
    assert!(matches!(st.entered(Entered::Submitted(1)), Step::Again));
    assert_eq!(st.submit, 0);
    assert!(st.looped);
    match r.cqe_get(&mut st) {
        Step::Done(Some(done)) => {
            assert_eq!(done.user_data, 99);
            assert_eq!(done.res, 0);
        },
        other => panic!("no completion: {:?}", other),
    }
    assert_eq!(r.cq().available(), 1);
}

#[test]
fn full_ring_rejects_the_next_builder() {
    let mut r = ring(4, 0, 0);
    for tag in 0..4 {
        r.nop().unwrap().set_data_u64(tag);
    }
    assert!(r.nop().is_none());
    assert!(r.sqe_get().is_none());
    assert!(r.sqe_prep(IORING_OP_NOP, -1, 0, 0, 0, 0).is_none());
    assert_eq!(r.sq().sqe_tail(), 4);
    assert_eq!(r.sqe_flush(), 4);
    assert!(r.nop().is_none());
    assert!(r.observe_sq(1, 0, 0));
    assert!(r.nop().is_some());
    assert!(r.nop().is_none());
}

#[test]
fn bounded_wait_times_out_with_extended_arguments() {
    let mut r = ring(32, 0, IORING_FEAT_EXT_ARG);
    let mut st = GetEvents::new(0, 1, 0, 0, 50);
    let call = step_call(r.cqe_get(&mut st));
    assert_eq!(call.to_submit, 0);
    assert_eq!(call.min_complete, 1);
    assert_eq!(call.flags, IORING_ENTER_GETEVENTS | IORING_ENTER_EXT_ARG);
    match call.arg {
        EnterArg::Extended { sig, ts } => {
            assert_eq!(sig, 0);
            assert_eq!(ts.tv_sec, 0);
            assert_eq!(ts.tv_nsec, 50_000_000);
        },
        other => panic!("no extended argument: {:?}", other),
    }
    assert_eq!(call.arg.size(), 24);
    assert!(matches!(st.entered(Entered::Expired), Step::Fail(RingError::TimedOut)));
    assert_eq!(st.error, Some(RingError::TimedOut));
}

#[test]
fn bounded_wait_times_out_without_extended_arguments() {
    let mut r = ring(32, 0, 0);
    let mut st = GetEvents::new(0, 1, 0, 0x5000, 50);
    let call = step_call(r.cqe_get(&mut st));
    assert_eq!(call.flags, IORING_ENTER_GETEVENTS);
    assert!(matches!(call.arg, EnterArg::Sigmask { sig: 0x5000 }));
    assert_eq!(call.arg.size(), 8);
    assert!(matches!(st.entered(Entered::Submitted(0)), Step::Again));
    assert!(matches!(r.cqe_get(&mut st), Step::Fail(RingError::TimedOut)));
}

#[test]
fn armed_timeout_ends_a_wait_on_an_older_kernel() {
    let mut r = ring(32, 0, 0);
    {
        let e = r.arm_timeout(0x9000, 1).unwrap();
        assert_eq!(e.opcode, 11);
        assert_eq!(e.fd, -1);
        assert_eq!(e.addr1, 0x9000);
        assert_eq!(e.len, 1);
        assert_eq!(e.addr2, 1);
        assert_eq!(e.op_flags, 0);
        assert_eq!(e.user_data, UDATA_TIMEOUT);
    }
    let mut st = GetEvents::new(r.sqe_flush(), 1, 0, 0, 50);
    let call = step_call(r.cqe_get(&mut st));
    assert_eq!(call.to_submit, 1);
    assert_eq!(call.min_complete, 1);
    assert!(matches!(call.arg, EnterArg::Sigmask { sig: 0 }));
    assert!(r.observe_sq(1, 0, 0));
    assert!(r.post(completion(UDATA_TIMEOUT, 0)));
    assert!(matches!(st.entered(Entered::Submitted(1)), Step::Again));
    assert!(matches!(r.cqe_get(&mut st), Step::Fail(RingError::TimedOut)));
    assert_eq!(r.cq().available(), 0);
}

#[test]
fn internal_timeout_is_needed_only_without_extended_arguments() {
    let old = ring(32, 0, 0);
    assert!(old.needs_timeout_op(50));
    assert!(old.needs_timeout_op(u64::MAX));
    assert!(!old.needs_timeout_op(0));
    let new = ring(32, 0, IORING_FEAT_EXT_ARG);
    assert!(!new.needs_timeout_op(50));
    assert!(!new.needs_timeout_op(0));
}

#[test]
fn expired_internal_timeout_reports_the_timer_number() {
    let mut r = ring(32, 0, 0);
    assert!(r.needs_timeout_op(50));
    r.arm_timeout(0x9000, 1).unwrap();
    let mut st = GetEvents::new(r.sqe_flush(), 1, 0, 0, 50);
    step_call(r.cqe_get(&mut st));
    assert!(r.observe_sq(1, 0, 0));
    assert!(r.post(completion(UDATA_TIMEOUT, -libc::ETIME)));
    assert!(matches!(st.entered(Entered::Submitted(1)), Step::Again));
    match r.cqe_get(&mut st) {
        Step::Fail(e) => {
            assert_eq!(e, RingError::Os(libc::ETIME));
            assert_eq!(e.raw_os_error(), libc::ETIME);
        },
        other => panic!("no failure: {:?}", other),
    }
    assert_eq!(r.cq().available(), 0);
}

#[test]
fn bounded_wait_ends_with_a_late_completion() {
    let mut r = ring(32, 0, 0);
    let mut st = GetEvents::new(0, 2, 0, 0, 50);
    step_call(r.cqe_get(&mut st));
    assert!(matches!(st.entered(Entered::Submitted(0)), Step::Again));
    assert!(r.post(completion(5, 0)));
    match r.cqe_get(&mut st) {
        Step::Done(Some(done)) => assert_eq!(done.user_data, 5),
        other => panic!("no completion: {:?}", other),
    }
}

#[test]
fn overflow_forces_enter() {
    let mut r = ring(32, IORING_SETUP_SQPOLL, 0);
    assert!(matches!(r.ready(0, 0, 0, 0), Err(RingError::WouldBlock)));
    assert!(!r.needs_enter(0, 0));
    r.observe_cq(IORING_SQ_CQ_OVERFLOW, 1);
    assert!(r.cq().overflowed());
    assert!(r.needs_enter(0, 0));
    let call = entered_call(r.ready(0, 0, 0, 0));
    assert_eq!(call.to_submit, 0);
    assert_eq!(call.min_complete, 0);
    assert_eq!(call.flags, IORING_ENTER_GETEVENTS);

    let mut st = GetEvents::new(0, 0, 0, 0, 0);
    let call = step_call(r.cqe_get(&mut st));
    assert_eq!(call.to_submit, 0);
    assert_eq!(call.min_complete, 0);
    assert_eq!(call.flags, IORING_ENTER_GETEVENTS);
    assert!(matches!(st.entered(Entered::Submitted(0)), Step::Done(None)));
}

#[test]
fn pending_task_work_and_polling_mode_force_enter() {
    let mut r = ring(32, IORING_SETUP_SQPOLL, 0);
    r.observe_cq(IORING_SQ_TASKRUN, 0);
    assert!(r.needs_enter(0, 0));
    let mut st = GetEvents::new(0, 0, 0x10, 0, 0);
    assert_eq!(step_call(r.cqe_get(&mut st)).flags, IORING_ENTER_GETEVENTS | 0x10);

    let mut polled = ring(32, IORING_SETUP_IOPOLL, 0);
    assert!(polled.needs_enter(0, 0));
    assert_eq!(entered_call(polled.ready(0, 0, 0, 0)).flags, IORING_ENTER_GETEVENTS);
    let mut st = GetEvents::new(0, 0, 0, 0, 0);
    step_call(polled.cqe_get(&mut st));
}

#[test]
fn idle_request_would_block() {
    let mut r = ring(32, 0, 0);
    let mut st = GetEvents::new(0, 0, 0, 0, 0);
    assert!(matches!(r.cqe_get(&mut st), Step::Fail(RingError::WouldBlock)));
    assert_eq!(st.error, Some(RingError::WouldBlock));
    assert!(matches!(r.ready(0, 0, 0, 0), Err(RingError::WouldBlock)));
}

#[test]
fn idle_request_with_a_completion_ends_at_once() {
    let mut r = ring(32, 0, 0);
    assert!(r.post(completion(11, -2)));
    let mut st = GetEvents::new(0, 0, 0, 0, 0);
    match r.cqe_get(&mut st) {
        Step::Done(Some(done)) => {
            assert_eq!(done.user_data, 11);
            assert_eq!(done.res, -2);
        },
        other => panic!("no completion: {:?}", other),
    }
}

#[test]
fn ready_decides_by_mode_and_flags() {
    let plain = ring(32, 0, 0);
    let call = entered_call(plain.ready(3, 0, 0x40, 0));
    assert_eq!(call.to_submit, 3);
    assert_eq!(call.min_complete, 0);
    assert_eq!(call.flags, 0);
    assert!(matches!(call.arg, EnterArg::Sigmask { sig: 0x40 }));
    let call = entered_call(plain.ready(3, 2, 0, 0));
    assert_eq!(call.flags, IORING_ENTER_GETEVENTS);
    assert_eq!(call.min_complete, 2);

    let mut polled = ring(32, IORING_SETUP_SQPOLL, IORING_FEAT_EXT_ARG);
    assert!(matches!(polled.ready(3, 0, 0, 0), Ok(Plan::Done(3))));
    assert!(polled.observe_sq(0, IORING_SQ_NEED_WAKEUP, 0));
    let call = entered_call(polled.ready(3, 0, 0, 0));
    assert_eq!(call.flags, IORING_ENTER_SQ_WAKEUP);
    let call = entered_call(polled.ready(0, 1, 0, 1500));
    assert_eq!(
        call.flags,
        IORING_ENTER_GETEVENTS | IORING_ENTER_SQ_WAKEUP | IORING_ENTER_EXT_ARG
    );
    match call.arg {
        EnterArg::Extended { ts, .. } => {
            assert_eq!(ts.tv_sec, 1);
            assert_eq!(ts.tv_nsec, 500_000_000);
        },
        other => panic!("no extended argument: {:?}", other),
    }
}

#[test]
fn satisfied_wait_needs_no_call() {
    let mut r = ring(32, IORING_SETUP_SQPOLL, 0);
    assert!(r.post(completion(1, 0)));
    assert!(r.post(completion(2, 0)));
    assert!(matches!(r.ready(0, 2, 0, 0), Ok(Plan::Done(0))));
    assert!(matches!(r.ready(5, 1, 0, 0), Ok(Plan::Done(5))));
    assert!(matches!(r.ready(0, 3, 0, 0), Ok(Plan::Enter(_))));
}

#[test]
fn submit_publishes_and_plans() {
    let mut r = ring(32, 0, 0);
    assert!(matches!(r.submit(), Err(RingError::WouldBlock)));
    r.nop().unwrap();
    r.nop().unwrap();
    assert_eq!(r.sq().tail(), 0);
    let call = entered_call(r.submit());
    assert_eq!(r.sq().tail(), 2);
    assert_eq!(call.to_submit, 2);
    assert_eq!(call.min_complete, 0);
    assert_eq!(call.flags, 0);

    let mut polled = ring(32, IORING_SETUP_SQPOLL, 0);
    polled.nop().unwrap();
    assert!(matches!(polled.submit(), Ok(Plan::Done(1))));
    assert_eq!(polled.sq().tail(), 1);
}

#[test]
fn partial_submission_is_offered_again() {
    let mut r = ring(32, 0, 0);
    for tag in 0..5 {
        r.nop().unwrap().set_data_u64(tag);
    }
    let mut st = GetEvents::new(r.sqe_flush(), 0, 0, 0, 0);
    assert_eq!(step_call(r.cqe_get(&mut st)).to_submit, 5);
    assert!(r.observe_sq(2, 0, 0));
    assert!(matches!(st.entered(Entered::Submitted(2)), Step::Again));
    assert_eq!(st.submit, 3);
    let call = step_call(r.cqe_get(&mut st));
    assert_eq!(call.to_submit, 3);
    assert_eq!(call.flags, 0);
    assert!(r.observe_sq(5, 0, 0));
    assert!(matches!(st.entered(Entered::Submitted(3)), Step::Done(None)));
    assert_eq!(st.submit, 0);
}

#[test]
fn kernel_never_takes_more_than_offered() {
    let mut st: GetEvents<[u8; 0]> = GetEvents::new(2, 0, 0, 0, 0);
    assert!(matches!(st.entered(Entered::Submitted(7)), Step::Done(None)));
    assert_eq!(st.submit, 0);
}

#[test]
fn held_completion_ends_the_request_after_the_call() {
    let mut r = ring(32, 0, 0);
    assert!(r.post(completion(21, 0)));
    r.nop().unwrap();
    let mut st = GetEvents::new(r.sqe_flush(), 1, 0, 0, 0);
    let call = step_call(r.cqe_get(&mut st));
    assert_eq!(call.to_submit, 1);
    assert_eq!(call.flags, 0);
    assert_eq!(st.held.map(|c| c.user_data), Some(21));
    match st.entered(Entered::Submitted(1)) {
        Step::Done(Some(done)) => assert_eq!(done.user_data, 21),
        other => panic!("no completion: {:?}", other),
    }
    assert!(st.held.is_none());
}

#[test]
fn failed_call_fails_the_request() {
    let mut r = ring(32, 0, 0);
    let mut st = GetEvents::new(0, 1, 0, 0, 0);
    step_call(r.cqe_get(&mut st));
    assert!(matches!(st.entered(Entered::Failed(4)), Step::Fail(RingError::Os(4))));
    assert_eq!(st.error, Some(RingError::Os(4)));
}

#[test]
fn first_failure_is_kept() {
    let mut r = ring(32, 0, 0);
    let mut st = GetEvents::new(0, 1, 0, 0, 0);
    step_call(r.cqe_get(&mut st));
    assert!(matches!(st.entered(Entered::Failed(4)), Step::Fail(RingError::Os(4))));
    assert!(matches!(st.entered(Entered::Failed(9)), Step::Fail(RingError::Os(4))));
    assert!(matches!(st.entered(Entered::Submitted(1)), Step::Fail(RingError::Os(4))));
    assert!(matches!(st.entered(Entered::Expired), Step::Fail(RingError::Os(4))));
    assert!(r.post(completion(1, 0)));
    assert!(matches!(r.cqe_get(&mut st), Step::Fail(RingError::Os(4))));
    assert_eq!(r.cq().available(), 1);
    assert_eq!(st.error, Some(RingError::Os(4)));
}

#[test]
fn failed_timeout_marker_fails_the_request() {
    let mut r = ring(32, 0, 0);
    assert!(r.post(completion(UDATA_TIMEOUT, -62)));
    assert!(r.post(completion(8, 0)));
    let mut st = GetEvents::new(0, 1, 0, 0, 0);
    assert!(matches!(r.cqe_get(&mut st), Step::Fail(RingError::Os(62))));
    assert_eq!(r.cq().available(), 1);
    assert!(matches!(r.cqe_get(&mut st), Step::Fail(RingError::Os(62))));
}

#[test]
fn wait_for_one_starts_a_request() {
    let mut r = ring(32, 0, 0);
    let (mut st, step) = r.wait_cqe();
    let call = step_call(step);
    assert_eq!(call.to_submit, 0);
    assert_eq!(call.min_complete, 1);
    assert_eq!(call.flags, IORING_ENTER_GETEVENTS);
    assert_eq!(st.min_complete, 1);
    assert_eq!(st.submit, 0);
    assert!(r.post(completion(3, 0)));
    assert!(matches!(st.entered(Entered::Submitted(0)), Step::Again));
    assert!(matches!(r.cqe_get(&mut st), Step::Done(Some(_))));

    let (_, step) = r.wait_cqe();
    match step {
        Step::Done(Some(done)) => assert_eq!(done.user_data, 3),
        other => panic!("no completion: {:?}", other),
    }
}

#[test]
fn wait_alternates_looking_and_entering() {
    let mut r = ring(32, IORING_SETUP_SQPOLL, 0);
    let call = match r.wait() {
        Ok(Waited::Enter(call)) => call,
        other => panic!("no call into the kernel: {:?}", other),
    };
    assert_eq!(call.to_submit, 0);
    assert_eq!(call.min_complete, 1);
    assert_eq!(call.flags, IORING_ENTER_GETEVENTS);
    assert!(r.post(completion(UDATA_TIMEOUT, 0)));
    assert!(matches!(r.wait(), Ok(Waited::Enter(_))));
    assert!(r.post(completion(6, 1)));
    match r.wait() {
        Ok(Waited::Ready(done)) => assert_eq!(done.user_data, 6),
        other => panic!("no completion: {:?}", other),
    }
    r.next();
    assert!(r.post(completion(UDATA_TIMEOUT, -4)));
    assert!(matches!(r.wait(), Err(RingError::Os(4))));
}

#[test]
fn expiry_is_told_from_other_failures() {
    assert!(matches!(Entered::classify(62, 62), Entered::Expired));
    assert!(matches!(Entered::classify(4, 62), Entered::Failed(4)));
    assert!(matches!(Entered::from_errno(libc::ETIME), Entered::Expired));
    assert!(matches!(Entered::from_errno(libc::EINTR), Entered::Failed(e) if e == libc::EINTR));
}

#[test]
fn errors_have_their_numbers() {
    assert_eq!(RingError::WouldBlock.errno(1, 2, 3), 1);
    assert_eq!(RingError::TimedOut.errno(1, 2, 3), 2);
    assert_eq!(RingError::Invalid.errno(1, 2, 3), 3);
    assert_eq!(RingError::Os(62).errno(1, 2, 3), 62);
    assert_eq!(RingError::WouldBlock.raw_os_error(), libc::EAGAIN);
    assert_eq!(RingError::TimedOut.raw_os_error(), libc::ETIME);
    assert_eq!(RingError::Invalid.raw_os_error(), libc::EINVAL);
    assert_eq!(RingError::Os(5).raw_os_error(), 5);
}

#[test]
fn mapping_checks_its_bounds() {
    assert!(RingMapping::new(usize::MAX, 1).is_none());
    assert!(RingMapping::new(usize::MAX, 0).is_some());
    let m = RingMapping::new(0x1000, 0x200).unwrap();
    assert_eq!(m.raw(), 0x1000);
    assert_eq!(m.len(), 0x200);
    assert_eq!(m.add(0), Some(0x1000));
    assert_eq!(m.add(0x200), Some(0x1200));
    assert_eq!(m.add(0x201), None);
    assert_eq!(m.sub(0), Some(0x1000));
    assert_eq!(m.sub(1), None);
    assert_eq!(m.offset(0x10), Some(0x1010));
    assert_eq!(m.offset(0x200), Some(0x1200));
    assert_eq!(m.offset(0x201), None);
    assert_eq!(m.offset(-1), None);
    assert_eq!(m.field(0, 4), Some(0x1000));
    assert_eq!(m.field(0x1fc, 4), Some(0x11fc));
    assert_eq!(m.field(0x1fd, 4), None);
    assert_eq!(m.field(0x200, 0), Some(0x1200));
    assert_eq!(m.field(0x201, 0), None);
    assert_eq!(m.field(0, 0x201), None);
}

#[test]
fn mapping_places_the_ring_words() {
    let mut p = params::new(0);
    p.sq_entries = 8;
    p.cq_entries = 16;
    p.sq_off.head = 0;
    p.sq_off.tail = 64;
    p.sq_off.ring_mask = 256;
    p.sq_off.ring_entries = 264;
    p.sq_off.flags = 276;
    p.sq_off.dropped = 272;
    p.sq_off.array = 576;
    p.cq_off.head = 128;
    p.cq_off.tail = 192;
    p.cq_off.ring_mask = 260;
    p.cq_off.ring_entries = 268;
    p.cq_off.overflow = 284;
    p.cq_off.cqes = 320;
    p.cq_off.flags = 280;
    assert_eq!(ring_size(&p, 16), Ok(608));
    let m = RingMapping::new(0x10_0000, 608).unwrap();
    let sq = m.sq_fields(&p).unwrap();
    assert_eq!(
        (sq.head, sq.tail, sq.ring_mask, sq.ring_entries, sq.flags, sq.dropped, sq.array),
        (0x10_0000, 0x10_0040, 0x10_0100, 0x10_0108, 0x10_0114, 0x10_0110, 0x10_0240)
    );
    let cq = m.cq_fields(&p, 16).unwrap();
    assert_eq!(
        (cq.head, cq.tail, cq.ring_mask, cq.ring_entries, cq.overflow, cq.cqes, cq.flags),
        (0x10_0080, 0x10_00c0, 0x10_0104, 0x10_010c, 0x10_011c, 0x10_0140, 0x10_0118)
    );
    let short = RingMapping::new(0x10_0000, 607).unwrap();
    assert!(short.sq_fields(&p).is_none());
    assert!(short.cq_fields(&p, 16).is_some());
    assert!(m.cq_fields(&p, 32).is_none());
    p.sq_off.flags = 605;
    assert!(m.sq_fields(&p).is_none());
}
