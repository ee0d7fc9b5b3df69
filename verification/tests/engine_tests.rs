use systrace::dispatch::{SyscallConfigMap, SYSCALL_CLOSE, SYSCALL_OPEN};
use systrace::engine::{child_loop, RoundOutcome, TraceEngine, TraceOutcome};
use systrace::file_state::{FileMode, FileState};
use systrace::registers::RegisterSnapshot;
use systrace::stub::StubTarget;

const BASE: usize = 0x1000;

fn path_image(path: &str) -> Vec<u8> {
    let mut image = path.as_bytes().to_vec();
    image.push(0);
    image.resize(512, 0);
    image
}

fn entry(id: u64, arg0: u64, arg1: u64) -> RegisterSnapshot {
    let mut r = RegisterSnapshot::zeroed();
    r.syscall_id = id;
    r.arg0 = arg0;
    r.arg1 = arg1;
    r
}

fn exit_of(e: RegisterSnapshot, ret: u64) -> RegisterSnapshot {
    let mut r = e;
    r.ret = ret;
    r
}

#[test]
fn trace_of_open_read_close_yields_one_closed_readonly_handle() {
    let open_entry = entry(SYSCALL_OPEN, BASE as u64, 0);
    let read_entry = entry(0, 3, 0x2000);  // read(fd 3, buf, ...) has no handler
    let close_entry = entry(SYSCALL_CLOSE, 3, 0);
    let script = vec![
        open_entry,
        exit_of(open_entry, 3),
        read_entry,
        exit_of(read_entry, 6),
        close_entry,
        exit_of(close_entry, 0),
    ];
    let mut target = StubTarget::new(BASE, path_image("/tmp/x"), script);
    let (engine, outcome) = child_loop(&mut target, 100);
    assert!(matches!(outcome, TraceOutcome::ChildExited));
    assert_eq!(engine.state.record_count(), 1);
    let rec = engine.state.record_at(0);
    assert_eq!(rec.path, "/tmp/x");
    assert!(matches!(rec.state, FileState::Closed));
    assert!(matches!(rec.mode, FileMode::ReadOnly));
    assert_eq!(rec.fd, 3);
    assert!(matches!(
        engine.state.path_state(&String::from("/tmp/x")),
        Some(FileState::Closed)
    ));
}

#[test]
fn unregistered_syscalls_leave_the_table_untouched() {
    let e1 = entry(999, BASE as u64, 7);
    let e2 = entry(1, 4, 0);  // write: no handler registered
    let script = vec![e1, exit_of(e1, 0), e2, exit_of(e2, 4)];
    let mut target = StubTarget::new(BASE, path_image("/tmp/x"), script);
    let (engine, outcome) = child_loop(&mut target, 100);
    assert!(matches!(outcome, TraceOutcome::ChildExited));
    assert_eq!(engine.state.record_count(), 0);
}

#[test]
fn failed_open_then_stray_close_keeps_the_failure_record() {
    let open_entry = entry(SYSCALL_OPEN, BASE as u64, 1);
    let close_entry = entry(SYSCALL_CLOSE, 9, 0);  // no matching open record
    let script = vec![
        open_entry,
        exit_of(open_entry, (-13i64) as u64),
        close_entry,
        exit_of(close_entry, 0),
    ];
    let mut target = StubTarget::new(BASE, path_image("/etc/shadow"), script);
    let (engine, outcome) = child_loop(&mut target, 100);
    assert!(matches!(outcome, TraceOutcome::ChildExited));
    assert_eq!(engine.state.record_count(), 1);
    let rec = engine.state.record_at(0);
    assert!(matches!(rec.state, FileState::OpenFailed));
    assert!(matches!(rec.mode, FileMode::WriteOnly));
}

#[test]
fn script_ending_at_an_entry_stop_still_exits_cleanly() {
    let open_entry = entry(SYSCALL_OPEN, BASE as u64, 0);
    let script = vec![open_entry, exit_of(open_entry, 3), entry(SYSCALL_CLOSE, 3, 0)];
    let mut target = StubTarget::new(BASE, path_image("/tmp/x"), script);
    let (engine, outcome) = child_loop(&mut target, 100);
    assert!(matches!(outcome, TraceOutcome::ChildExited));
    // The close never reached its exit stop, so the record stays open.
    assert_eq!(engine.state.record_count(), 1);
    assert!(matches!(engine.state.record_at(0).state, FileState::Opened));
}

#[test]
fn round_budget_runs_out_on_a_longer_script() {
    let e = entry(999, 0, 0);
    let script = vec![e, e, e, e, e, e];
    let mut target = StubTarget::new(BASE, Vec::new(), script);
    let mut engine = TraceEngine::new(SyscallConfigMap::default_config());
    let outcome = engine.run(&mut target, 2);
    assert!(matches!(outcome, TraceOutcome::RoundsExhausted));
}

#[test]
fn single_rounds_can_drive_the_loop_by_hand() {
    let open_entry = entry(SYSCALL_OPEN, BASE as u64, 2);
    let script = vec![open_entry, exit_of(open_entry, 4)];
    let mut target = StubTarget::new(BASE, path_image("/tmp/rw"), script);
    let mut engine = TraceEngine::new(SyscallConfigMap::default_config());
    assert!(matches!(engine.run_round(&mut target), RoundOutcome::Continue));
    assert!(matches!(engine.run_round(&mut target), RoundOutcome::ChildExited));
    let rec = engine.state.lookup_fd(4).expect("open recorded");
    assert!(matches!(rec.mode, FileMode::ReadWrite));
    assert_eq!(rec.path, "/tmp/rw");
}
