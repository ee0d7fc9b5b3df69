use systrace::dispatch::{
    decode_mode, dispatch_post, dispatch_pre, Handoff, SyscallConfigMap, SyscallKind,
    SYSCALL_CLOSE, SYSCALL_OPEN, SYSCALL_OPENAT,
};
use systrace::file_state::{FileMode, FileState, ProcessState};
use systrace::registers::RegisterSnapshot;
use systrace::stub::StubTarget;

const BASE: usize = 0x1000;

fn path_image(path: &str) -> Vec<u8> {
    let mut image = path.as_bytes().to_vec();
    image.push(0);
    image.resize(512, 0);
    image
}

#[test]
fn default_config_registers_the_three_handlers() {
    let conf = SyscallConfigMap::default_config();
    assert!(matches!(conf.lookup(SYSCALL_OPEN), Some(SyscallKind::Open)));
    assert!(matches!(conf.lookup(SYSCALL_OPENAT), Some(SyscallKind::OpenAt)));
    assert!(matches!(conf.lookup(SYSCALL_CLOSE), Some(SyscallKind::Close)));
    assert!(conf.lookup(999).is_none());
}

#[test]
fn first_registration_wins() {
    let mut conf = SyscallConfigMap::new();
    conf.register(42, SyscallKind::Open);
    conf.register(42, SyscallKind::Close);
    assert!(matches!(conf.lookup(42), Some(SyscallKind::Open)));
}

#[test]
fn decode_mode_reads_the_access_bits() {
    assert!(matches!(decode_mode(0), FileMode::ReadOnly));
    assert!(matches!(decode_mode(1), FileMode::WriteOnly));
    assert!(matches!(decode_mode(2), FileMode::ReadWrite));
    assert!(matches!(decode_mode(0o100 | 1), FileMode::WriteOnly));
    assert!(matches!(decode_mode(0o4000 | 0), FileMode::ReadOnly));
}

#[test]
fn unregistered_id_dispatches_to_passthrough() {
    let conf = SyscallConfigMap::default_config();
    let state = ProcessState::new();
    let target = StubTarget::new(BASE, path_image("/tmp/x"), Vec::new());
    let mut regs = RegisterSnapshot::zeroed();
    regs.syscall_id = 999;
    regs.arg0 = BASE as u64;
    let h = dispatch_pre(&conf, &state, &target, &regs);
    assert!(matches!(h, Handoff::Passthrough));

    let mut state = state;
    let mut exit = regs;
    exit.ret = 17;
    dispatch_post(h, &mut state, &exit);
    assert_eq!(state.record_count(), 0);
}

#[test]
fn open_round_records_an_opened_file() {
    let conf = SyscallConfigMap::default_config();
    let mut state = ProcessState::new();
    let target = StubTarget::new(BASE, path_image("/tmp/x"), Vec::new());
    let mut entry = RegisterSnapshot::zeroed();
    entry.syscall_id = SYSCALL_OPEN;
    entry.arg0 = BASE as u64;
    entry.arg1 = 0;
    let h = dispatch_pre(&conf, &state, &target, &entry);
    match &h {
        Handoff::OpenCtx { path, mode, .. } => {
            assert_eq!(path, "/tmp/x");
            assert!(matches!(mode, FileMode::ReadOnly));
        },
        _ => panic!("open entry must resolve to an open context"),
    }
    let mut exit = entry;
    exit.ret = 5;
    dispatch_post(h, &mut state, &exit);
    let rec = state.lookup_fd(5).expect("open recorded");
    assert!(matches!(rec.state, FileState::Opened));
    assert_eq!(rec.path, "/tmp/x");
}

#[test]
fn openat_takes_path_and_flags_from_later_arguments() {
    let conf = SyscallConfigMap::default_config();
    let mut state = ProcessState::new();
    let target = StubTarget::new(BASE, path_image("/var/log/app"), Vec::new());
    let mut entry = RegisterSnapshot::zeroed();
    entry.syscall_id = SYSCALL_OPENAT;
    entry.arg0 = u64::MAX;  // AT_FDCWD-style descriptor, not a pointer
    entry.arg1 = BASE as u64;
    entry.arg2 = 2;
    let h = dispatch_pre(&conf, &state, &target, &entry);
    let mut exit = entry;
    exit.ret = 7;
    dispatch_post(h, &mut state, &exit);
    let rec = state.lookup_fd(7).expect("openat recorded");
    assert_eq!(rec.path, "/var/log/app");
    assert!(matches!(rec.mode, FileMode::ReadWrite));
}

#[test]
fn failed_open_records_open_failed() {
    let conf = SyscallConfigMap::default_config();
    let mut state = ProcessState::new();
    let target = StubTarget::new(BASE, path_image("/etc/shadow"), Vec::new());
    let mut entry = RegisterSnapshot::zeroed();
    entry.syscall_id = SYSCALL_OPEN;
    entry.arg0 = BASE as u64;
    let h = dispatch_pre(&conf, &state, &target, &entry);
    let mut exit = entry;
    exit.ret = (-13i64) as u64;  // EACCES
    dispatch_post(h, &mut state, &exit);
    assert_eq!(state.record_count(), 1);
    assert!(matches!(state.record_at(0).state, FileState::OpenFailed));
    assert_eq!(state.record_at(0).path, "/etc/shadow");
}

#[test]
fn unresolvable_path_pointer_keeps_the_round_local() {
    let conf = SyscallConfigMap::default_config();
    let mut state = ProcessState::new();
    let target = StubTarget::new(BASE, vec![b'A'; 8], Vec::new());
    let mut entry = RegisterSnapshot::zeroed();
    entry.syscall_id = SYSCALL_OPEN;
    entry.arg0 = 0xdead_0000;  // unmapped
    let h = dispatch_pre(&conf, &state, &target, &entry);
    assert!(matches!(h, Handoff::Passthrough));
    let mut exit = entry;
    exit.ret = 5;
    dispatch_post(h, &mut state, &exit);
    assert_eq!(state.record_count(), 0);
}

#[test]
fn failed_close_changes_nothing() {
    let conf = SyscallConfigMap::default_config();
    let mut state = ProcessState::new();
    state.record_open(3, String::from("/tmp/x"), FileMode::ReadOnly, 0);
    let target = StubTarget::new(BASE, Vec::new(), Vec::new());
    let mut entry = RegisterSnapshot::zeroed();
    entry.syscall_id = SYSCALL_CLOSE;
    entry.arg0 = 3;
    let h = dispatch_pre(&conf, &state, &target, &entry);
    assert!(matches!(h, Handoff::CloseCtx { fd: 3 }));
    let mut exit = entry;
    exit.ret = (-9i64) as u64;  // EBADF
    dispatch_post(h, &mut state, &exit);
    let rec = state.lookup_fd(3).expect("still open");
    assert!(matches!(rec.state, FileState::Opened));
}
