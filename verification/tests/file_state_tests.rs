use systrace::file_state::{FileMode, FileState, ProcessState};

#[test]
fn new_table_is_empty() {
    let state = ProcessState::new();
    assert_eq!(state.record_count(), 0);
}

#[test]
fn open_then_close_transitions() {
    let mut state = ProcessState::new();
    state.record_open(3, String::from("/tmp/x"), FileMode::ReadOnly, 0);
    let rec = state.lookup_fd(3).expect("live record after open");
    assert!(matches!(rec.state, FileState::Opened));
    assert_eq!(rec.path, "/tmp/x");
    assert!(matches!(rec.mode, FileMode::ReadOnly));
    assert_eq!(rec.fd, 3);

    state.record_close(3);
    assert!(state.lookup_fd(3).is_none());
    assert_eq!(state.record_count(), 1);
    let rec = state.record_at(0);
    assert!(matches!(rec.state, FileState::Closed));
    assert_eq!(rec.path, "/tmp/x");
    assert!(matches!(rec.mode, FileMode::ReadOnly));
}

#[test]
fn close_without_open_is_a_noop() {
    let mut state = ProcessState::new();
    state.record_open(3, String::from("/tmp/kept"), FileMode::ReadWrite, 2);
    state.record_close(7);
    assert_eq!(state.record_count(), 1);
    let rec = state.record_at(0);
    assert!(matches!(rec.state, FileState::Opened));
    assert_eq!(rec.path, "/tmp/kept");
}

#[test]
fn close_twice_is_idempotent() {
    let mut state = ProcessState::new();
    state.record_open(4, String::from("/tmp/y"), FileMode::WriteOnly, 1);
    state.record_close(4);
    state.record_close(4);
    assert_eq!(state.record_count(), 1);
    assert!(matches!(state.record_at(0).state, FileState::Closed));
}

#[test]
fn reopen_same_descriptor_upserts() {
    let mut state = ProcessState::new();
    state.record_open(3, String::from("/tmp/a"), FileMode::ReadOnly, 0);
    state.record_open(3, String::from("/tmp/b"), FileMode::ReadWrite, 2);
    assert_eq!(state.record_count(), 1);
    let rec = state.record_at(0);
    assert_eq!(rec.path, "/tmp/b");
    assert!(matches!(rec.mode, FileMode::ReadWrite));
}

#[test]
fn open_failure_is_recorded_and_never_live() {
    let mut state = ProcessState::new();
    state.record_open_failure(String::from("/etc/shadow"), FileMode::ReadOnly, 0);
    assert_eq!(state.record_count(), 1);
    let rec = state.record_at(0);
    assert!(matches!(rec.state, FileState::OpenFailed));
    assert_eq!(rec.path, "/etc/shadow");
    assert!(state.lookup_fd(0).is_none());
}

#[test]
fn path_state_reports_most_recent_record() {
    let mut state = ProcessState::new();
    let path = String::from("/tmp/z");
    assert!(state.path_state(&path).is_none());
    state.record_open(5, path.clone(), FileMode::ReadOnly, 0);
    assert!(matches!(state.path_state(&path), Some(FileState::Opened)));
    state.record_close(5);
    assert!(matches!(state.path_state(&path), Some(FileState::Closed)));
    state.record_open_failure(path.clone(), FileMode::ReadOnly, 0);
    assert!(matches!(state.path_state(&path), Some(FileState::OpenFailed)));
    assert!(state.path_state(&String::from("/other")).is_none());
}

#[test]
fn open_fds_lists_exactly_the_live_descriptors() {
    let mut state = ProcessState::new();
    state.record_open(3, String::from("/a"), FileMode::ReadOnly, 0);
    state.record_open(5, String::from("/b"), FileMode::ReadWrite, 2);
    state.record_open_failure(String::from("/c"), FileMode::ReadOnly, 0);
    state.record_close(3);
    let fds = state.open_fds();
    assert_eq!(fds, vec![5]);
}
