//! The tracer's model of the child's open-file usage, built purely from
//! observed syscalls.

use vstd::prelude::*;

verus! {

/// The life-cycle state of a file record: a successfully opened file, a file
/// whose matching close was observed, or an open attempt that failed.
#[derive(Clone, Copy, PartialEq, Eq, Structural, Debug)]
pub enum FileState {
    Opened,
    Closed,
    OpenFailed,
}

/// The access mode requested by the open call.
#[derive(Clone, Copy, PartialEq, Eq, Structural, Debug)]
pub enum FileMode {
    ReadOnly,
    ReadWrite,
    WriteOnly,
}

/// One file the child was observed to open (or fail to open). The
/// descriptor field carries the kernel's returned descriptor and is
/// meaningful only for `Opened` and `Closed` records; a failed open has no
/// descriptor and stores zero there. The flag bits keep the raw open flags
/// so that callers can extend the model without changing this type.
pub struct FileRecord {
    pub state: FileState,
    pub path: String,
    pub mode: FileMode,
    pub flags: u64,
    pub fd: u64,
}

/// The mathematical image of a `FileRecord`: the path as a character
/// sequence, everything else verbatim.
pub struct FileRecordV {
    pub state: FileState,
    pub path: Seq<char>,
    pub mode: FileMode,
    pub flags: u64,
    pub fd: u64,
}

impl View for FileRecord {
    type V = FileRecordV;

    open spec fn view(&self) -> FileRecordV {
        FileRecordV {
            state: self.state,
            path: self.path@,
            mode: self.mode,
            flags: self.flags,
            fd: self.fd,
        }
    }
}

/// True when index `i` holds a live `Opened` record for descriptor `fd`.
pub open spec fn is_open_slot(s: Seq<FileRecordV>, fd: u64, i: int) -> bool {
    0 <= i < s.len() && s[i].state == FileState::Opened && s[i].fd == fd
}

/// True when some record in `s` is a live `Opened` record for `fd`.
pub open spec fn has_open(s: Seq<FileRecordV>, fd: u64) -> bool {
    exists|i: int| is_open_slot(s, fd, i)
}

/// The index of the live `Opened` record for `fd`; unique under `state_wf`.
pub open spec fn open_slot(s: Seq<FileRecordV>, fd: u64) -> int {
    choose|i: int| is_open_slot(s, fd, i)
}

/// Well-formedness of the table: at most one live `Opened` record per
/// descriptor identity.
pub open spec fn state_wf(s: Seq<FileRecordV>) -> bool {
    forall|i: int, j: int| #![trigger s[i], s[j]]
        0 <= i < s.len() && 0 <= j < s.len() && i != j ==> !(s[i].state == FileState::Opened
            && s[j].state == FileState::Opened && s[i].fd == s[j].fd)
}

/// The record that `record_open` installs.
pub open spec fn opened_record(fd: u64, path: Seq<char>, mode: FileMode, flags: u64) -> FileRecordV {
    FileRecordV { state: FileState::Opened, path, mode, flags, fd }
}

/// The record that `record_open_failure` appends.
pub open spec fn failed_record(path: Seq<char>, mode: FileMode, flags: u64) -> FileRecordV {
    FileRecordV { state: FileState::OpenFailed, path, mode, flags, fd: 0 }
}

/// What recording a successful open does to the table: replace the live
/// record for the same descriptor if one exists, otherwise append a fresh
/// `Opened` record.
pub open spec fn record_open_spec(
    s: Seq<FileRecordV>,
    fd: u64,
    path: Seq<char>,
    mode: FileMode,
    flags: u64,
) -> Seq<FileRecordV> {
    if has_open(s, fd) {
        s.update(open_slot(s, fd), opened_record(fd, path, mode, flags))
    } else {
        s.push(opened_record(fd, path, mode, flags))
    }
}

/// What recording a successful close does to the table: transition the live
/// record for `fd` to `Closed`, keeping its path, mode and flags; leave the
/// table untouched when no live record matches.
pub open spec fn record_close_spec(s: Seq<FileRecordV>, fd: u64) -> Seq<FileRecordV> {
    if has_open(s, fd) {
        let i = open_slot(s, fd);
        s.update(i, FileRecordV { state: FileState::Closed, ..s[i] })
    } else {
        s
    }
}

/// What recording a failed open does to the table: append an `OpenFailed`
/// record; existing records are untouched.
pub open spec fn record_open_failure_spec(
    s: Seq<FileRecordV>,
    path: Seq<char>,
    mode: FileMode,
    flags: u64,
) -> Seq<FileRecordV> {
    s.push(failed_record(path, mode, flags))
}

/// The state of the most recent record for `path`, if any.
pub open spec fn path_state_spec(s: Seq<FileRecordV>, path: Seq<char>) -> Option<FileState>
    decreases s.len(),
{
    if s.len() == 0 {
        Option::None
    } else if s.last().path == path {
        Option::Some(s.last().state)
    } else {
        path_state_spec(s.drop_last(), path)
    }
}

/// The open-file table for one traced child, exclusively owned by that
/// child's trace loop.
pub struct ProcessState {
    files: Vec<FileRecord>,
}

impl View for ProcessState {
    type V = Seq<FileRecordV>;

    closed spec fn view(&self) -> Seq<FileRecordV> {
        self.files@.map_values(|r: FileRecord| r@)
    }
}

impl ProcessState {
    /// The table invariant: at most one live `Opened` record per descriptor.
    #[verifier::type_invariant]
    closed spec fn inv(&self) -> bool {
        state_wf(self@)
    }

    /// An empty table: no file activity observed yet.
    pub fn new() -> (r: ProcessState)
        ensures
            r@ == Seq::<FileRecordV>::empty(),
            state_wf(r@),
    {
        let r = ProcessState { files: Vec::new() };
        proof {
            assert(r@ =~= Seq::<FileRecordV>::empty());
        }
        r
    }

    /// How many records the table holds.
    pub fn record_count(&self) -> (n: usize)
        ensures
            n == self@.len(),
    {
        self.files.len()
    }

    /// Borrow the record at index `i`.
    pub fn record_at(&self, i: usize) -> (r: &FileRecord)
        requires
            i < self@.len(),
        ensures
            r@ == self@[i as int],
    {
        &self.files[i]
    }

    /// The index of the live `Opened` record for `fd`, if one exists.
    fn find_open(&self, fd: u64) -> (r: Option<usize>)
        ensures
            match r {
                Option::Some(i) => is_open_slot(self@, fd, i as int) && i == open_slot(self@, fd),
                Option::None => !has_open(self@, fd),
            },
            r is Some <==> has_open(self@, fd),
    {
        proof {
            use_type_invariant(self);
        }
        let n = self.files.len();
        let mut k: usize = 0;
        while k < n
            invariant
                state_wf(self@),
                n == self@.len(),
                k <= n,
                forall|j: int| 0 <= j < k ==> !is_open_slot(self@, fd, j),
            decreases n - k,
        {
            let rec = &self.files[k];
            if (match rec.state {
                FileState::Opened => true,
                _ => false,
            }) && rec.fd == fd {
                proof {
                    assert(is_open_slot(self@, fd, k as int));
                    let c = open_slot(self@, fd);
                    assert(is_open_slot(self@, fd, c));
                    assert(self@[c].fd == fd && self@[k as int].fd == fd);
                    assert(open_slot(self@, fd) == k as int);
                }
                return Some(k);
            }
            k = k + 1;
        }
        proof {
            assert(forall|j: int| 0 <= j < self@.len() ==> !is_open_slot(self@, fd, j));
        }
        None
    }

    /// Record a successful open: upsert a live `Opened` record for `fd`.
    pub fn record_open(&mut self, fd: u64, path: String, mode: FileMode, flags: u64)
        ensures
            final(self)@ == record_open_spec(old(self)@, fd, path@, mode, flags),
            state_wf(old(self)@) && state_wf(final(self)@),
    {
        proof {
            use_type_invariant(&*self);
        }
        let ghost s0 = self@;
        let ghost pathv = path@;
        let rec = FileRecord { state: FileState::Opened, path, mode, flags, fd };
        let slot = self.find_open(fd);
        let mut files: Vec<FileRecord> = Vec::new();
        core::mem::swap(&mut files, &mut self.files);
        match slot {
            Some(i) => {
                files.set(i, rec);
            },
            None => {
                files.push(rec);
            },
        }
        proof {
            lemma_record_open_wf(s0, fd, pathv, mode, flags);
            assert(files@.map_values(|r: FileRecord| r@) =~= record_open_spec(
                s0,
                fd,
                pathv,
                mode,
                flags,
            ));
        }
        self.files = files;
    }

    /// Record a successful close: transition the live record for `fd` to
    /// `Closed`. A close with no matching open is a no-op, never an error:
    /// the open may simply not have been observed.
    pub fn record_close(&mut self, fd: u64)
        ensures
            final(self)@ == record_close_spec(old(self)@, fd),
            !has_open(old(self)@, fd) ==> final(self)@ == old(self)@,
            state_wf(old(self)@) && state_wf(final(self)@),
    {
        proof {
            use_type_invariant(&*self);
        }
        let ghost s0 = self@;
        let slot = self.find_open(fd);
        match slot {
            Some(i) => {
                let old_rec = &self.files[i];
                let rec = FileRecord {
                    state: FileState::Closed,
                    path: old_rec.path.clone(),
                    mode: old_rec.mode,
                    flags: old_rec.flags,
                    fd: old_rec.fd,
                };
                proof {
                    assert(rec@ == (FileRecordV { state: FileState::Closed, ..s0[i as int] }));
                }
                let mut files: Vec<FileRecord> = Vec::new();
                core::mem::swap(&mut files, &mut self.files);
                files.set(i, rec);
                proof {
                    lemma_record_close_wf(s0, fd);
                    assert(files@.map_values(|r: FileRecord| r@) =~= record_close_spec(s0, fd));
                }
                self.files = files;
            },
            None => {},
        }
    }

    /// Record a failed open attempt: append an `OpenFailed` record; such a
    /// record never transitions and disturbs nothing else.
    pub fn record_open_failure(&mut self, path: String, mode: FileMode, flags: u64)
        ensures
            final(self)@ == record_open_failure_spec(old(self)@, path@, mode, flags),
            state_wf(old(self)@) && state_wf(final(self)@),
    {
        proof {
            use_type_invariant(&*self);
        }
        let ghost s0 = self@;
        let ghost pathv = path@;
        let rec = FileRecord { state: FileState::OpenFailed, path, mode, flags, fd: 0 };
        let mut files: Vec<FileRecord> = Vec::new();
        core::mem::swap(&mut files, &mut self.files);
        files.push(rec);
        proof {
            lemma_record_open_failure_wf(s0, pathv, mode, flags);
            assert(files@.map_values(|r: FileRecord| r@) =~= record_open_failure_spec(
                s0,
                pathv,
                mode,
                flags,
            ));
        }
        self.files = files;
    }

    /// The descriptors with a live `Opened` record: every listed descriptor
    /// is open, and every open descriptor is listed.
    pub fn open_fds(&self) -> (r: Vec<u64>)
        ensures
            forall|i: int| 0 <= i < r@.len() ==> has_open(self@, r@[i]),
            forall|fd: u64| has_open(self@, fd) ==> r@.contains(fd),
    {
        let n = self.files.len();
        let mut r: Vec<u64> = Vec::new();
        let mut k: usize = 0;
        while k < n
            invariant
                n == self@.len(),
                k <= n,
                forall|i: int| 0 <= i < r@.len() ==> has_open(self@, r@[i]),
                forall|j: int| 0 <= j < k && self@[j].state == FileState::Opened ==> r@.contains(
                    self@[j].fd,
                ),
            decreases n - k,
        {
            let rec = &self.files[k];
            if (match rec.state {
                FileState::Opened => true,
                _ => false,
            }) {
                let ghost r0 = r@;
                r.push(rec.fd);
                proof {
                    assert(is_open_slot(self@, self@[k as int].fd, k as int));
                    assert(r@[r@.len() - 1] == self@[k as int].fd);
                    assert forall|j: int|
                        0 <= j < k + 1 && self@[j].state == FileState::Opened implies r@.contains(
                        self@[j].fd,
                    ) by {
                        if j < k {
                            let w = choose|w: int| 0 <= w < r0.len() && r0[w] == self@[j].fd;
                            assert(r@[w] == self@[j].fd);
                        } else {
                            assert(r@[r@.len() - 1] == self@[j].fd);
                        }
                    }
                }
            }
            k = k + 1;
        }
        proof {
            assert forall|fd: u64| has_open(self@, fd) implies r@.contains(fd) by {
                let w = choose|w: int| is_open_slot(self@, fd, w);
                assert(self@[w].state == FileState::Opened);
            }
        }
        r
    }

    /// Borrow the live `Opened` record for `fd`, if one exists.
    pub fn lookup_fd(&self, fd: u64) -> (r: Option<&FileRecord>)
        ensures
            match r {
                Option::Some(rec) => has_open(self@, fd) && rec@ == self@[open_slot(self@, fd)],
                Option::None => !has_open(self@, fd),
            },
    {
        match self.find_open(fd) {
            Some(i) => Some(&self.files[i]),
            None => None,
        }
    }

    /// The state of the most recent record for `path`, if any record for it
    /// exists at all.
    pub fn path_state(&self, path: &String) -> (r: Option<FileState>)
        ensures
            r == path_state_spec(self@, path@),
    {
        let n = self.files.len();
        proof {
            assert(self@.take(n as int) =~= self@);
        }
        let mut k: usize = n;
        while k > 0
            invariant
                n == self@.len(),
                k <= n,
                path_state_spec(self@, path@) == path_state_spec(self@.take(k as int), path@),
            decreases k,
        {
            k = k - 1;
            let rec = &self.files[k];
            proof {
                assert(self@.take(k as int + 1).last() == self@[k as int]);
                assert(self@.take(k as int + 1).drop_last() =~= self@.take(k as int));
            }
            if rec.path == *path {
                return Some(rec.state);
            }
        }
        proof {
            assert(self@.take(0) =~= Seq::<FileRecordV>::empty());
        }
        None
    }
}

/// Upserting an `Opened` record preserves the one-live-record-per-descriptor
/// invariant, and afterwards a live record for the descriptor exists.
pub proof fn lemma_record_open_wf(
    s: Seq<FileRecordV>,
    fd: u64,
    path: Seq<char>,
    mode: FileMode,
    flags: u64,
)
    requires
        state_wf(s),
    ensures
        state_wf(record_open_spec(s, fd, path, mode, flags)),
        has_open(record_open_spec(s, fd, path, mode, flags), fd),
{
    let s1 = record_open_spec(s, fd, path, mode, flags);
    if has_open(s, fd) {
        let i = open_slot(s, fd);
        assert(is_open_slot(s, fd, i));
        assert(is_open_slot(s1, fd, i));
        assert forall|a: int, b: int| #![trigger s1[a], s1[b]]
            0 <= a < s1.len() && 0 <= b < s1.len() && a != b implies !(s1[a].state
            == FileState::Opened && s1[b].state == FileState::Opened && s1[a].fd
            == s1[b].fd) by {
            if s1[a].state == FileState::Opened && s1[b].state == FileState::Opened && s1[a].fd
                == s1[b].fd {
                if a != i && b != i {
                    assert(s1[a] == s[a] && s1[b] == s[b]);
                } else if a == i && b != i {
                    assert(s1[b] == s[b]);
                    assert(s[b].state == FileState::Opened && s[b].fd == fd);
                    assert(s[i].state == FileState::Opened && s[i].fd == fd);
                } else if a != i && b == i {
                    assert(s1[a] == s[a]);
                    assert(s[a].state == FileState::Opened && s[a].fd == fd);
                    assert(s[i].state == FileState::Opened && s[i].fd == fd);
                }
            }
        }
    } else {
        let n = s.len() as int;
        assert(is_open_slot(s1, fd, n));
        assert forall|a: int, b: int| #![trigger s1[a], s1[b]]
            0 <= a < s1.len() && 0 <= b < s1.len() && a != b implies !(s1[a].state
            == FileState::Opened && s1[b].state == FileState::Opened && s1[a].fd
            == s1[b].fd) by {
            if s1[a].state == FileState::Opened && s1[b].state == FileState::Opened && s1[a].fd
                == s1[b].fd {
                if a < n && b < n {
                    assert(s1[a] == s[a] && s1[b] == s[b]);
                } else if a == n && b < n {
                    assert(s1[b] == s[b]);
                    assert(is_open_slot(s, fd, b));
                } else if a < n && b == n {
                    assert(s1[a] == s[a]);
                    assert(is_open_slot(s, fd, a));
                }
            }
        }
    }
}

/// Recording a close preserves the invariant, and afterwards no live record
/// for the descriptor remains.
pub proof fn lemma_record_close_wf(s: Seq<FileRecordV>, fd: u64)
    requires
        state_wf(s),
    ensures
        state_wf(record_close_spec(s, fd)),
        !has_open(record_close_spec(s, fd), fd),
{
    let s2 = record_close_spec(s, fd);
    if has_open(s, fd) {
        let i = open_slot(s, fd);
        assert(is_open_slot(s, fd, i));
        assert forall|a: int, b: int| #![trigger s2[a], s2[b]]
            0 <= a < s2.len() && 0 <= b < s2.len() && a != b implies !(s2[a].state
            == FileState::Opened && s2[b].state == FileState::Opened && s2[a].fd
            == s2[b].fd) by {
            if s2[a].state == FileState::Opened && s2[b].state == FileState::Opened && s2[a].fd
                == s2[b].fd {
                assert(a != i && b != i);
                assert(s2[a] == s[a] && s2[b] == s[b]);
            }
        }
        assert forall|j: int| !is_open_slot(s2, fd, j) by {
            if is_open_slot(s2, fd, j) {
                assert(j != i);
                assert(s2[j] == s[j]);
                assert(s[j].state == FileState::Opened && s[j].fd == fd);
                assert(s[i].state == FileState::Opened && s[i].fd == fd);
            }
        }
        if has_open(s2, fd) {
            let w = choose|j: int| is_open_slot(s2, fd, j);
            assert(is_open_slot(s2, fd, w));
        }
    } else {
        if has_open(s2, fd) {
            let w = choose|j: int| is_open_slot(s2, fd, j);
            assert(is_open_slot(s, fd, w));
        }
    }
}

/// Appending an `OpenFailed` record preserves the invariant: the appended
/// record is not live.
pub proof fn lemma_record_open_failure_wf(
    s: Seq<FileRecordV>,
    path: Seq<char>,
    mode: FileMode,
    flags: u64,
)
    requires
        state_wf(s),
    ensures
        state_wf(record_open_failure_spec(s, path, mode, flags)),
{
    let s1 = record_open_failure_spec(s, path, mode, flags);
    let n = s.len() as int;
    assert forall|a: int, b: int| #![trigger s1[a], s1[b]]
        0 <= a < s1.len() && 0 <= b < s1.len() && a != b implies !(s1[a].state
        == FileState::Opened && s1[b].state == FileState::Opened && s1[a].fd == s1[b].fd) by {
        if s1[a].state == FileState::Opened && s1[b].state == FileState::Opened && s1[a].fd
            == s1[b].fd {
            assert(a != n && b != n);
            assert(s1[a] == s[a] && s1[b] == s[b]);
        }
    }
}

/// For any successful open and then close on the same descriptor identity:
/// immediately after the open is recorded, the handle for that descriptor is
/// `Opened` with the recorded path, mode and flags; immediately after the
/// matching close is recorded, that very record is `Closed` with path, mode
/// and flags intact, no live record for the descriptor remains, and records
/// at every other index are untouched by the close.
pub proof fn lemma_open_then_close(
    s: Seq<FileRecordV>,
    fd: u64,
    path: Seq<char>,
    mode: FileMode,
    flags: u64,
)
    requires
        state_wf(s),
    ensures
        ({
            let s1 = record_open_spec(s, fd, path, mode, flags);
            let s2 = record_close_spec(s1, fd);
            let i = open_slot(s1, fd);
            &&& has_open(s1, fd)
            &&& s1[i] == opened_record(fd, path, mode, flags)
            &&& s2[i] == (FileRecordV { state: FileState::Closed, path, mode, flags, fd })
            &&& !has_open(s2, fd)
            &&& s2.len() == s1.len()
            &&& forall|j: int| 0 <= j < s1.len() && j != i ==> s2[j] == s1[j]
        }),
{
    lemma_record_open_wf(s, fd, path, mode, flags);
    let s1 = record_open_spec(s, fd, path, mode, flags);
    let i = open_slot(s1, fd);
    assert(is_open_slot(s1, fd, i));
    if has_open(s, fd) {
        let i0 = open_slot(s, fd);
        assert(is_open_slot(s, fd, i0));
        assert(is_open_slot(s1, fd, i0));
        if i != i0 {
            assert(s1[i0].state == FileState::Opened && s1[i0].fd == fd);
            assert(s1[i].state == FileState::Opened && s1[i].fd == fd);
            assert(false);
        }
        assert(s1[i] == opened_record(fd, path, mode, flags));
    } else {
        let n = s.len() as int;
        if i != n {
            assert(s1[i] == s[i]);
            assert(is_open_slot(s, fd, i));
        }
        assert(s1[i] == opened_record(fd, path, mode, flags));
    }
    lemma_record_close_wf(s1, fd);
}

} // verus!
