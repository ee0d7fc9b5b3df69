//! The syscall configuration and dispatch table: syscall id to handler
//! pair, built once per child and read-only while tracing. The pre-handler
//! resolves pointer arguments out of the stopped child and hands a typed
//! context across the stop boundary; the post-handler folds the observed
//! outcome into the file table. An id with no entry dispatches to a
//! pass-through pair that touches nothing.

use vstd::prelude::*;
use crate::file_state::{
    record_close_spec, record_open_failure_spec, record_open_spec, FileMode, FileRecordV,
    ProcessState,
};
use crate::memory::{cstr_scan, lossy_decode, read_c_string, ScanResult, CSTR_CHUNK, CSTR_MAX};
use crate::registers::RegisterSnapshot;
use crate::target::TraceTarget;

verus! {

/// The syscall numbers the default table registers handlers for.
pub const SYSCALL_OPEN: u64 = 2;

pub const SYSCALL_CLOSE: u64 = 3;

pub const SYSCALL_OPENAT: u64 = 257;

/// The handler pair a config entry selects: resolve and record an open (by
/// path or by directory descriptor and path), or record a close.
#[derive(Clone, Copy, PartialEq, Eq, Structural, Debug)]
pub enum SyscallKind {
    Open,
    OpenAt,
    Close,
}

/// One row of the table: a syscall id and the handler pair for it.
#[derive(Clone, Copy, PartialEq, Eq, Structural, Debug)]
pub struct ConfigEntry {
    pub id: u64,
    pub kind: SyscallKind,
}

/// The handler pair for `id`: the first matching row wins, and an id with
/// no row resolves to the pass-through pair.
pub open spec fn spec_lookup(s: Seq<ConfigEntry>, id: u64) -> Option<SyscallKind>
    decreases s.len(),
{
    if s.len() == 0 {
        Option::None
    } else if s[0].id == id {
        Option::Some(s[0].kind)
    } else {
        spec_lookup(s.drop_first(), id)
    }
}

/// The syscall configuration table for one child.
pub struct SyscallConfigMap {
    entries: Vec<ConfigEntry>,
}

impl View for SyscallConfigMap {
    type V = Seq<ConfigEntry>;

    closed spec fn view(&self) -> Seq<ConfigEntry> {
        self.entries@
    }
}

impl SyscallConfigMap {
    /// An empty table: every id dispatches to the pass-through pair.
    pub fn new() -> (r: SyscallConfigMap)
        ensures
            r@ == Seq::<ConfigEntry>::empty(),
    {
        let r = SyscallConfigMap { entries: Vec::new() };
        proof {
            assert(r@ =~= Seq::<ConfigEntry>::empty());
        }
        r
    }

    /// Append a row. Rows are consulted front to back, so an id already
    /// present keeps its earlier handler pair.
    pub fn register(&mut self, id: u64, kind: SyscallKind)
        ensures
            final(self)@ == old(self)@.push(ConfigEntry { id, kind }),
    {
        self.entries.push(ConfigEntry { id, kind });
    }

    /// The handler pair for `id`, if one is registered.
    pub fn lookup(&self, id: u64) -> (r: Option<SyscallKind>)
        ensures
            r == spec_lookup(self@, id),
    {
        let n = self.entries.len();
        proof {
            assert(self@.skip(0) =~= self@);
        }
        let mut k: usize = 0;
        while k < n
            invariant
                n == self@.len(),
                k <= n,
                spec_lookup(self@, id) == spec_lookup(self@.skip(k as int), id),
            decreases n - k,
        {
            proof {
                assert(self@.skip(k as int)[0] == self@[k as int]);
                assert(self@.skip(k as int).drop_first() =~= self@.skip(k as int + 1));
            }
            if self.entries[k].id == id {
                return Some(self.entries[k].kind);
            }
            k = k + 1;
        }
        proof {
            assert(self@.skip(n as int) =~= Seq::<ConfigEntry>::empty());
        }
        None
    }

    /// The default table: handlers for open, openat and close, the calls
    /// the file model is built from.
    pub fn default_config() -> (r: SyscallConfigMap)
        ensures
            r@ == seq![
                ConfigEntry { id: SYSCALL_OPEN, kind: SyscallKind::Open },
                ConfigEntry { id: SYSCALL_OPENAT, kind: SyscallKind::OpenAt },
                ConfigEntry { id: SYSCALL_CLOSE, kind: SyscallKind::Close },
            ],
    {
        let mut r = SyscallConfigMap::new();
        r.register(SYSCALL_OPEN, SyscallKind::Open);
        r.register(SYSCALL_OPENAT, SyscallKind::OpenAt);
        r.register(SYSCALL_CLOSE, SyscallKind::Close);
        proof {
            assert(r@ =~= seq![
                ConfigEntry { id: SYSCALL_OPEN, kind: SyscallKind::Open },
                ConfigEntry { id: SYSCALL_OPENAT, kind: SyscallKind::OpenAt },
                ConfigEntry { id: SYSCALL_CLOSE, kind: SyscallKind::Close },
            ]);
        }
        r
    }
}

/// The typed context a pre-handler hands to the matching post-handler for
/// the same syscall instance: an open's resolved path and mode, a close's
/// descriptor, or nothing for a pass-through.
pub enum Handoff {
    OpenCtx { path: String, mode: FileMode, flags: u64 },
    CloseCtx { fd: u64 },
    Passthrough,
}

/// The mathematical image of a `Handoff`.
pub enum HandoffV {
    OpenCtx { path: Seq<char>, mode: FileMode, flags: u64 },
    CloseCtx { fd: u64 },
    Passthrough,
}

impl View for Handoff {
    type V = HandoffV;

    open spec fn view(&self) -> HandoffV {
        match self {
            Handoff::OpenCtx { path, mode, flags } => HandoffV::OpenCtx {
                path: path@,
                mode: *mode,
                flags: *flags,
            },
            Handoff::CloseCtx { fd } => HandoffV::CloseCtx { fd: *fd },
            Handoff::Passthrough => HandoffV::Passthrough,
        }
    }
}

/// The access mode encoded in the low bits of the open flags.
pub open spec fn mode_of_flags(flags: u64) -> FileMode {
    if flags & 3 == 0 {
        FileMode::ReadOnly
    } else if flags & 3 == 1 {
        FileMode::WriteOnly
    } else {
        FileMode::ReadWrite
    }
}

/// Decode the access mode bits of the open flags.
pub fn decode_mode(flags: u64) -> (m: FileMode)
    ensures
        m == mode_of_flags(flags),
{
    let acc = flags & 3;
    if acc == 0 {
        FileMode::ReadOnly
    } else if acc == 1 {
        FileMode::WriteOnly
    } else {
        FileMode::ReadWrite
    }
}

/// What the open pre-handler produces from a path pointer and the open
/// flags, over the child memory model: the decoded path when the C-string
/// scan finds one, and a pass-through when the pointer cannot be resolved,
/// which keeps a failed remote read local to this one syscall.
pub open spec fn open_handoff(m: Map<int, u8>, addr: u64, flags: u64) -> HandoffV {
    if addr + CSTR_MAX + CSTR_CHUNK <= usize::MAX {
        match cstr_scan(m, addr as int, CSTR_CHUNK as int, CSTR_MAX as int) {
            ScanResult::Found(prefix) => HandoffV::OpenCtx {
                path: lossy_decode(prefix),
                mode: mode_of_flags(flags),
                flags,
            },
            _ => HandoffV::Passthrough,
        }
    } else {
        HandoffV::Passthrough
    }
}

/// What pre-dispatch produces for an entry snapshot: the handler pair is
/// looked up by syscall id; an unregistered id yields the pass-through
/// context and touches nothing.
pub open spec fn pre_spec(cfg: Seq<ConfigEntry>, m: Map<int, u8>, regs: RegisterSnapshot) -> HandoffV {
    match spec_lookup(cfg, regs.syscall_id) {
        Option::Some(SyscallKind::Open) => open_handoff(m, regs.arg0, regs.arg1),
        Option::Some(SyscallKind::OpenAt) => open_handoff(m, regs.arg1, regs.arg2),
        Option::Some(SyscallKind::Close) => HandoffV::CloseCtx { fd: regs.arg0 },
        Option::None => HandoffV::Passthrough,
    }
}

/// Resolve an open call at entry: read the path argument out of the
/// stopped child and decode the access mode.
fn resolve_open<T: TraceTarget>(target: &T, addr: u64, flags: u64) -> (h: Handoff)
    ensures
        target.mem_reliable() ==> h@ == open_handoff(target.mem(), addr, flags),
{
    if addr > (usize::MAX - CSTR_MAX - CSTR_CHUNK) as u64 {
        return Handoff::Passthrough;
    }
    let base = addr as usize;
    match read_c_string(target, base) {
        Ok(path) => Handoff::OpenCtx { path, mode: decode_mode(flags), flags },
        Err(_) => Handoff::Passthrough,
    }
}

/// Pre-dispatch at a syscall entry stop: look the id up, let the handler
/// resolve pointer arguments while the child is stopped, and produce the
/// handoff for the exit stop. The file table is readable here but is never
/// changed, and an unregistered id produces the pass-through handoff.
pub fn dispatch_pre<T: TraceTarget>(
    conf: &SyscallConfigMap,
    _state: &ProcessState,
    target: &T,
    regs: &RegisterSnapshot,
) -> (h: Handoff)
    ensures
        target.mem_reliable() ==> h@ == pre_spec(conf@, target.mem(), *regs),
        spec_lookup(conf@, regs.syscall_id) is None ==> h@ == HandoffV::Passthrough,
        spec_lookup(conf@, regs.syscall_id) == Option::Some(SyscallKind::Close) ==> h@
            == (HandoffV::CloseCtx { fd: regs.arg0 }),
{
    match conf.lookup(regs.syscall_id) {
        Some(SyscallKind::Open) => resolve_open(target, regs.arg0, regs.arg1),
        Some(SyscallKind::OpenAt) => resolve_open(target, regs.arg1, regs.arg2),
        Some(SyscallKind::Close) => Handoff::CloseCtx { fd: regs.arg0 },
        None => Handoff::Passthrough,
    }
}

/// Success of an open as reported in the return register: a nonnegative
/// value is the new descriptor, a negative one an error code.
pub open spec fn ret_ok(ret: u64) -> bool {
    ret <= i64::MAX as u64
}

/// What post-dispatch does to the file table: record the outcome the exit
/// snapshot shows for the context the pre-handler resolved, and nothing at
/// all for a pass-through.
pub open spec fn post_spec(s: Seq<FileRecordV>, h: HandoffV, regs: RegisterSnapshot) -> Seq<
    FileRecordV,
> {
    match h {
        HandoffV::OpenCtx { path, mode, flags } => if ret_ok(regs.ret) {
            record_open_spec(s, regs.ret, path, mode, flags)
        } else {
            record_open_failure_spec(s, path, mode, flags)
        },
        HandoffV::CloseCtx { fd } => if regs.ret == 0 {
            record_close_spec(s, fd)
        } else {
            s
        },
        HandoffV::Passthrough => s,
    }
}

/// Post-dispatch at a syscall exit stop: fold the observed outcome into
/// the file table. A successful open upserts an `Opened` record under the
/// returned descriptor, a failed open records `OpenFailed`, a successful
/// close transitions the matching record to `Closed`, and a pass-through
/// or failed close leaves the table exactly as it was.
pub fn dispatch_post(h: Handoff, state: &mut ProcessState, regs: &RegisterSnapshot)
    ensures
        final(state)@ == post_spec(old(state)@, h@, *regs),
{
    match h {
        Handoff::OpenCtx { path, mode, flags } => {
            if regs.ret <= 0x7fff_ffff_ffff_ffff {
                state.record_open(regs.ret, path, mode, flags);
            } else {
                state.record_open_failure(path, mode, flags);
            }
        },
        Handoff::CloseCtx { fd } => {
            if regs.ret == 0 {
                state.record_close(fd);
            }
        },
        Handoff::Passthrough => {},
    }
}

/// For any syscall id with no config entry, a full pre/post dispatch round
/// is inert: the pre-handler produces the pass-through handoff and the
/// post-handler leaves every record of the file table exactly as it was.
/// The engine never writes the child's registers, so an unregistered id
/// changes no register either.
pub proof fn lemma_unconfigured_dispatch(
    cfg: Seq<ConfigEntry>,
    m: Map<int, u8>,
    s: Seq<FileRecordV>,
    entry: RegisterSnapshot,
    exit: RegisterSnapshot,
)
    requires
        spec_lookup(cfg, entry.syscall_id) is None,
    ensures
        pre_spec(cfg, m, entry) == HandoffV::Passthrough,
        post_spec(s, pre_spec(cfg, m, entry), exit) == s,
{
}

} // verus!
