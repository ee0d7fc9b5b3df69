//! The OS-backed trace target: drives a real child through the kernel's
//! trace facility. Nothing can be promised of another process, so this
//! target is neither scripted nor memory-reliable: the engine's contracts
//! then state only what holds of every outcome, and the trace still runs.

use vstd::prelude::*;
use crate::memory::MemError;
use crate::registers::RegisterSnapshot;
use crate::target::{RegReadError, TraceError, TraceTarget};

verus! {

/// One real traced child, by process id. Valid only for a child that is
/// already traced and stopped, as the attach controller hands it over.
pub struct PtraceTarget {
    pub pid: i32,
}

impl PtraceTarget {
    /// The target for an attached, stopped child with the given process id.
    pub fn new(pid: i32) -> (r: PtraceTarget)
        ensures
            r.pid == pid,
            !r.scripted(),
            !r.mem_reliable(),
    {
        PtraceTarget { pid }
    }
}

/// Relies on nix's process_vm_readv: reads from the child's address space
/// at `base` into a buffer of exactly `len` bytes, returning how many
/// bytes were transferred, which is never more than asked for.
#[verifier::external_body]
fn vm_read_raw(pid: i32, base: usize, len: usize) -> (r: Result<(Vec<u8>, usize), MemError>)
    ensures
        match r {
            Ok(p) => p.0@.len() == len && p.1 <= len,
            Err(_) => true,
        },
{
    let mut buf: Vec<u8> = vec![0u8; len];
    let remote = nix::sys::uio::RemoteIoVec { base, len };
    let res = {
        let mut local = [std::io::IoSliceMut::new(buf.as_mut_slice())];
        nix::sys::uio::process_vm_readv(nix::unistd::Pid::from_raw(pid), &mut local, &[remote])
    };
    match res {
        Ok(n) => Ok((buf, n)),
        Err(_) => Err(MemError::ReadFailed),
    }
}

/// Relies on nix's ptrace::syscall: asks the OS to run the child until its
/// next syscall-entry or syscall-exit stop, delivering no signal.
#[verifier::external_body]
fn ptrace_syscall_step(pid: i32) -> (r: Result<(), TraceError>) {
    match nix::sys::ptrace::syscall(
        nix::unistd::Pid::from_raw(pid),
        Option::<nix::sys::signal::Signal>::None,
    ) {
        Ok(()) => Ok(()),
        Err(_) => Err(TraceError::ResumeFailed),
    }
}

/// Relies on nix's waitpid: blocks until the child changes state, which
/// after a resume request is the delivery of the next stop.
#[verifier::external_body]
pub fn wait_child(pid: i32) -> (r: Result<(), TraceError>) {
    match nix::sys::wait::waitpid(nix::unistd::Pid::from_raw(pid), None) {
        Ok(_) => Ok(()),
        Err(_) => Err(TraceError::WaitFailed),
    }
}

/// Relies on nix's ptrace::getregs: captures the stopped child's register
/// file; an ESRCH error means the child no longer exists, anything else is
/// a transient failure.
#[verifier::external_body]
fn getregs_snapshot(pid: i32) -> (r: Result<RegisterSnapshot, RegReadError>) {
    match nix::sys::ptrace::getregs(nix::unistd::Pid::from_raw(pid)) {
        Ok(g) => Ok(RegisterSnapshot {
            syscall_id: g.orig_rax,
            arg0: g.rdi,
            arg1: g.rsi,
            arg2: g.rdx,
            arg3: g.r10,
            arg4: g.r8,
            arg5: g.r9,
            ret: g.rax,
        }),
        Err(nix::errno::Errno::ESRCH) => Err(RegReadError::ProcessGone),
        Err(_) => Err(RegReadError::Transient),
    }
}

impl TraceTarget for PtraceTarget {
    closed spec fn mem(&self) -> Map<int, u8> {
        Map::empty()
    }

    closed spec fn mem_reliable(&self) -> bool {
        false
    }

    closed spec fn scripted(&self) -> bool {
        false
    }

    closed spec fn stops(&self) -> Seq<RegisterSnapshot> {
        Seq::empty()
    }

    closed spec fn pos(&self) -> int {
        0
    }

    fn read_chunk(&self, base: usize, len: usize) -> (r: Result<Vec<u8>, MemError>) {
        match vm_read_raw(self.pid, base, len) {
            Ok((buf, n)) => {
                if n == len {
                    Ok(buf)
                } else {
                    Err(MemError::ReadFailed)
                }
            },
            Err(e) => Err(e),
        }
    }

    fn resume_to_stop(&mut self) -> (r: Result<(), TraceError>) {
        match ptrace_syscall_step(self.pid) {
            Ok(()) => {},
            Err(e) => {
                return Err(e);
            },
        }
        wait_child(self.pid)
    }

    fn read_registers(&self) -> (r: Result<RegisterSnapshot, RegReadError>) {
        getregs_snapshot(self.pid)
    }
}

} // verus!
