//! The engine's view of one traced child: resume-to-stop, register access
//! and remote memory reads, abstracted so that the trace loop and the
//! readers are verified once against the model and can run over the real
//! OS trace facility or over a scripted stand-in.

use vstd::prelude::*;
use crate::memory::{range_bytes, range_readable, MemError};
use crate::registers::RegisterSnapshot;

verus! {

/// Why reading the registers at a stop failed. `ProcessGone` means the
/// child no longer exists, which ends the trace gracefully; anything else
/// is a transient race and the loop continues.
#[derive(Clone, Copy, PartialEq, Eq, Structural, Debug)]
pub enum RegReadError {
    ProcessGone,
    Transient,
}

/// Why driving the child failed: the resume request or the blocking wait on
/// the next stop was refused by the OS.
#[derive(Clone, Copy, PartialEq, Eq, Structural, Debug)]
pub enum TraceError {
    ResumeFailed,
    WaitFailed,
}

/// One traced child, as the engine sees it.
///
/// The model has two halves. `mem` with `mem_reliable` describes the
/// child's readable memory: a reliable target reads exactly the modelled
/// bytes and succeeds exactly on mapped ranges. `stops` with `pos` and
/// `scripted` describe the stop protocol: a scripted target delivers the
/// modelled register snapshots one stop at a time and reports the child
/// gone after the last. A target backed by the real OS facility is neither
/// reliable nor scripted: nothing can be promised of another process, and
/// the contracts then say only what holds of every outcome.
pub trait TraceTarget: Sized {
    /// The child's memory: address to byte, as far as mapped.
    spec fn mem(&self) -> Map<int, u8>;

    /// Whether `mem` is exact, so that reads are pinned by the model.
    spec fn mem_reliable(&self) -> bool;

    /// Whether the stop sequence is pinned by `stops` and `pos`.
    spec fn scripted(&self) -> bool;

    /// The register snapshots delivered at successive stops.
    spec fn stops(&self) -> Seq<RegisterSnapshot>;

    /// How many stops have been delivered so far.
    spec fn pos(&self) -> int;

    /// Read exactly `len` bytes of the child's memory at `base`. A reliable
    /// target succeeds exactly on mapped ranges and returns the modelled
    /// bytes; any target that returns `Ok` returns exactly `len` bytes.
    fn read_chunk(&self, base: usize, len: usize) -> (r: Result<Vec<u8>, MemError>)
        ensures
            match r {
                Ok(v) => v@.len() == len && (self.mem_reliable() ==> range_readable(
                    self.mem(),
                    base as int,
                    len as int,
                ) && v@ == range_bytes(self.mem(), base as int, len as int)),
                Err(_) => self.mem_reliable() ==> !range_readable(
                    self.mem(),
                    base as int,
                    len as int,
                ),
            },
    ;

    /// Ask for the next syscall stop and block until it is delivered. A
    /// scripted target always delivers and advances the stop counter by
    /// one; memory, script and reliability are untouched.
    fn resume_to_stop(&mut self) -> (r: Result<(), TraceError>)
        requires
            old(self).scripted() ==> old(self).pos() <= old(self).stops().len(),
        ensures
            final(self).mem() == old(self).mem(),
            final(self).mem_reliable() == old(self).mem_reliable(),
            final(self).scripted() == old(self).scripted(),
            final(self).stops() == old(self).stops(),
            old(self).scripted() ==> r is Ok && final(self).pos() == old(self).pos() + 1,
    ;

    /// Read the registers at the current stop. Valid only while the child
    /// is stopped; a scripted target returns the snapshot of the current
    /// stop, and reports the child gone once the script is exhausted.
    fn read_registers(&self) -> (r: Result<RegisterSnapshot, RegReadError>)
        requires
            self.scripted() ==> self.pos() >= 1,
        ensures
            self.scripted() ==> match r {
                Ok(snap) => self.pos() - 1 < self.stops().len() && snap == self.stops()[self.pos()
                    - 1],
                Err(e) => e == RegReadError::ProcessGone && self.pos() - 1 >= self.stops().len(),
            },
    ;
}

} // verus!
