//! The trace loop: one stop/resume cycle per syscall, dispatching the
//! pre-handler at the entry stop and the post-handler at the exit stop,
//! until the child's termination is detected.

use vstd::prelude::*;
use crate::dispatch::{
    dispatch_post, dispatch_pre, post_spec, pre_spec, ConfigEntry, SyscallConfigMap, SyscallKind,
    SYSCALL_CLOSE, SYSCALL_OPEN, SYSCALL_OPENAT,
};
use crate::file_state::{state_wf, FileRecordV, ProcessState};
use crate::registers::RegisterSnapshot;
use crate::target::{RegReadError, TraceTarget};

verus! {

/// What one syscall round reported: the trace goes on, the child is gone
/// (the graceful end), or the OS refused to drive the child.
#[derive(Clone, Copy, PartialEq, Eq, Structural, Debug)]
pub enum RoundOutcome {
    Continue,
    ChildExited,
    DriveFailed,
}

/// How a whole trace ended: the child terminated, the OS refused to drive
/// it, or the caller's round budget ran out while the child lived on.
#[derive(Clone, Copy, PartialEq, Eq, Structural, Debug)]
pub enum TraceOutcome {
    ChildExited,
    DriveFailed,
    RoundsExhausted,
}

/// The effect of one complete syscall round on the file table: the handoff
/// the pre-handler resolves at the entry stop, folded in by the
/// post-handler with the exit snapshot.
pub open spec fn round_spec(
    s: Seq<FileRecordV>,
    cfg: Seq<ConfigEntry>,
    m: Map<int, u8>,
    entry: RegisterSnapshot,
    exit: RegisterSnapshot,
) -> Seq<FileRecordV> {
    post_spec(s, pre_spec(cfg, m, entry), exit)
}

/// The file table after the first `k` complete syscall rounds of a stop
/// script: stops `2i` and `2i + 1` are round `i`'s entry and exit
/// snapshots.
pub open spec fn run_fold(
    s: Seq<FileRecordV>,
    cfg: Seq<ConfigEntry>,
    m: Map<int, u8>,
    stops: Seq<RegisterSnapshot>,
    k: int,
) -> Seq<FileRecordV>
    decreases k,
{
    if k <= 0 {
        s
    } else {
        round_spec(
            run_fold(s, cfg, m, stops, k - 1),
            cfg,
            m,
            stops[2 * (k - 1)],
            stops[2 * k - 1],
        )
    }
}

/// One tracing engine: the file table and the configuration table for
/// exactly one child, exclusively owned here for the child's lifetime.
pub struct TraceEngine {
    pub state: ProcessState,
    pub config: SyscallConfigMap,
}

impl TraceEngine {
    /// A fresh engine for one child, with an empty file table.
    pub fn new(config: SyscallConfigMap) -> (r: TraceEngine)
        ensures
            r.state@ == Seq::<FileRecordV>::empty(),
            state_wf(r.state@),
            r.config@ == config@,
    {
        TraceEngine { state: ProcessState::new(), config }
    }

    /// One syscall round. Idle to PreStop: ask for the next stop and wait.
    /// PreStop: read the entry snapshot and run the pre-handler; a read
    /// reporting the child gone ends the trace, any other read failure is
    /// a transient race and skips the round. PreStop to PostStop: resume
    /// into the call and wait. PostStop: read the exit snapshot and run
    /// the post-handler, with the same failure policy.
    ///
    /// Over a scripted target the round is pinned: it consumes the next
    /// entry/exit pair of the script and, when memory is also reliable,
    /// applies exactly the dispatch round to the file table; once the
    /// script is exhausted it reports the child exited and changes
    /// nothing.
    pub fn run_round<T: TraceTarget>(&mut self, target: &mut T) -> (r: RoundOutcome)
        requires
            old(target).scripted() ==> 0 <= old(target).pos() <= old(target).stops().len(),
        ensures
            final(self).config@ == old(self).config@,
            final(target).mem() == old(target).mem(),
            final(target).stops() == old(target).stops(),
            final(target).scripted() == old(target).scripted(),
            final(target).mem_reliable() == old(target).mem_reliable(),
            old(target).scripted() ==> ({
                let p = old(target).pos();
                let stops = old(target).stops();
                if p == stops.len() {
                    r == RoundOutcome::ChildExited && final(self).state@ == old(self).state@
                        && final(target).pos() == p + 1
                } else if p + 1 == stops.len() {
                    r == RoundOutcome::ChildExited && final(self).state@ == old(self).state@
                        && final(target).pos() == p + 2
                } else {
                    r == RoundOutcome::Continue && final(target).pos() == p + 2 && (old(
                        target,
                    ).mem_reliable() ==> final(self).state@ == round_spec(
                        old(self).state@,
                        old(self).config@,
                        old(target).mem(),
                        stops[p],
                        stops[p + 1],
                    ))
                }
            }),
    {
        // Idle -> PreStop: request the next syscall stop and wait for it.
        match target.resume_to_stop() {
            Ok(()) => {},
            Err(_) => {
                return RoundOutcome::DriveFailed;
            },
        }
        // PreStop: read the entry snapshot.
        let entry = match target.read_registers() {
            Ok(snap) => snap,
            Err(RegReadError::ProcessGone) => {
                return RoundOutcome::ChildExited;
            },
            Err(RegReadError::Transient) => {
                return RoundOutcome::Continue;
            },
        };
        let handoff = dispatch_pre(&self.config, &self.state, &*target, &entry);
        // PreStop -> Running -> PostStop: resume into the call and wait.
        match target.resume_to_stop() {
            Ok(()) => {},
            Err(_) => {
                return RoundOutcome::DriveFailed;
            },
        }
        // PostStop: read the exit snapshot and fold the outcome in.
        match target.read_registers() {
            Ok(exit) => {
                dispatch_post(handoff, &mut self.state, &exit);
                RoundOutcome::Continue
            },
            Err(RegReadError::ProcessGone) => RoundOutcome::ChildExited,
            Err(RegReadError::Transient) => RoundOutcome::Continue,
        }
    }

    /// Drive the child, one syscall round after the other, until its
    /// termination is detected or `max_rounds` rounds have been spent.
    /// The budget is a hardening bound for callers that cannot afford to
    /// block without end; a caller that wants the baseline behaviour of
    /// waiting as long as the child lives keeps calling `run_round`.
    ///
    /// Over a scripted target with a large enough budget the trace always
    /// ends with the child exited, and when memory is also reliable the
    /// file table is exactly the fold of the dispatch rounds over the
    /// script.
    pub fn run<T: TraceTarget>(&mut self, target: &mut T, max_rounds: usize) -> (r: TraceOutcome)
        requires
            old(target).scripted() ==> old(target).pos() == 0,
        ensures
            final(self).config@ == old(self).config@,
            old(target).scripted() && 2 * (max_rounds as int) > old(target).stops().len() ==> r
                == TraceOutcome::ChildExited,
            old(target).scripted() && 2 * (max_rounds as int) > old(target).stops().len() && old(
                target,
            ).mem_reliable() ==> final(self).state@ == run_fold(
                old(self).state@,
                old(self).config@,
                old(target).mem(),
                old(target).stops(),
                old(target).stops().len() as int / 2,
            ),
    {
        let ghost cfg = self.config@;
        let ghost s0 = self.state@;
        let ghost m = target.mem();
        let ghost stops = target.stops();
        let ghost scripted = target.scripted();
        let ghost rel = target.mem_reliable();
        let mut i: usize = 0;
        while i < max_rounds
            invariant
                cfg == old(self).config@,
                s0 == old(self).state@,
                m == old(target).mem(),
                stops == old(target).stops(),
                scripted == old(target).scripted(),
                rel == old(target).mem_reliable(),
                self.config@ == cfg,
                target.mem() == m,
                target.stops() == stops,
                target.scripted() == scripted,
                target.mem_reliable() == rel,
                i <= max_rounds,
                scripted ==> target.pos() == 2 * i && 2 * i <= stops.len(),
                scripted && rel ==> self.state@ == run_fold(s0, cfg, m, stops, i as int),
            decreases max_rounds - i,
        {
            let ghost p = target.pos();
            match self.run_round(target) {
                RoundOutcome::Continue => {
                    proof {
                        if scripted {
                            assert(p + 1 < stops.len());
                            assert(run_fold(s0, cfg, m, stops, i + 1) == round_spec(
                                run_fold(s0, cfg, m, stops, i as int),
                                cfg,
                                m,
                                stops[2 * (i as int)],
                                stops[2 * (i as int) + 1],
                            ));
                        }
                    }
                    i = i + 1;
                },
                RoundOutcome::ChildExited => {
                    proof {
                        if scripted {
                            assert(stops.len() == 2 * i || stops.len() == 2 * i + 1);
                            assert(stops.len() as int / 2 == i as int);
                        }
                    }
                    return TraceOutcome::ChildExited;
                },
                RoundOutcome::DriveFailed => {
                    return TraceOutcome::DriveFailed;
                },
            }
        }
        proof {
            if scripted {
                assert(2 * (max_rounds as int) <= stops.len());
            }
        }
        TraceOutcome::RoundsExhausted
    }
}

/// Trace one child with the default configuration until its termination is
/// detected or the round budget runs out: the engine owns a fresh file
/// table, observes every syscall, and is handed back for inspection.
pub fn child_loop<T: TraceTarget>(target: &mut T, max_rounds: usize) -> (r: (
    TraceEngine,
    TraceOutcome,
))
    requires
        old(target).scripted() ==> old(target).pos() == 0,
    ensures
        r.0.config@ == seq![
            ConfigEntry { id: SYSCALL_OPEN, kind: SyscallKind::Open },
            ConfigEntry { id: SYSCALL_OPENAT, kind: SyscallKind::OpenAt },
            ConfigEntry { id: SYSCALL_CLOSE, kind: SyscallKind::Close },
        ],
        old(target).scripted() && 2 * (max_rounds as int) > old(target).stops().len() ==> r.1
            == TraceOutcome::ChildExited,
        old(target).scripted() && 2 * (max_rounds as int) > old(target).stops().len() && old(
            target,
        ).mem_reliable() ==> r.0.state@ == run_fold(
            Seq::<FileRecordV>::empty(),
            r.0.config@,
            old(target).mem(),
            old(target).stops(),
            old(target).stops().len() as int / 2,
        ),
{
    let mut engine = TraceEngine::new(SyscallConfigMap::default_config());
    let outcome = engine.run(target, max_rounds);
    (engine, outcome)
}

} // verus!
