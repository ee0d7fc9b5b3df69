//! Register snapshots taken at syscall stops.

use vstd::prelude::*;

verus! {

/// The traced child's registers as captured at a syscall stop: the syscall
/// id, the six argument registers, and the value of the return register
/// (meaningful only at an exit stop).
#[derive(Clone, Copy, PartialEq, Eq, Structural, Debug)]
pub struct RegisterSnapshot {
    pub syscall_id: u64,
    pub arg0: u64,
    pub arg1: u64,
    pub arg2: u64,
    pub arg3: u64,
    pub arg4: u64,
    pub arg5: u64,
    pub ret: u64,
}

impl RegisterSnapshot {
    /// A snapshot with every register zeroed; a convenient base for building
    /// entry snapshots by hand.
    pub fn zeroed() -> (r: RegisterSnapshot)
        ensures
            r == (RegisterSnapshot {
                syscall_id: 0,
                arg0: 0,
                arg1: 0,
                arg2: 0,
                arg3: 0,
                arg4: 0,
                arg5: 0,
                ret: 0,
            }),
    {
        RegisterSnapshot { syscall_id: 0, arg0: 0, arg1: 0, arg2: 0, arg3: 0, arg4: 0, arg5: 0, ret: 0 }
    }
}

} // verus!
