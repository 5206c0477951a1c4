//! The syscall gateway: on a syscall trap it advances the saved user
//! program counter past the call instruction, reads the syscall number and
//! argument registers out of the trap frame, and later writes the handler's
//! result into the frame's return-value register.  Errors are ordinary
//! sentinel values in that register; the gateway does not interpret syscall
//! semantics, except that an exit marks the calling process ZOMBIE.

use vstd::prelude::*;
use crate::frame::TrapFrame;
use crate::process::{ProcTable, ProcState, hart_idle, spec_stop_running};

verus! {

/// Syscall number of exit.
pub const SYS_EXIT: u64 = 2;

/// The decoded request handed to the external syscall table: the number and
/// the six argument registers.
#[derive(Clone, Copy, PartialEq, Eq, Structural, Debug)]
pub struct SyscallRequest {
    /// The syscall number, from register a7.
    pub number: u64,
    /// Argument register a0.
    pub arg0: u64,
    /// Argument register a1.
    pub arg1: u64,
    /// Argument register a2.
    pub arg2: u64,
    /// Argument register a3.
    pub arg3: u64,
    /// Argument register a4.
    pub arg4: u64,
    /// Argument register a5.
    pub arg5: u64,
}

/// Enters the gateway: advances the saved program counter past the
/// four-byte call instruction — so resumption does not re-execute it — and
/// decodes the number and arguments.  Nothing else in the frame changes.
pub fn syscall_enter(frame: &mut TrapFrame) -> (req: SyscallRequest)
    requires
        old(frame).epc + 4 <= u64::MAX,
    ensures
        *final(frame) == (TrapFrame { epc: (old(frame).epc + 4) as u64, ..*old(frame) }),
        req == (SyscallRequest {
            number: old(frame).a7,
            arg0: old(frame).a0,
            arg1: old(frame).a1,
            arg2: old(frame).a2,
            arg3: old(frame).a3,
            arg4: old(frame).a4,
            arg5: old(frame).a5,
        }),
{
    frame.epc = frame.epc + 4;
    SyscallRequest {
        number: frame.a7,
        arg0: frame.a0,
        arg1: frame.a1,
        arg2: frame.a2,
        arg3: frame.a3,
        arg4: frame.a4,
        arg5: frame.a5,
    }
}

/// Writes the handler's result into the return-value register a0.  There is
/// no separate fault channel: an error is whatever sentinel the handler
/// chose.  Nothing else in the frame changes.
pub fn syscall_finish(frame: &mut TrapFrame, result: u64)
    ensures
        *final(frame) == (TrapFrame { a0: result, ..*old(frame) }),
{
    frame.a0 = result;
}

/// Handles an exit request on hart `h`: the calling process — the one
/// RUNNING on `h` — becomes ZOMBIE and gives its hart up, so it can never
/// be selected or yielded again.  Returns the index of the exited process.
/// With no process running on `h` there is no caller to exit and the table
/// is untouched.
pub fn handle_exit(t: &mut ProcTable, h: u64) -> (r: Option<usize>)
    requires
        old(t).wf(),
    ensures
        final(t).wf(),
        match r {
            Some(i) => i < old(t)@.len()
                && old(t)@[i as int].state == ProcState::Running
                && old(t)@[i as int].owner == Some(h)
                && final(t)@ == spec_stop_running(old(t)@, i as int, ProcState::Zombie)
                && final(t)@[i as int].state == ProcState::Zombie
                && hart_idle(final(t)@, h),
            None => hart_idle(old(t)@, h) && final(t)@ == old(t)@,
        },
{
    match t.running_on(h) {
        Some(i) => {
            t.stop_running(i, ProcState::Zombie);
            proof {
                assert(old(t)@[i as int].owner == Some(h));
                assert(old(t)@[i as int].owner->0 == h);
            }
            Some(i)
        }
        None => None,
    }
}

} // verus!
