//! The per-hart round-robin scheduler's decision steps: one pass of the
//! selection loop, and the yield a preempted process takes.  The spin when
//! nothing is runnable, the address-space install and the register switch
//! are the shell's work; the decisions and the table changes are here.

use vstd::prelude::*;
use crate::arch::PrivilegeMode;
use crate::frame::TrapFrame;
use crate::intr::SSI_CODE;
use crate::process::{
    Process, ProcTable, ProcState, hart_idle, table_wf,
    spec_dispatch, spec_stop_running,
};
use crate::trap::{DecodedCause, spec_supervisor_trap};

verus! {

/// One pass of hart `h`'s scheduler loop over the table: linearly scan for
/// a RUNNABLE process; on a hit mark it RUNNING and owned by `h`.  Returns
/// the selected index, or `None` when nothing was runnable and the hart
/// will spin until the next scan.  The selected process's trap frame is not
/// touched.
pub fn schedule_step(t: &mut ProcTable, h: u64) -> (r: Option<usize>)
    requires
        old(t).wf(),
        hart_idle(old(t)@, h),
    ensures
        final(t).wf(),
        match r {
            Some(i) => i < old(t)@.len()
                && old(t)@[i as int].state == ProcState::Runnable
                && (forall|j: int| 0 <= j < i ==>
                    (#[trigger] old(t)@[j].state) != ProcState::Runnable)
                && final(t)@ == spec_dispatch(old(t)@, i as int, h)
                && final(t)@[i as int].state == ProcState::Running
                && final(t)@[i as int].owner == Some(h)
                && final(t)@[i as int].frame == old(t)@[i as int].frame,
            None => (forall|j: int| 0 <= j < old(t)@.len() ==>
                (#[trigger] old(t)@[j].state) != ProcState::Runnable)
                && final(t)@ == old(t)@,
        },
{
    match t.select_runnable() {
        Some(i) => {
            t.dispatch(i, h);
            Some(i)
        }
        None => None,
    }
}

/// The voluntary or preemptive yield on hart `h`: the process RUNNING there
/// re-enters RUNNABLE and frees the hart, so the hart's scheduler loop can
/// select again — after a quantum tick this is what makes scheduling
/// round-robin.  With no process running on `h` (the trap interrupted the
/// scheduler itself) nothing changes.  The yielded process's trap frame is
/// not touched.
pub fn yield_on(t: &mut ProcTable, h: u64) -> (r: Option<usize>)
    requires
        old(t).wf(),
    ensures
        final(t).wf(),
        match r {
            Some(i) => i < old(t)@.len()
                && old(t)@[i as int].state == ProcState::Running
                && old(t)@[i as int].owner == Some(h)
                && final(t)@ == spec_stop_running(old(t)@, i as int, ProcState::Runnable)
                && final(t)@[i as int].state == ProcState::Runnable
                && final(t)@[i as int].frame == old(t)@[i as int].frame
                && hart_idle(final(t)@, h),
            None => hart_idle(old(t)@, h) && final(t)@ == old(t)@,
        },
{
    match t.running_on(h) {
        Some(i) => {
            t.stop_running(i, ProcState::Runnable);
            proof {
                assert(old(t)@[i as int].owner->0 == h);
            }
            Some(i)
        }
        None => None,
    }
}

/// Saved register state round-trips through a context switch: the trap
/// frame a process last wrote is exactly what the next trap on its hart
/// reads back, because neither being scheduled in nor stopping — by yield,
/// sleep or exit — touches it.
pub proof fn lemma_frame_round_trip(
    s: Seq<Process>,
    i: int,
    h: u64,
    f: TrapFrame,
    to: ProcState,
)
    requires
        0 <= i < s.len(),
    ensures
        ({
            let written = s.update(i, Process { frame: f, ..s[i] });
            let dispatched = spec_dispatch(written, i, h);
            let stopped = spec_stop_running(dispatched, i, to);
            dispatched[i].frame == f && stopped[i].frame == f
        }),
{
}

/// Preemption liveness: a quantum tick taken in supervisor mode while hart
/// `h` owns a RUNNING process decides a yield, and the yield leaves that
/// process RUNNABLE and the hart free to re-enter its scheduler loop.
pub proof fn lemma_timer_preemption(
    s: Seq<Process>,
    i: int,
    h: u64,
    d: DecodedCause,
    tval: u64,
)
    requires
        table_wf(s),
        0 <= i < s.len(),
        s[i].state == ProcState::Running,
        s[i].owner == Some(h),
        d.is_interrupt,
        d.code == SSI_CODE,
    ensures
        spec_supervisor_trap(PrivilegeMode::Supervisor, false, d, tval, None, true)
            .yield_to_scheduler,
        spec_stop_running(s, i, ProcState::Runnable)[i].state == ProcState::Runnable,
        hart_idle(spec_stop_running(s, i, ProcState::Runnable), h),
{
    let s1 = spec_stop_running(s, i, ProcState::Runnable);
    assert forall|j: int| 0 <= j < s1.len() implies
        !((#[trigger] s1[j].state) == ProcState::Running && s1[j].owner == Some(h)) by {
        if j != i && s1[j].state == ProcState::Running {
            assert(s[j].state == ProcState::Running);
            assert(s[j].owner != s[i].owner);
        }
    }
}

} // verus!
