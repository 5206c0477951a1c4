//! The process table, the scheduler's steps, the syscall gateway, and the
//! boot sequencer, including the end-to-end scenarios: round-robin
//! re-dispatch under a quantum tick, exit through the gateway, and an
//! unrecognized external interrupt source.

use ltos_core::arch::PrivilegeMode;
use ltos_core::boot::{BootSequencer, BootStep};
use ltos_core::file::File;
use ltos_core::frame::TrapFrame;
use ltos_core::intr::DeviceRoute;
use ltos_core::process::{ProcState, ProcTable};
use ltos_core::sched::{schedule_step, yield_on};
use ltos_core::syscall::{handle_exit, syscall_enter, syscall_finish, SYS_EXIT};
use ltos_core::trap::{supervisor_trap, TrapCause};

const INTERRUPT_BIT: u64 = 1 << 63;

#[test]
fn fresh_table_is_all_unused() {
    let t = ProcTable::new(4);
    assert_eq!(t.len(), 4);
    for i in 0..4 {
        assert_eq!(t.state_of(i), ProcState::Unused);
        assert_eq!(t.owner_of(i), None);
    }
}

#[test]
fn allocation_claims_only_unused_slots() {
    let mut t = ProcTable::new(2);
    assert!(t.allocate(0, 1));
    assert_eq!(t.state_of(0), ProcState::Embryo);
    // the slot is taken now
    assert!(!t.allocate(0, 2));
    assert_eq!(t.state_of(0), ProcState::Embryo);
}

#[test]
fn lifecycle_walks_the_state_machine() {
    let mut t = ProcTable::new(1);
    assert!(t.allocate(0, 9));
    t.make_runnable(0);
    assert_eq!(t.state_of(0), ProcState::Runnable);
    t.dispatch(0, 3);
    assert_eq!(t.state_of(0), ProcState::Running);
    assert_eq!(t.owner_of(0), Some(3));
    t.stop_running(0, ProcState::Sleeping);
    assert_eq!(t.state_of(0), ProcState::Sleeping);
    assert_eq!(t.owner_of(0), None);
    t.wakeup(0);
    assert_eq!(t.state_of(0), ProcState::Runnable);
    t.dispatch(0, 3);
    t.stop_running(0, ProcState::Zombie);
    assert_eq!(t.state_of(0), ProcState::Zombie);
    t.reap(0);
    assert_eq!(t.state_of(0), ProcState::Unused);
}

#[test]
fn scheduler_selects_first_runnable() {
    let mut t = ProcTable::new(3);
    assert!(t.allocate(1, 5));
    t.make_runnable(1);
    assert!(t.allocate(2, 6));
    t.make_runnable(2);
    let picked = schedule_step(&mut t, 0);
    assert_eq!(picked, Some(1));
    assert_eq!(t.state_of(1), ProcState::Running);
    assert_eq!(t.owner_of(1), Some(0));
    // a second hart skips the running process and takes the next
    let picked = schedule_step(&mut t, 1);
    assert_eq!(picked, Some(2));
    assert_eq!(t.owner_of(2), Some(1));
}

#[test]
fn idle_scan_finds_nothing() {
    let mut t = ProcTable::new(2);
    assert_eq!(schedule_step(&mut t, 0), None);
    assert_eq!(yield_on(&mut t, 0), None);
}

#[test]
fn context_switch_never_touches_the_frame() {
    let mut t = ProcTable::new(1);
    assert!(t.allocate(0, 4));
    t.make_runnable(0);
    let mut f = TrapFrame::zeroed();
    f.a0 = 111;
    f.epc = 0x8888;
    t.set_frame(0, f);
    t.dispatch(0, 0);
    assert_eq!(t.frame_of(0), f);
    yield_on(&mut t, 0);
    assert_eq!(t.frame_of(0), f);
    t.dispatch(0, 1);
    assert_eq!(t.frame_of(0), f);
}

#[test]
fn round_robin_redispatches_a_single_ready_process() {
    // two harts, one RUNNABLE process
    let mut t = ProcTable::new(2);
    assert!(t.allocate(0, 1));
    t.make_runnable(0);

    // hart 0's scheduler selects and runs it
    assert_eq!(schedule_step(&mut t, 0), Some(0));
    assert_eq!(schedule_step(&mut t, 1), None);

    // a synthetic quantum tick arrives on hart 0
    let o = supervisor_trap(
        PrivilegeMode::Supervisor, false, INTERRUPT_BIT | 1, 0, None, true);
    assert_eq!(o.fatal, None);
    assert!(o.yield_to_scheduler);

    // the yield leaves the process RUNNABLE and hart 0 free
    assert_eq!(yield_on(&mut t, 0), Some(0));
    assert_eq!(t.state_of(0), ProcState::Runnable);
    assert_eq!(t.owner_of(0), None);

    // the loop re-selects the same process rather than starving it
    assert_eq!(schedule_step(&mut t, 0), Some(0));
    assert_eq!(t.state_of(0), ProcState::Running);
    assert_eq!(t.owner_of(0), Some(0));
}

#[test]
fn exit_syscall_marks_caller_zombie_and_never_yields_again() {
    let mut t = ProcTable::new(2);
    assert!(t.allocate(0, 1));
    t.make_runnable(0);
    assert_eq!(schedule_step(&mut t, 0), Some(0));

    // the trap frame carries the exit syscall number
    let mut f = TrapFrame::zeroed();
    f.a7 = SYS_EXIT;
    f.epc = 0x1000;
    t.set_frame(0, f);

    let mut frame = t.frame_of(0);
    let req = syscall_enter(&mut frame);
    t.set_frame(0, frame);
    assert_eq!(req.number, SYS_EXIT);
    assert_eq!(t.frame_of(0).epc, 0x1004);

    assert_eq!(handle_exit(&mut t, 0), Some(0));
    assert_eq!(t.state_of(0), ProcState::Zombie);
    assert_eq!(t.owner_of(0), None);

    // the zombie never yields to the scheduler again mid-syscall
    assert_eq!(yield_on(&mut t, 0), None);
    assert_eq!(t.state_of(0), ProcState::Zombie);
    // and it is never selected again
    assert_eq!(schedule_step(&mut t, 0), None);
}

#[test]
fn exit_with_no_caller_changes_nothing() {
    let mut t = ProcTable::new(1);
    assert_eq!(handle_exit(&mut t, 0), None);
    assert_eq!(t.state_of(0), ProcState::Unused);
}

#[test]
fn unrecognized_external_source_is_acknowledged_not_fatal() {
    // an external interrupt claims source id 77, which no driver owns
    let o = supervisor_trap(
        PrivilegeMode::Supervisor, false, INTERRUPT_BIT | 9, 0, Some(77), false);
    assert_eq!(o.fatal, None);
    assert_eq!(o.cause, TrapCause::ExternalDevice(77));
    assert_eq!(o.intr.route, Some(DeviceRoute::Unrecognized(77)));
    // acknowledged via claim + complete, with the same id
    assert_eq!(o.intr.complete, Some(77));
    assert!(!o.yield_to_scheduler);
}

#[test]
fn spurious_external_interrupt_is_ignored() {
    let o = supervisor_trap(
        PrivilegeMode::Supervisor, false, INTERRUPT_BIT | 9, 0, None, false);
    assert_eq!(o.fatal, None);
    assert_eq!(o.intr.complete, None);
    assert_eq!(o.intr.route, None);
}

#[test]
fn gateway_advances_pc_and_writes_result() {
    let mut f = TrapFrame::zeroed();
    f.epc = 0x400;
    f.a7 = 63;
    f.a0 = 3;
    f.a1 = 0x5000;
    f.a2 = 128;
    f.a5 = 9;
    let req = syscall_enter(&mut f);
    assert_eq!(req.number, 63);
    assert_eq!(req.arg0, 3);
    assert_eq!(req.arg1, 0x5000);
    assert_eq!(req.arg2, 128);
    assert_eq!(req.arg5, 9);
    assert_eq!(f.epc, 0x404);
    // an error is an ordinary sentinel in the return-value register
    syscall_finish(&mut f, u64::MAX);
    assert_eq!(f.a0, u64::MAX);
    assert_eq!(f.epc, 0x404);
    assert_eq!(f.a7, 63);
}

#[test]
fn boot_readiness_follows_all_global_steps() {
    let mut b = BootSequencer::new();
    assert!(!b.observe_ready());
    let steps = [
        BootStep::Console,
        BootStep::MemoryMap,
        BootStep::Devices,
        BootStep::InterruptController,
        BootStep::ProcessTable,
        BootStep::TrapVector,
    ];
    for s in steps {
        assert!(!b.step_done(s));
        b.complete_step(s);
        assert!(b.step_done(s));
    }
    assert!(!b.observe_ready());
    b.publish_ready();
    // a secondary hart observing true knows global init is complete
    assert!(b.observe_ready());
    for s in steps {
        assert!(b.step_done(s));
    }
}

#[test]
fn file_variants_are_distinct() {
    let d = File::Device(1);
    let f = File::FsFile(1);
    assert_ne!(d, f);
    assert_eq!(File::Pipe, File::Pipe);
    assert!(matches!(d, File::Device(1)));
}
