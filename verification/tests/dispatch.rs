//! Trap decoding, classification and the two dispatch layers, on concrete
//! cause values.

use ltos_core::arch::{build_satp, status_intr_enabled, status_prev_mode, PrivilegeMode};
use ltos_core::clint::{timer_program, timer_rearm, CLINT_MTIMECMP, SCHEDULER_INTERVAL};
use ltos_core::intr::{intr_step, route_source, DeviceRoute, Intr};
use ltos_core::trap::{
    classify, decode_cause, machine_trap, supervisor_trap, DecodedCause, FatalReason,
    FaultPolicy, PageFaultKind, TrapCause,
};

const INTERRUPT_BIT: u64 = 1 << 63;

#[test]
fn decode_splits_interrupt_flag_and_code() {
    let d = decode_cause(INTERRUPT_BIT | 9);
    assert!(d.is_interrupt);
    assert_eq!(d.code, 9);

    let d = decode_cause(13);
    assert!(!d.is_interrupt);
    assert_eq!(d.code, 13);

    // only the low twelve bits belong to the cause number
    let d = decode_cause(0x5000 | 2);
    assert_eq!(d.code, 2);
}

#[test]
fn classify_timer_and_syscall() {
    let timer = classify(decode_cause(INTERRUPT_BIT | 1), 0, None);
    assert_eq!(timer, TrapCause::Timer);

    let user = classify(decode_cause(8), 0, None);
    assert_eq!(user, TrapCause::Syscall);
    let sup = classify(decode_cause(9), 0, None);
    assert_eq!(sup, TrapCause::Syscall);
}

#[test]
fn classify_page_faults_carry_kind_and_address() {
    let f = classify(decode_cause(12), 0x4000, None);
    assert_eq!(f, TrapCause::PageFault(PageFaultKind::Instruction, 0x4000));
    let f = classify(decode_cause(13), 0xdead, None);
    assert_eq!(f, TrapCause::PageFault(PageFaultKind::Load, 0xdead));
    let f = classify(decode_cause(15), 0xbeef, None);
    assert_eq!(f, TrapCause::PageFault(PageFaultKind::Store, 0xbeef));
}

#[test]
fn classify_illegal_and_unknown() {
    assert_eq!(classify(decode_cause(2), 0, None), TrapCause::IllegalInstruction);
    assert_eq!(classify(decode_cause(7), 0, None), TrapCause::Unknown(7));
    assert_eq!(
        classify(DecodedCause { is_interrupt: true, code: 4 }, 0, None),
        TrapCause::Unknown(4)
    );
}

#[test]
fn classify_external_uses_claimed_source() {
    let c = classify(decode_cause(INTERRUPT_BIT | 9), 0, Some(10));
    assert_eq!(c, TrapCause::ExternalDevice(10));
    // nothing claimed: a spurious external interrupt is not a device trap
    let c = classify(decode_cause(INTERRUPT_BIT | 9), 0, None);
    assert_eq!(c, TrapCause::Unknown(9));
}

#[test]
fn route_known_and_unknown_sources() {
    assert_eq!(route_source(10), DeviceRoute::Uart);
    assert_eq!(route_source(1), DeviceRoute::Virtio);
    assert_eq!(route_source(77), DeviceRoute::Unrecognized(77));
}

#[test]
fn intr_step_acknowledges_exactly_the_claimed_id() {
    let s = intr_step(true, 9, Some(3));
    assert_eq!(s.summary, Some(Intr::Device));
    assert_eq!(s.route, Some(DeviceRoute::Unrecognized(3)));
    assert_eq!(s.complete, Some(3));
    assert!(!s.clear_soft_pending);

    let s = intr_step(true, 9, None);
    assert_eq!(s.summary, Some(Intr::Device));
    assert_eq!(s.route, None);
    assert_eq!(s.complete, None);
}

#[test]
fn intr_step_timer_clears_soft_pending() {
    let s = intr_step(true, 1, None);
    assert_eq!(s.summary, Some(Intr::Timer));
    assert!(s.clear_soft_pending);
    assert_eq!(s.complete, None);
}

#[test]
fn machine_trap_timer_rearms() {
    let o = machine_trap(0x1000, 0, INTERRUPT_BIT | 7, FaultPolicy::SkipInstruction);
    assert_eq!(o.fatal, None);
    assert!(o.rearm_timer);
    assert_eq!(o.return_pc, 0x1000);
    assert!(!o.enter_syscall);
}

#[test]
fn machine_trap_software_and_external_resume() {
    let o = machine_trap(0x80, 0, INTERRUPT_BIT | 3, FaultPolicy::SkipInstruction);
    assert_eq!(o.fatal, None);
    assert_eq!(o.return_pc, 0x80);
    let o = machine_trap(0x80, 0, INTERRUPT_BIT | 11, FaultPolicy::SkipInstruction);
    assert_eq!(o.fatal, None);
    assert_eq!(o.return_pc, 0x80);
}

#[test]
fn machine_trap_unhandled_interrupt_is_fatal() {
    let o = machine_trap(0, 0, INTERRUPT_BIT | 5, FaultPolicy::SkipInstruction);
    assert_eq!(o.fatal, Some(FatalReason::UnhandledTrap(5)));
}

#[test]
fn machine_trap_syscall_enters_gateway() {
    let o = machine_trap(0x2000, 0, 8, FaultPolicy::SkipInstruction);
    assert_eq!(o.fatal, None);
    assert!(o.enter_syscall);
    // the gateway, not the dispatcher, advances the program counter
    assert_eq!(o.return_pc, 0x2000);
    assert_eq!(o.cause, TrapCause::Syscall);

    let o = machine_trap(0x2000, 0, 9, FaultPolicy::SkipInstruction);
    assert!(o.enter_syscall);
}

#[test]
fn machine_trap_fatal_causes() {
    let o = machine_trap(0, 0, 2, FaultPolicy::SkipInstruction);
    assert_eq!(o.fatal, Some(FatalReason::IllegalInstruction));
    let o = machine_trap(0, 0, 11, FaultPolicy::SkipInstruction);
    assert_eq!(o.fatal, Some(FatalReason::MachineModeSyscall));
    let o = machine_trap(0, 0, 14, FaultPolicy::SkipInstruction);
    assert_eq!(o.fatal, Some(FatalReason::UnhandledTrap(14)));
}

#[test]
fn machine_trap_page_fault_dispositions() {
    let o = machine_trap(0x3000, 0x9999, 13, FaultPolicy::SkipInstruction);
    assert_eq!(o.fatal, None);
    assert_eq!(o.return_pc, 0x3004);
    assert!(!o.terminate_process);
    assert_eq!(o.cause, TrapCause::PageFault(PageFaultKind::Load, 0x9999));

    let o = machine_trap(0x3000, 0x9999, 15, FaultPolicy::TerminateProcess);
    assert_eq!(o.fatal, None);
    assert!(o.terminate_process);
    assert_eq!(o.return_pc, 0x3000);
}

#[test]
fn supervisor_trap_entry_guards_are_fatal() {
    let o = supervisor_trap(PrivilegeMode::User, false, INTERRUPT_BIT | 1, 0, None, false);
    assert_eq!(o.fatal, Some(FatalReason::PrivilegeMismatch));

    let o = supervisor_trap(PrivilegeMode::Supervisor, true, INTERRUPT_BIT | 1, 0, None, false);
    assert_eq!(o.fatal, Some(FatalReason::InterruptsEnabled));
}

#[test]
fn supervisor_trap_sync_causes_have_no_handler() {
    let o = supervisor_trap(PrivilegeMode::Supervisor, false, 8, 0, None, false);
    assert_eq!(o.fatal, Some(FatalReason::UnhandledTrap(8)));
    let o = supervisor_trap(PrivilegeMode::Supervisor, false, 2, 0, None, false);
    assert_eq!(o.fatal, Some(FatalReason::UnhandledTrap(2)));
}

#[test]
fn supervisor_trap_timer_yields_only_with_a_running_process() {
    let o = supervisor_trap(PrivilegeMode::Supervisor, false, INTERRUPT_BIT | 1, 0, None, true);
    assert_eq!(o.fatal, None);
    assert!(o.yield_to_scheduler);
    assert!(o.intr.clear_soft_pending);

    let o = supervisor_trap(PrivilegeMode::Supervisor, false, INTERRUPT_BIT | 1, 0, None, false);
    assert_eq!(o.fatal, None);
    assert!(!o.yield_to_scheduler);
}

#[test]
fn status_bits_decode() {
    assert_eq!(status_prev_mode(0x100), PrivilegeMode::Supervisor);
    assert_eq!(status_prev_mode(0x0), PrivilegeMode::User);
    assert!(status_intr_enabled(0x2));
    assert!(!status_intr_enabled(0x100));
}

#[test]
fn satp_encoding_exact_value() {
    let v = build_satp(8, 0, 0x8020_0000);
    assert_eq!(v, 0x8000_0000_0008_0200);
    // the address-space id is masked to sixteen bits
    let v = build_satp(8, 0x1_0001, 0x8020_0000);
    assert_eq!(v, 0x8000_1000_0008_0200);
    let v = build_satp(0, 0, 0);
    assert_eq!(v, 0);
}

#[test]
fn clint_timer_compare_addresses() {
    assert_eq!(CLINT_MTIMECMP(0), 0x200_4000);
    assert_eq!(CLINT_MTIMECMP(1), 0x200_4008);
    assert_eq!(CLINT_MTIMECMP(7), 0x200_4038);
}

#[test]
fn timer_program_and_rearm() {
    let p = timer_program(2, 500);
    assert_eq!(p.mtimecmp_addr, 0x200_4010);
    assert_eq!(p.compare, 500 + SCHEDULER_INTERVAL);
    assert_eq!(p.scratch_cmp_addr, p.mtimecmp_addr);
    assert_eq!(p.scratch_interval, SCHEDULER_INTERVAL);

    assert_eq!(timer_rearm(1_000), 1_000 + SCHEDULER_INTERVAL);
}
