//! The trap dispatcher: decoding a raw cause register, classifying the
//! trap, and the dispatch decisions of the machine-mode and supervisor-mode
//! layers.  The layers here compute decisions only; reading the cause
//! registers, acknowledging hardware and switching contexts is the shell's
//! work.

use vstd::prelude::*;
use crate::arch::PrivilegeMode;
use crate::intr::{IntrStep, spec_intr_step, intr_step, SEI_CODE, SSI_CODE};

verus! {

/// Synchronous-cause code: illegal instruction.
pub const ILLEGAL_INSTRUCTION_CODE: u64 = 2;

/// Synchronous-cause code: syscall from user mode.
pub const ECALL_USER_CODE: u64 = 8;

/// Synchronous-cause code: syscall from supervisor mode.
pub const ECALL_SUPERVISOR_CODE: u64 = 9;

/// Synchronous-cause code: syscall from machine mode — always unexpected.
pub const ECALL_MACHINE_CODE: u64 = 11;

/// Synchronous-cause code: instruction page fault.
pub const INSTRUCTION_PAGE_FAULT_CODE: u64 = 12;

/// Synchronous-cause code: load page fault.
pub const LOAD_PAGE_FAULT_CODE: u64 = 13;

/// Synchronous-cause code: store page fault.
pub const STORE_PAGE_FAULT_CODE: u64 = 15;

/// Asynchronous-cause code: machine software interrupt.
pub const MSI_CODE: u64 = 3;

/// Asynchronous-cause code: machine timer interrupt.
pub const MTI_CODE: u64 = 7;

/// Asynchronous-cause code: machine external interrupt.
pub const MEI_CODE: u64 = 11;

/// A raw cause register split into its interrupt flag and cause number.
#[derive(Clone, Copy, PartialEq, Eq, Structural, Debug)]
pub struct DecodedCause {
    /// Set for an asynchronous trap (interrupt), clear for a synchronous one.
    pub is_interrupt: bool,
    /// The cause number, narrowed out of the low bits.
    pub code: u64,
}

/// The interrupt flag is the top bit of the cause register; the cause
/// number lives in the low twelve bits.
pub open spec fn spec_decode_cause(bits: u64) -> DecodedCause {
    DecodedCause { is_interrupt: (bits >> 63) & 1 == 1, code: bits & 0xfff }
}

/// Splits a raw cause register into interrupt flag and cause number.
pub fn decode_cause(bits: u64) -> (d: DecodedCause)
    ensures
        d == spec_decode_cause(bits),
{
    DecodedCause { is_interrupt: (bits >> 63) & 1 == 1, code: bits & 0xfff }
}

/// The kind of a page fault, from its synchronous cause code.
#[derive(Clone, Copy, PartialEq, Eq, Structural, Debug)]
pub enum PageFaultKind {
    /// Fault fetching an instruction.
    Instruction,
    /// Fault on a load.
    Load,
    /// Fault on a store.
    Store,
}

/// Decoded classification of a trap, produced by the dispatcher and
/// consumed by handler logic.
#[derive(Clone, Copy, PartialEq, Eq, Structural, Debug)]
pub enum TrapCause {
    /// The scheduling-quantum tick.
    Timer,
    /// A device interrupt from the given claimed source id.
    ExternalDevice(u64),
    /// A syscall from user or supervisor mode.
    Syscall,
    /// A page fault of the given kind at the given address.
    PageFault(PageFaultKind, u64),
    /// An illegal instruction.
    IllegalInstruction,
    /// Anything else, carrying its cause number.
    Unknown(u64),
}

/// Classification of a decoded trap.  `claim` is what the external
/// controller's claim returned when the cause is an external interrupt; a
/// spurious external interrupt (nothing claimed) is reported as `Unknown`.
pub open spec fn spec_classify(d: DecodedCause, tval: u64, claim: Option<u64>) -> TrapCause {
    if d.is_interrupt {
        if d.code == SSI_CODE {
            TrapCause::Timer
        } else if d.code == SEI_CODE {
            match claim {
                Some(id) => TrapCause::ExternalDevice(id),
                None => TrapCause::Unknown(d.code),
            }
        } else {
            TrapCause::Unknown(d.code)
        }
    } else {
        if d.code == ILLEGAL_INSTRUCTION_CODE {
            TrapCause::IllegalInstruction
        } else if d.code == ECALL_USER_CODE || d.code == ECALL_SUPERVISOR_CODE {
            TrapCause::Syscall
        } else if d.code == INSTRUCTION_PAGE_FAULT_CODE {
            TrapCause::PageFault(PageFaultKind::Instruction, tval)
        } else if d.code == LOAD_PAGE_FAULT_CODE {
            TrapCause::PageFault(PageFaultKind::Load, tval)
        } else if d.code == STORE_PAGE_FAULT_CODE {
            TrapCause::PageFault(PageFaultKind::Store, tval)
        } else {
            TrapCause::Unknown(d.code)
        }
    }
}

/// Classifies a decoded trap; see [`spec_classify`].
pub fn classify(d: DecodedCause, tval: u64, claim: Option<u64>) -> (c: TrapCause)
    ensures
        c == spec_classify(d, tval, claim),
{
    if d.is_interrupt {
        if d.code == SSI_CODE {
            TrapCause::Timer
        } else if d.code == SEI_CODE {
            match claim {
                Some(id) => TrapCause::ExternalDevice(id),
                None => TrapCause::Unknown(d.code),
            }
        } else {
            TrapCause::Unknown(d.code)
        }
    } else {
        if d.code == ILLEGAL_INSTRUCTION_CODE {
            TrapCause::IllegalInstruction
        } else if d.code == ECALL_USER_CODE || d.code == ECALL_SUPERVISOR_CODE {
            TrapCause::Syscall
        } else if d.code == INSTRUCTION_PAGE_FAULT_CODE {
            TrapCause::PageFault(PageFaultKind::Instruction, tval)
        } else if d.code == LOAD_PAGE_FAULT_CODE {
            TrapCause::PageFault(PageFaultKind::Load, tval)
        } else if d.code == STORE_PAGE_FAULT_CODE {
            TrapCause::PageFault(PageFaultKind::Store, tval)
        } else {
            TrapCause::Unknown(d.code)
        }
    }
}

/// Why the whole machine halts: violated trap-entry preconditions or causes
/// with no recovery path.  There is no per-process fault isolation at this
/// layer.
#[derive(Clone, Copy, PartialEq, Eq, Structural, Debug)]
pub enum FatalReason {
    /// The previous privilege level was not the expected one: a
    /// save/restore defect.
    PrivilegeMismatch,
    /// Local interrupts were found enabled on trap entry.
    InterruptsEnabled,
    /// An illegal instruction was executed.
    IllegalInstruction,
    /// A syscall trapped in from machine mode.
    MachineModeSyscall,
    /// A cause number no handler recognizes.
    UnhandledTrap(u64),
}

/// What becomes of the context that took a page fault.  The disposition is
/// an explicit policy choice handed to the dispatcher.
#[derive(Clone, Copy, PartialEq, Eq, Structural, Debug)]
pub enum FaultPolicy {
    /// Log the fault and resume past the faulting instruction.
    SkipInstruction,
    /// Deliver the fault: the faulting process is terminated.
    TerminateProcess,
}

/// The machine-mode dispatch decision for one trap.
#[derive(Clone, Copy, PartialEq, Eq, Structural, Debug)]
pub struct MachineTrapOutcome {
    /// The trap's classification.
    pub cause: TrapCause,
    /// Set when the machine halts; nothing else in the outcome is acted on.
    pub fatal: Option<FatalReason>,
    /// The program counter to resume at.
    pub return_pc: u64,
    /// Route to the syscall gateway before resuming.
    pub enter_syscall: bool,
    /// Program the timer-compare register one quantum ahead.
    pub rearm_timer: bool,
    /// Terminate the interrupted process (page fault under the terminate
    /// policy) instead of resuming it.
    pub terminate_process: bool,
}

/// The machine-mode trap layer's decision table, over the decoded cause.
///
/// Asynchronous: a machine timer tick re-arms the compare register; machine
/// software and machine external interrupts are acknowledged and resumed;
/// anything else halts.  Synchronous: syscalls from user or supervisor mode
/// enter the gateway (which advances the program counter itself); an
/// illegal instruction or a machine-mode syscall halts; a page fault is
/// disposed of by the explicit policy — skipped by advancing past the
/// faulting instruction, or delivered by terminating the process.
pub open spec fn spec_machine_trap(
    epc: u64,
    tval: u64,
    d: DecodedCause,
    policy: FaultPolicy,
) -> MachineTrapOutcome {
    let cause = spec_classify(d, tval, None);
    let base = MachineTrapOutcome {
        cause,
        fatal: None,
        return_pc: epc,
        enter_syscall: false,
        rearm_timer: false,
        terminate_process: false,
    };
    if d.is_interrupt {
        if d.code == MSI_CODE || d.code == MEI_CODE {
            base
        } else if d.code == MTI_CODE {
            MachineTrapOutcome { rearm_timer: true, ..base }
        } else {
            MachineTrapOutcome { fatal: Some(FatalReason::UnhandledTrap(d.code)), ..base }
        }
    } else {
        if d.code == ILLEGAL_INSTRUCTION_CODE {
            MachineTrapOutcome { fatal: Some(FatalReason::IllegalInstruction), ..base }
        } else if d.code == ECALL_USER_CODE || d.code == ECALL_SUPERVISOR_CODE {
            MachineTrapOutcome { enter_syscall: true, ..base }
        } else if d.code == ECALL_MACHINE_CODE {
            MachineTrapOutcome { fatal: Some(FatalReason::MachineModeSyscall), ..base }
        } else if d.code == INSTRUCTION_PAGE_FAULT_CODE || d.code == LOAD_PAGE_FAULT_CODE
            || d.code == STORE_PAGE_FAULT_CODE {
            match policy {
                FaultPolicy::SkipInstruction => MachineTrapOutcome {
                    return_pc: (epc + 4) as u64,
                    ..base
                },
                FaultPolicy::TerminateProcess => MachineTrapOutcome {
                    terminate_process: true,
                    ..base
                },
            }
        } else {
            MachineTrapOutcome { fatal: Some(FatalReason::UnhandledTrap(d.code)), ..base }
        }
    }
}

/// Decides the machine-mode handling of one trap; see [`spec_machine_trap`].
/// A halt is decided exactly for an illegal instruction, a machine-mode
/// syscall, or a cause number outside the decision table.
pub fn machine_trap(epc: u64, tval: u64, cause_bits: u64, policy: FaultPolicy)
    -> (o: MachineTrapOutcome)
    requires
        epc + 4 <= u64::MAX,
    ensures
        o == spec_machine_trap(epc, tval, spec_decode_cause(cause_bits), policy),
        o.fatal is None <==> {
            let d = spec_decode_cause(cause_bits);
            if d.is_interrupt {
                d.code == MSI_CODE || d.code == MTI_CODE || d.code == MEI_CODE
            } else {
                d.code == ECALL_USER_CODE || d.code == ECALL_SUPERVISOR_CODE
                    || d.code == INSTRUCTION_PAGE_FAULT_CODE || d.code == LOAD_PAGE_FAULT_CODE
                    || d.code == STORE_PAGE_FAULT_CODE
            }
        },
{
    let d = decode_cause(cause_bits);
    let cause = classify(d, tval, None);
    let base = MachineTrapOutcome {
        cause,
        fatal: None,
        return_pc: epc,
        enter_syscall: false,
        rearm_timer: false,
        terminate_process: false,
    };
    if d.is_interrupt {
        if d.code == MSI_CODE || d.code == MEI_CODE {
            base
        } else if d.code == MTI_CODE {
            MachineTrapOutcome { rearm_timer: true, ..base }
        } else {
            MachineTrapOutcome { fatal: Some(FatalReason::UnhandledTrap(d.code)), ..base }
        }
    } else {
        if d.code == ILLEGAL_INSTRUCTION_CODE {
            MachineTrapOutcome { fatal: Some(FatalReason::IllegalInstruction), ..base }
        } else if d.code == ECALL_USER_CODE || d.code == ECALL_SUPERVISOR_CODE {
            MachineTrapOutcome { enter_syscall: true, ..base }
        } else if d.code == ECALL_MACHINE_CODE {
            MachineTrapOutcome { fatal: Some(FatalReason::MachineModeSyscall), ..base }
        } else if d.code == INSTRUCTION_PAGE_FAULT_CODE || d.code == LOAD_PAGE_FAULT_CODE
            || d.code == STORE_PAGE_FAULT_CODE {
            match policy {
                FaultPolicy::SkipInstruction => MachineTrapOutcome {
                    return_pc: epc + 4,
                    ..base
                },
                FaultPolicy::TerminateProcess => MachineTrapOutcome {
                    terminate_process: true,
                    ..base
                },
            }
        } else {
            MachineTrapOutcome { fatal: Some(FatalReason::UnhandledTrap(d.code)), ..base }
        }
    }
}

/// The supervisor-mode dispatch decision for one trap.
#[derive(Clone, Copy, PartialEq, Eq, Structural, Debug)]
pub struct SupervisorTrapOutcome {
    /// The trap's classification.
    pub cause: TrapCause,
    /// Set when the machine halts; nothing else in the outcome is acted on.
    pub fatal: Option<FatalReason>,
    /// What the device-interrupt handler decided: driver to invoke,
    /// source id to acknowledge, pending bit to clear.
    pub intr: IntrStep,
    /// Yield the current process — RUNNING becomes RUNNABLE — before
    /// resuming, so the hart re-enters its scheduler loop.
    pub yield_to_scheduler: bool,
}

/// The supervisor-mode trap layer's decision table.
///
/// Entry preconditions first: the trap must have come from supervisor mode
/// with local interrupts disabled; a violation signals a save/restore
/// defect and halts.  Then asynchronous causes go through the
/// device-interrupt step, and a quantum tick received while the hart owns a
/// RUNNING process yields it.  A synchronous trap reaching this layer has
/// no handler and halts.
pub open spec fn spec_supervisor_trap(
    prev_mode: PrivilegeMode,
    intr_enabled: bool,
    d: DecodedCause,
    tval: u64,
    claim: Option<u64>,
    have_running: bool,
) -> SupervisorTrapOutcome {
    let cause = spec_classify(d, tval, claim);
    let idle_step = IntrStep {
        summary: None,
        route: None,
        complete: None,
        clear_soft_pending: false,
    };
    if prev_mode != PrivilegeMode::Supervisor {
        SupervisorTrapOutcome {
            cause,
            fatal: Some(FatalReason::PrivilegeMismatch),
            intr: idle_step,
            yield_to_scheduler: false,
        }
    } else if intr_enabled {
        SupervisorTrapOutcome {
            cause,
            fatal: Some(FatalReason::InterruptsEnabled),
            intr: idle_step,
            yield_to_scheduler: false,
        }
    } else if d.is_interrupt {
        let step = spec_intr_step(d.is_interrupt, d.code, claim);
        if step.summary is None {
            SupervisorTrapOutcome {
                cause,
                fatal: Some(FatalReason::UnhandledTrap(d.code)),
                intr: idle_step,
                yield_to_scheduler: false,
            }
        } else {
            SupervisorTrapOutcome {
                cause,
                fatal: None,
                intr: step,
                yield_to_scheduler: step.summary == Some(crate::intr::Intr::Timer)
                    && have_running,
            }
        }
    } else {
        SupervisorTrapOutcome {
            cause,
            fatal: Some(FatalReason::UnhandledTrap(d.code)),
            intr: idle_step,
            yield_to_scheduler: false,
        }
    }
}

/// Decides the supervisor-mode handling of one trap; see
/// [`spec_supervisor_trap`].  `have_running` says whether the hart owns a
/// RUNNING process; on a quantum tick that process is yielded, which is how
/// preemptive round-robin scheduling happens.  Success is owed exactly when
/// the entry preconditions hold and the cause is a recognized interrupt.
pub fn supervisor_trap(
    prev_mode: PrivilegeMode,
    intr_enabled: bool,
    cause_bits: u64,
    tval: u64,
    claim: Option<u64>,
    have_running: bool,
) -> (o: SupervisorTrapOutcome)
    ensures
        o == spec_supervisor_trap(
            prev_mode, intr_enabled, spec_decode_cause(cause_bits), tval, claim, have_running),
        o.fatal is None <==> {
            let d = spec_decode_cause(cause_bits);
            prev_mode == PrivilegeMode::Supervisor && !intr_enabled && d.is_interrupt
                && (d.code == SSI_CODE || d.code == SEI_CODE)
        },
        o.fatal is None && spec_decode_cause(cause_bits).code == SSI_CODE && have_running
            ==> o.yield_to_scheduler,
{
    let d = decode_cause(cause_bits);
    let cause = classify(d, tval, claim);
    let idle_step = IntrStep {
        summary: None,
        route: None,
        complete: None,
        clear_soft_pending: false,
    };
    if !matches!(prev_mode, PrivilegeMode::Supervisor) {
        SupervisorTrapOutcome {
            cause,
            fatal: Some(FatalReason::PrivilegeMismatch),
            intr: idle_step,
            yield_to_scheduler: false,
        }
    } else if intr_enabled {
        SupervisorTrapOutcome {
            cause,
            fatal: Some(FatalReason::InterruptsEnabled),
            intr: idle_step,
            yield_to_scheduler: false,
        }
    } else if d.is_interrupt {
        let step = intr_step(d.is_interrupt, d.code, claim);
        match step.summary {
            None => SupervisorTrapOutcome {
                cause,
                fatal: Some(FatalReason::UnhandledTrap(d.code)),
                intr: idle_step,
                yield_to_scheduler: false,
            },
            Some(s) => SupervisorTrapOutcome {
                cause,
                fatal: None,
                intr: step,
                yield_to_scheduler: matches!(s, crate::intr::Intr::Timer) && have_running,
            },
        }
    } else {
        SupervisorTrapOutcome {
            cause,
            fatal: Some(FatalReason::UnhandledTrap(d.code)),
            intr: idle_step,
            yield_to_scheduler: false,
        }
    }
}

} // verus!
