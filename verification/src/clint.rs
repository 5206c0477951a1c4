//! Core-local interrupter: the memory map of the per-hart timer-compare
//! registers and the values a hart programs at boot for its scheduling
//! quantum.

#![allow(non_snake_case)]

use vstd::prelude::*;

verus! {

/// Number of harts the machine is configured for.
pub const NCPUS: u64 = 8;

/// Base of the core-local interrupter's register block.
pub const CLINT_BASE: u64 = 0x200_0000;

/// Base of the per-hart timer-compare registers.
pub const CLINT_MTIMECMP_BASE: u64 = CLINT_BASE + 0x4000;

/// Address of the free-running time register.
pub const CLINT_MTIME_BASE: u64 = CLINT_BASE + 0xbff8;

/// Ticks of the time register between two scheduling-quantum interrupts.
pub const SCHEDULER_INTERVAL: u64 = 10_000_000;

/// Address of the given hart's timer-compare register: one 8-byte register
/// per hart, laid out consecutively from the block base.
pub fn CLINT_MTIMECMP(hart: u64) -> (addr: u64)
    requires
        hart < NCPUS,
    ensures
        addr == CLINT_MTIMECMP_BASE + 8 * hart,
{
    CLINT_MTIMECMP_BASE + 8 * hart
}

/// Everything a hart writes when it arms its quantum timer at boot: the
/// compare register to program, the value to program it with, and the two
/// scratch slots the lowest-level machine-trap stub reads to re-arm.
pub struct TimerProgram {
    /// Address of this hart's timer-compare register.
    pub mtimecmp_addr: u64,
    /// First firing: the current time plus one quantum.
    pub compare: u64,
    /// Scratch slot three: the compare-register address, for the trap stub.
    pub scratch_cmp_addr: u64,
    /// Scratch slot four: the quantum, for the trap stub's re-arm.
    pub scratch_interval: u64,
}

/// Computes what the one-time per-hart timer setup writes, from the hart's
/// identity and the current value of the time register.
pub fn timer_program(hart: u64, now: u64) -> (p: TimerProgram)
    requires
        hart < NCPUS,
        now + SCHEDULER_INTERVAL <= u64::MAX,
    ensures
        p.mtimecmp_addr == CLINT_MTIMECMP_BASE + 8 * hart,
        p.compare == now + SCHEDULER_INTERVAL,
        p.scratch_cmp_addr == p.mtimecmp_addr,
        p.scratch_interval == SCHEDULER_INTERVAL,
{
    let addr = CLINT_MTIMECMP(hart);
    TimerProgram {
        mtimecmp_addr: addr,
        compare: now + SCHEDULER_INTERVAL,
        scratch_cmp_addr: addr,
        scratch_interval: SCHEDULER_INTERVAL,
    }
}

/// Re-arming after a quantum fires programs the compare register one quantum
/// past the current time, never into the past.
pub fn timer_rearm(now: u64) -> (compare: u64)
    requires
        now + SCHEDULER_INTERVAL <= u64::MAX,
    ensures
        compare == now + SCHEDULER_INTERVAL,
        compare > now,
{
    now + SCHEDULER_INTERVAL
}

} // verus!
