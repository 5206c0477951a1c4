//! The trap frame: the fixed-layout register snapshot written by the
//! low-level entry code on a user-to-kernel transition and consumed on the
//! way back out.  The scheduler's context switch never touches it; only the
//! trap entry/exit path and the syscall gateway do.

use vstd::prelude::*;

verus! {

/// Saved register snapshot exchanged at the user/kernel boundary.
///
/// The model carries the registers the kernel itself reads or writes: the
/// eight argument registers of the calling convention, the saved user
/// program counter, the address-space register, the kernel stack pointer to
/// install on the next entry, and the hart the frame was saved on.
#[derive(Clone, Copy, PartialEq, Eq, Structural, Debug)]
pub struct TrapFrame {
    /// Argument/return register a0.
    pub a0: u64,
    /// Argument register a1.
    pub a1: u64,
    /// Argument register a2.
    pub a2: u64,
    /// Argument register a3.
    pub a3: u64,
    /// Argument register a4.
    pub a4: u64,
    /// Argument register a5.
    pub a5: u64,
    /// Argument register a6.
    pub a6: u64,
    /// Syscall-number register a7.
    pub a7: u64,
    /// Saved user program counter.
    pub epc: u64,
    /// Address-space register of the interrupted context.
    pub satp: u64,
    /// Kernel stack pointer to load on the next trap entry.
    pub kernel_sp: u64,
    /// Hart the snapshot was taken on.
    pub hartid: u64,
}

impl TrapFrame {
    /// A zeroed frame, as a freshly allocated process starts with.
    pub fn zeroed() -> (f: TrapFrame)
        ensures
            f == (TrapFrame {
                a0: 0, a1: 0, a2: 0, a3: 0, a4: 0, a5: 0, a6: 0, a7: 0,
                epc: 0, satp: 0, kernel_sp: 0, hartid: 0,
            }),
    {
        TrapFrame {
            a0: 0, a1: 0, a2: 0, a3: 0, a4: 0, a5: 0, a6: 0, a7: 0,
            epc: 0, satp: 0, kernel_sp: 0, hartid: 0,
        }
    }
}

} // verus!
