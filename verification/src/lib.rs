//! Verified decision core of a small multi-hart RISC-V kernel: trap cause
//! decoding and classification, the process state machine and round-robin
//! scheduler, the syscall gateway, the core-local timer programming, and the
//! boot sequencing protocol.
//!
//! Everything here is pure logic over plain values.  The privileged-register
//! reads and writes, memory-mapped I/O and context-switch assembly that carry
//! these decisions out live outside the library.

pub mod arch;
pub mod boot;
pub mod clint;
pub mod file;
pub mod frame;
pub mod intr;
pub mod process;
pub mod sched;
pub mod syscall;
pub mod trap;
