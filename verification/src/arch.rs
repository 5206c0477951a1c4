//! Architecture-level encodings: the address-space (translation-control)
//! register layout and the status-register bits the trap layer inspects.

use vstd::prelude::*;

verus! {

/// Size of one page of physical memory.
pub const PAGE_SIZE: u64 = 4096;

/// Privilege level a trap arrived from, as recorded in the status register.
#[derive(Clone, Copy, PartialEq, Eq, Structural, Debug)]
pub enum PrivilegeMode {
    User,
    Supervisor,
}

/// The previous-privilege field of a raw supervisor status word (bit 8).
pub open spec fn spec_status_prev_mode(bits: u64) -> PrivilegeMode {
    if bits & 0x100 != 0 {
        PrivilegeMode::Supervisor
    } else {
        PrivilegeMode::User
    }
}

/// The supervisor interrupt-enable bit of a raw status word (bit 1).
pub open spec fn spec_status_intr_enabled(bits: u64) -> bool {
    bits & 0x2 != 0
}

/// Reads the previous-privilege field out of a raw status word.
pub fn status_prev_mode(bits: u64) -> (m: PrivilegeMode)
    ensures
        m == spec_status_prev_mode(bits),
{
    if bits & 0x100 != 0 {
        PrivilegeMode::Supervisor
    } else {
        PrivilegeMode::User
    }
}

/// Reads the interrupt-enable bit out of a raw status word.
pub fn status_intr_enabled(bits: u64) -> (e: bool)
    ensures
        e == spec_status_intr_enabled(bits),
{
    bits & 0x2 != 0
}

/// The translation-control word encoding: mode in the top four bits, the
/// address-space id in bits 44..60, the page number of the table base below.
pub open spec fn spec_satp(mode: u64, asid: u64, addr: u64) -> u64 {
    (mode << 60) | ((asid & 0xffff) << 44) | ((addr >> 12) & 0xff_ffff_ffff)
}

/// Build the address-space register value from a translation mode, an
/// address-space id and a page-table physical base.  The base must be
/// page-aligned; a misaligned base always indicates caller error.
pub fn build_satp(mode: u64, asid: u64, addr: u64) -> (r: u64)
    requires
        addr % PAGE_SIZE == 0,
    ensures
        r == spec_satp(mode, asid, addr),
{
    (mode << 60) | ((asid & 0xffff) << 44) | ((addr >> 12) & 0xff_ffff_ffff)
}

/// The three fields of a translation-control word built from in-range values
/// can be read back exactly: the encoding loses nothing.
pub proof fn lemma_satp_fields(mode: u64, asid: u64, addr: u64)
    requires
        mode <= 0xf,
        asid <= 0xffff,
        addr < 0x10_0000_0000_0000,
        addr % 4096 == 0,
    ensures
        spec_satp(mode, asid, addr) >> 60 == mode,
        (spec_satp(mode, asid, addr) >> 44) & 0xffff == asid,
        (spec_satp(mode, asid, addr) & 0xff_ffff_ffff) << 12 == addr,
{
    assert(((mode << 60) | ((asid & 0xffff) << 44) | ((addr >> 12) & 0xff_ffff_ffff)) >> 60
        == mode) by (bit_vector)
        requires
            mode <= 0xf,
    ;
    assert((((mode << 60) | ((asid & 0xffff) << 44) | ((addr >> 12) & 0xff_ffff_ffff)) >> 44)
        & 0xffff == asid) by (bit_vector)
        requires
            mode <= 0xf,
            asid <= 0xffff,
    ;
    assert((((mode << 60) | ((asid & 0xffff) << 44) | ((addr >> 12) & 0xff_ffff_ffff))
        & 0xff_ffff_ffff) << 12 == addr) by (bit_vector)
        requires
            addr < 0x10_0000_0000_0000,
            addr % 4096 == 0,
    ;
}

} // verus!
