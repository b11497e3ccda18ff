//! Bit-exact encodings of the system registers the driver programs or reads.
//!
//! Field positions and values follow the AArch64 architecture definition of
//! SCTLR_EL1, MAIR_EL1, TCR_EL1, TTBR0_EL1, ID_AA64MMFR0_EL1 and PAR_EL1.

use vstd::prelude::*;

verus! {

// SCTLR_EL1 - system control register.

/// SCTLR_EL1.M (bit 0): stage 1 address translation enable.
pub const SCTLR_EL1_M: u64 = 0x1;

/// SCTLR_EL1.C (bit 2): data cache enable.
pub const SCTLR_EL1_C: u64 = 0x4;

/// SCTLR_EL1.I (bit 12): instruction cache enable.
pub const SCTLR_EL1_I: u64 = 0x1000;

/// Stage 1 translation is on exactly when SCTLR_EL1.M is set.
pub open spec fn sctlr_translation_enabled(sctlr: u64) -> bool {
    sctlr & SCTLR_EL1_M == SCTLR_EL1_M
}

// MAIR_EL1 - memory attribute indirection register, one attribute byte per
// index. Descriptors built by the table builder refer to these indices, so
// their numeric values are fixed for all configurations.

/// Attribute index denoting device memory.
pub const MAIR_DEVICE_INDEX: u64 = 0;

/// Attribute index denoting cacheable normal DRAM.
pub const MAIR_NORMAL_INDEX: u64 = 1;

/// Device-nGnRE: non-gathering, non-reordering, early write acknowledgement.
pub const MAIR_ATTR_DEVICE_NGNRE: u64 = 0x04;

/// Normal memory, outer and inner write-back non-transient,
/// read-allocating and write-allocating.
pub const MAIR_ATTR_NORMAL_WB_RW_ALLOC: u64 = 0xFF;

/// The exact MAIR_EL1 value the driver programs: attribute 1 is cacheable
/// normal DRAM (0xFF at bits 15:8), attribute 0 is device nGnRE (0x04 at
/// bits 7:0).
pub const MAIR_EL1_VALUE: u64 = 0xFF04;

/// The attribute byte MAIR_EL1 holds at `index`.
pub open spec fn mair_attr(mair: u64, index: u64) -> u64
    recommends
        index < 8,
{
    (mair >> ((8 * index) as u64)) & 0xFF
}

/// The two attribute indices are fixed constants of the driver: index 0 is
/// always programmed as device memory and index 1 as cacheable normal DRAM,
/// independent of any address-space configuration.
pub proof fn lemma_mair_attribute_indices_fixed()
    ensures
        MAIR_DEVICE_INDEX == 0,
        MAIR_NORMAL_INDEX == 1,
        mair_attr(MAIR_EL1_VALUE, MAIR_DEVICE_INDEX) == MAIR_ATTR_DEVICE_NGNRE,
        mair_attr(MAIR_EL1_VALUE, MAIR_NORMAL_INDEX) == MAIR_ATTR_NORMAL_WB_RW_ALLOC,
{
    assert((0xFF04u64 >> 0) & 0xFF == 0x04) by (bit_vector);
    assert((0xFF04u64 >> 8) & 0xFF == 0xFF) by (bit_vector);
}

// TCR_EL1 - translation control register.

/// TCR_EL1.TBI0 (bit 37) = 1: the top byte of a virtual address is
/// ignored in translations through TTBR0.
pub const TCR_EL1_TBI0_TOP_BYTE_IGNORED: u64 = 0x20_0000_0000;

/// TCR_EL1.IPS (bits 34:32) = 0b010: 40-bit intermediate physical addresses.
pub const TCR_EL1_IPS_40_BITS: u64 = 0x2_0000_0000;

/// TCR_EL1.EPD1 (bit 23) = 1: table walks through TTBR1 disabled.
pub const TCR_EL1_EPD1_DISABLE_TTBR1_WALKS: u64 = 0x80_0000;

/// TCR_EL1.A1 (bit 22) = 0: TTBR0 holds the ASID.
pub const TCR_EL1_A1_TTBR0: u64 = 0;

/// TCR_EL1.TG0 (bits 15:14) = 0b01: 64 KiB granule for TTBR0.
pub const TCR_EL1_TG0_64_KIB: u64 = 0x4000;

/// TCR_EL1.SH0 (bits 13:12) = 0b11: inner shareable.
pub const TCR_EL1_SH0_INNER: u64 = 0x3000;

/// TCR_EL1.ORGN0 (bits 11:10) = 0b01: outer write-back read-allocate
/// write-allocate cacheable table walks.
pub const TCR_EL1_ORGN0_WB_RA_WA_CACHEABLE: u64 = 0x400;

/// TCR_EL1.IRGN0 (bits 9:8) = 0b01: inner write-back read-allocate
/// write-allocate cacheable table walks.
pub const TCR_EL1_IRGN0_WB_RA_WA_CACHEABLE: u64 = 0x100;

/// TCR_EL1.EPD0 (bit 7) = 0: table walks through TTBR0 enabled.
pub const TCR_EL1_EPD0_ENABLE_TTBR0_WALKS: u64 = 0;

/// TCR_EL1.T0SZ (bits 5:0): the input address size is 64 - T0SZ bits.
pub const TCR_EL1_T0SZ_MASK: u64 = 0x3F;

/// The exact TCR_EL1 value the driver programs for a given T0SZ field.
pub open spec fn tcr_el1_value(t0sz: u64) -> u64 {
    TCR_EL1_TBI0_TOP_BYTE_IGNORED | TCR_EL1_IPS_40_BITS | TCR_EL1_EPD1_DISABLE_TTBR1_WALKS
        | TCR_EL1_A1_TTBR0 | TCR_EL1_TG0_64_KIB | TCR_EL1_SH0_INNER
        | TCR_EL1_ORGN0_WB_RA_WA_CACHEABLE | TCR_EL1_IRGN0_WB_RA_WA_CACHEABLE
        | TCR_EL1_EPD0_ENABLE_TTBR0_WALKS | (t0sz & TCR_EL1_T0SZ_MASK)
}

// TTBR0_EL1 - translation table base register for the low range.

/// TTBR0_EL1.BADDR occupies bits 47:1; installing a base address clears
/// bit 0 and the ASID bits.
pub const TTBR0_EL1_BADDR_MASK: u64 = 0xFFFF_FFFF_FFFE;

/// The register value that installing `base` as the table base leaves in
/// TTBR0_EL1.
pub open spec fn ttbr0_el1_baddr(base: u64) -> u64 {
    base & TTBR0_EL1_BADDR_MASK
}

// ID_AA64MMFR0_EL1 - memory model feature register.

/// ID_AA64MMFR0_EL1.TGran64 (bits 27:24) = 0b0000 reports the 64 KiB
/// granule as supported.
pub open spec fn tgran64_supported(id_aa64mmfr0: u64) -> bool {
    (id_aa64mmfr0 >> 24) & 0xF == 0
}

/// Whether the feature register reports the 64 KiB granule as supported.
pub fn id_aa64mmfr0_tgran64_supported(id_aa64mmfr0: u64) -> (r: bool)
    ensures
        r == tgran64_supported(id_aa64mmfr0),
{
    (id_aa64mmfr0 >> 24) & 0xF == 0
}

// PAR_EL1 - the result register of an address-translation instruction.

/// PAR_EL1.F (bit 0) = 1: the translation aborted.
pub const PAR_EL1_F: u64 = 0x1;

/// PAR_EL1.PA (bits 47:12): the page frame of the output address.
pub const PAR_EL1_PA_MASK: u64 = 0xFFFF_FFFF_F000;

/// Whether a PAR_EL1 value reports the translation as aborted.
pub open spec fn par_aborted(par: u64) -> bool {
    par & PAR_EL1_F == PAR_EL1_F
}

/// The PA field of a PAR_EL1 value.
pub open spec fn par_pa_field(par: u64) -> u64 {
    (par >> 12) & 0xF_FFFF_FFFF
}

} // verus!
