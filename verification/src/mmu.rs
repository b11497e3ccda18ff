//! The MMU driver proper: address-space restrictions, the model of the
//! per-core hardware the driver programs, the enable transition and the
//! virtual-to-physical query.

use vstd::prelude::*;
use crate::address::{Address, Physical, Virtual};
use crate::regs::{
    MAIR_EL1_VALUE, PAR_EL1_F, PAR_EL1_PA_MASK, SCTLR_EL1_C, SCTLR_EL1_I, SCTLR_EL1_M,
    TCR_EL1_A1_TTBR0, TCR_EL1_EPD0_ENABLE_TTBR0_WALKS, TCR_EL1_EPD1_DISABLE_TTBR1_WALKS,
    TCR_EL1_IPS_40_BITS, TCR_EL1_IRGN0_WB_RA_WA_CACHEABLE, TCR_EL1_ORGN0_WB_RA_WA_CACHEABLE,
    TCR_EL1_SH0_INNER, TCR_EL1_T0SZ_MASK, TCR_EL1_TBI0_TOP_BYTE_IGNORED, TCR_EL1_TG0_64_KIB,
    TTBR0_EL1_BADDR_MASK, id_aa64mmfr0_tgran64_supported, par_aborted, par_pa_field,
    sctlr_translation_enabled, tcr_el1_value, tgran64_supported, ttbr0_el1_baddr,
};

verus! {

/// The 512 MiB translation block size.
pub const GRANULE_512_MIB: u64 = 0x2000_0000;

/// The 64 KiB translation granule: the only granule this driver supports.
pub const GRANULE_64_KIB: u64 = 0x1_0000;

/// Mask selecting the 64 KiB page base of a virtual address.
pub const VA_PAGE_BASE_MASK: u64 = 0xFFFF_FFFF_FFFF_0000;

/// Architectural restrictions on a virtual address-space size: a whole
/// number of 512 MiB blocks, and at most 2^48 bytes, the 48-bit maximum
/// that every ARMv8 version supports.
pub open spec fn arch_valid_address_space_size(size: u64) -> bool {
    &&& size % GRANULE_512_MIB == 0
    &&& size <= 0x1_0000_0000_0000
}

/// A virtual address space of `AS_SIZE` bytes for the low translation
/// range. The size is fixed at compile time: a wrong shape fails
/// verification, never a running system.
pub struct AddressSpace<const AS_SIZE: u64>;

impl<const AS_SIZE: u64> AddressSpace<AS_SIZE> {
    /// Checks for architectural restrictions. A caller verifies only if the
    /// configured size satisfies both of them.
    pub fn arch_address_space_size_sanity_checks()
        requires
            arch_valid_address_space_size(AS_SIZE),
    {
        // Size must be a whole number of full 512 MiB tables.
        assert(AS_SIZE % GRANULE_512_MIB == 0);

        // 48-bit virtual addresses are the maximum supported by any ARMv8
        // version.
        assert(AS_SIZE <= 0x1_0000_0000_0000);
    }
}

/// One 64 KiB page mapping out of the table hierarchy the table builder
/// prepared.
pub struct PageDescriptor {
    /// Base of the mapped virtual page; 64 KiB aligned.
    pub virt_page_base: u64,
    /// Base of the physical frame it maps to; 64 KiB aligned.
    pub phys_page_base: u64,
}

/// Both bases of a descriptor are 64 KiB aligned and within the 48-bit
/// architectural address range.
pub open spec fn wf_page_descriptor(d: PageDescriptor) -> bool {
    &&& d.virt_page_base % GRANULE_64_KIB == 0
    &&& d.virt_page_base < 0x1_0000_0000_0000
    &&& d.phys_page_base % GRANULE_64_KIB == 0
    &&& d.phys_page_base < 0x1_0000_0000_0000
}

/// The translation-table hierarchy the table builder wrote to memory
/// before handing its base address to the driver, seen at page
/// granularity. The hardware walks it; the driver itself never reads it.
pub struct TranslationTables {
    pub entries: Vec<PageDescriptor>,
}

/// The physical page base the hierarchy maps `virt_page_base` to,
/// searching the descriptors from position `i` on.
pub open spec fn table_lookup_from(
    entries: Seq<PageDescriptor>,
    i: int,
    virt_page_base: u64,
) -> Option<u64>
    decreases entries.len() - i,
{
    if i < 0 || i >= entries.len() {
        None
    } else if entries[i].virt_page_base == virt_page_base {
        Some(entries[i].phys_page_base)
    } else {
        table_lookup_from(entries, i + 1, virt_page_base)
    }
}

/// The physical page base the hierarchy maps `virt_page_base` to, if any.
pub open spec fn table_lookup(entries: Seq<PageDescriptor>, virt_page_base: u64) -> Option<u64> {
    table_lookup_from(entries, 0, virt_page_base)
}

impl TranslationTables {
    /// Every descriptor of the hierarchy is well formed. The table builder
    /// guarantees this; the driver does not check it.
    pub open spec fn wf(&self) -> bool {
        forall|i: int|
            0 <= i < self.entries@.len() ==> wf_page_descriptor(#[trigger] self.entries@[i])
    }

    /// Walk the hierarchy for the given page base, as the table-walk
    /// hardware does.
    fn lookup(&self, virt_page_base: u64) -> (r: Option<u64>)
        ensures
            r == table_lookup(self.entries@, virt_page_base),
    {
        let n: usize = self.entries.len();
        let mut i: usize = 0;
        while i < n
            invariant
                n == self.entries@.len(),
                i <= n,
                table_lookup(self.entries@, virt_page_base) == table_lookup_from(
                    self.entries@,
                    i as int,
                    virt_page_base,
                ),
            decreases n - i,
        {
            if self.entries[i].virt_page_base == virt_page_base {
                return Some(self.entries[i].phys_page_base);
            }
            i = i + 1;
        }
        None
    }
}

/// A successful lookup in a well-formed hierarchy found a well-formed
/// descriptor: the searched virtual page base and the returned physical
/// page base are both 64 KiB aligned and within 48 bits.
pub proof fn lemma_table_lookup_found_wf(entries: Seq<PageDescriptor>, i: int, virt_page_base: u64)
    requires
        forall|j: int| 0 <= j < entries.len() ==> wf_page_descriptor(#[trigger] entries[j]),
        table_lookup_from(entries, i, virt_page_base) is Some,
    ensures
        virt_page_base % GRANULE_64_KIB == 0,
        virt_page_base < 0x1_0000_0000_0000,
        table_lookup_from(entries, i, virt_page_base) matches Some(p) ==> p % GRANULE_64_KIB == 0
            && p < 0x1_0000_0000_0000,
    decreases entries.len() - i,
{
    if 0 <= i < entries.len() && entries[i].virt_page_base != virt_page_base {
        lemma_table_lookup_found_wf(entries, i + 1, virt_page_base);
    }
}

/// The per-core hardware the driver works against: the system registers it
/// programs or reads, and the installed translation tables the table-walk
/// hardware consults. On a real core this state lives in the MMU; here it
/// is modelled in software so that the driver's register values and state
/// transitions can be verified and exercised off target.
pub struct HardwareState {
    pub sctlr_el1: u64,
    pub mair_el1: u64,
    pub tcr_el1: u64,
    pub ttbr0_el1: u64,
    pub id_aa64mmfr0_el1: u64,
    pub tables: TranslationTables,
}

/// Stage 1 translation is switched on in this hardware state.
pub open spec fn mmu_enabled(hw: HardwareState) -> bool {
    sctlr_translation_enabled(hw.sctlr_el1)
}

/// The PAR_EL1 value the address-translation instruction leaves for
/// `vaddr`: on a hit, the PA field holds the output page frame (the mapped
/// 64 KiB frame joined with bits 15:12 of the input); on a miss, the F bit
/// reports an abort.
pub open spec fn par_of(entries: Seq<PageDescriptor>, vaddr: u64) -> u64 {
    match table_lookup(entries, vaddr & VA_PAGE_BASE_MASK) {
        Some(p) => (p | (vaddr & 0xF000)) & PAR_EL1_PA_MASK,
        None => PAR_EL1_F,
    }
}

impl HardwareState {
    /// A core after reset: control registers clear — in particular,
    /// translation disabled — with the given feature register and the
    /// table hierarchy the table builder wrote to memory.
    pub fn new(id_aa64mmfr0_el1: u64, tables: TranslationTables) -> (r: HardwareState)
        ensures
            r == (HardwareState {
                sctlr_el1: 0,
                mair_el1: 0,
                tcr_el1: 0,
                ttbr0_el1: 0,
                id_aa64mmfr0_el1,
                tables,
            }),
            !mmu_enabled(r),
    {
        proof {
            assert(0u64 & SCTLR_EL1_M != SCTLR_EL1_M) by (bit_vector);
        }
        HardwareState {
            sctlr_el1: 0,
            mair_el1: 0,
            tcr_el1: 0,
            ttbr0_el1: 0,
            id_aa64mmfr0_el1,
            tables,
        }
    }

    /// Model of issuing AT S1E1R on `vaddr` and reading PAR_EL1 back. The
    /// instruction is only meaningful — and only issued by the driver —
    /// while translation is enabled.
    pub fn at_s1e1r(&self, vaddr: u64) -> (par: u64)
        requires
            mmu_enabled(*self),
        ensures
            par == par_of(self.tables.entries@, vaddr),
    {
        match self.tables.lookup(vaddr & VA_PAGE_BASE_MASK) {
            Some(p) => (p | (vaddr & 0xF000)) & PAR_EL1_PA_MASK,
            None => PAR_EL1_F,
        }
    }
}

/// Failures of the enable transition.
#[derive(Debug, PartialEq, Eq)]
pub enum MMUEnableError {
    /// Translation was already switched on; nothing was changed.
    AlreadyEnabled,
    /// An environment check failed; the message says which.
    Other(&'static str),
}

/// Failures of a virtual-to-physical query.
#[derive(Debug, PartialEq, Eq)]
pub enum TranslationError {
    /// Translation is not switched on, so there is no live translation
    /// regime to ask.
    MMUDisabled,
    /// The hardware reports the address as not translatable.
    Aborted,
}

/// The enable transition over the hardware model: the result the driver
/// returns, paired with the hardware state it leaves. A failure leaves the
/// state untouched; success programs the attribute, base and control
/// registers and sets the translation and cache enable bits.
pub open spec fn enable_spec(hw: HardwareState, phys_tables_base: u64, size_shift: u64) -> (
    Result<(), MMUEnableError>,
    HardwareState,
) {
    if mmu_enabled(hw) {
        (Err(MMUEnableError::AlreadyEnabled), hw)
    } else if !tgran64_supported(hw.id_aa64mmfr0_el1) {
        (Err(MMUEnableError::Other("Translation granule not supported in HW")), hw)
    } else {
        (
            Ok(()),
            HardwareState {
                sctlr_el1: hw.sctlr_el1 | SCTLR_EL1_M | SCTLR_EL1_C | SCTLR_EL1_I,
                mair_el1: MAIR_EL1_VALUE,
                tcr_el1: tcr_el1_value((64 - size_shift) as u64),
                ttbr0_el1: ttbr0_el1_baddr(phys_tables_base),
                id_aa64mmfr0_el1: hw.id_aa64mmfr0_el1,
                tables: hw.tables,
            },
        )
    }
}

/// What a virtual-to-physical query returns in a given hardware state: a
/// refusal while translation is off; otherwise the decoded result of the
/// address-translation instruction — an abort where the hardware reports
/// one, else the translated page frame joined with the page-offset bits of
/// the input.
pub open spec fn translate_spec(hw: HardwareState, vaddr: u64) -> Result<u64, TranslationError> {
    if !mmu_enabled(hw) {
        Err(TranslationError::MMUDisabled)
    } else {
        let par = par_of(hw.tables.entries@, vaddr);
        if par_aborted(par) {
            Err(TranslationError::Aborted)
        } else {
            Ok((par_pa_field(par) << 12) | (vaddr & 0xFFF))
        }
    }
}

/// Memory Management Unit driver handle: a zero-sized capability. All the
/// state it works on is the per-core hardware it is handed.
pub struct MemoryManagementUnit;

/// Return the MMU driver instance.
pub fn mmu() -> (r: MemoryManagementUnit)
    ensures
        r == (MemoryManagementUnit {}),
{
    MemoryManagementUnit
}

impl MemoryManagementUnit {
    /// Program the memory attribute indirection register with the two fixed
    /// memory types: attribute 1 is cacheable normal DRAM, attribute 0 is
    /// device memory. Nothing else is touched.
    pub fn set_up_mair(&self, hw: &mut HardwareState)
        ensures
            *final(hw) == (HardwareState { mair_el1: MAIR_EL1_VALUE, ..*old(hw) }),
    {
        hw.mair_el1 = MAIR_EL1_VALUE;
    }

    /// Configure stage 1 of the EL1 translation regime: 64 KiB granule and
    /// 40-bit physical addresses, cacheable inner-shareable table walks
    /// through the low range only, and the input-address size derived from
    /// the configured address-space size — `64 - size_shift` bits.
    pub fn configure_translation_control(&self, hw: &mut HardwareState, size_shift: u64)
        requires
            29 <= size_shift <= 48,
        ensures
            *final(hw) == (HardwareState {
                tcr_el1: tcr_el1_value((64 - size_shift) as u64),
                ..*old(hw)
            }),
            final(hw).tcr_el1 & TCR_EL1_T0SZ_MASK == 64 - size_shift,
    {
        let t0sz: u64 = 64 - size_shift;

        hw.tcr_el1 = TCR_EL1_TBI0_TOP_BYTE_IGNORED | TCR_EL1_IPS_40_BITS
            | TCR_EL1_EPD1_DISABLE_TTBR1_WALKS | TCR_EL1_A1_TTBR0 | TCR_EL1_TG0_64_KIB
            | TCR_EL1_SH0_INNER | TCR_EL1_ORGN0_WB_RA_WA_CACHEABLE
            | TCR_EL1_IRGN0_WB_RA_WA_CACHEABLE | TCR_EL1_EPD0_ENABLE_TTBR0_WALKS | (t0sz
            & TCR_EL1_T0SZ_MASK);

        proof {
            assert(tcr_el1_value(t0sz) & TCR_EL1_T0SZ_MASK == t0sz) by (bit_vector)
                requires
                    t0sz < 64,
            ;
        }
    }

    /// Read the translation-enable bit of the system control register: pure
    /// observation, valid in every state, any number of times.
    pub fn is_enabled(&self, hw: &HardwareState) -> (r: bool)
        ensures
            r == mmu_enabled(*hw),
    {
        hw.sctlr_el1 & SCTLR_EL1_M == SCTLR_EL1_M
    }

    /// Switch on translation and both caches, in the required order: check
    /// the current state, check hardware support for the 64 KiB granule,
    /// program the memory attributes, install the table base prepared by
    /// the table builder, configure translation control, then set the
    /// enable bits. Each failure returns before anything is programmed.
    /// `size_shift` is the compile-time address-space configuration: the
    /// low range holds 2^`size_shift` bytes.
    pub fn enable_mmu_and_caching(
        &self,
        hw: &mut HardwareState,
        phys_tables_base_addr: Address<Physical>,
        size_shift: u64,
    ) -> (r: Result<(), MMUEnableError>)
        requires
            29 <= size_shift <= 48,
        ensures
            r == enable_spec(*old(hw), phys_tables_base_addr@, size_shift).0,
            *final(hw) == enable_spec(*old(hw), phys_tables_base_addr@, size_shift).1,
            r is Ok <==> !mmu_enabled(*old(hw)) && tgran64_supported(old(hw).id_aa64mmfr0_el1),
            mmu_enabled(*old(hw)) ==> r == Err::<(), MMUEnableError>(
                MMUEnableError::AlreadyEnabled,
            ),
            r is Err ==> *final(hw) == *old(hw),
            r is Ok ==> mmu_enabled(*final(hw)),
            final(hw).tables == old(hw).tables,
    {
        if self.is_enabled(hw) {
            return Err(MMUEnableError::AlreadyEnabled);
        }

        // Fail early if the translation granule is not supported.
        if !id_aa64mmfr0_tgran64_supported(hw.id_aa64mmfr0_el1) {
            return Err(MMUEnableError::Other("Translation granule not supported in HW"));
        }

        // Prepare the memory attribute indirection register.
        self.set_up_mair(hw);

        // Set the translation table base register.
        hw.ttbr0_el1 = phys_tables_base_addr.into_u64() & TTBR0_EL1_BADDR_MASK;

        self.configure_translation_control(hw, size_shift);

        // On real hardware, an instruction barrier now forces all previous
        // changes to be seen before the enable; the register model needs no
        // counterpart. Then translation and both caches go on atomically,
        // followed by a second barrier so the enable takes effect before
        // the next instruction.
        hw.sctlr_el1 = hw.sctlr_el1 | SCTLR_EL1_M | SCTLR_EL1_C | SCTLR_EL1_I;

        proof {
            let s = old(hw).sctlr_el1;
            assert((s | SCTLR_EL1_M | SCTLR_EL1_C | SCTLR_EL1_I) & SCTLR_EL1_M == SCTLR_EL1_M)
                by (bit_vector);
        }

        Ok(())
    }

    /// Ask the hardware to resolve `virt` against the live translation
    /// state: refused while translation is off; otherwise the result of
    /// the address-translation instruction, decoded — an abort for an
    /// address the tables do not map, else exactly the mapped frame with
    /// the page-offset bits of `virt` preserved verbatim.
    pub fn try_virt_to_phys(&self, hw: &HardwareState, virt: Address<Virtual>) -> (r: Result<
        Address<Physical>,
        TranslationError,
    >)
        requires
            hw.tables.wf(),
        ensures
            (match translate_spec(*hw, virt@) {
                Ok(pa) => r matches Ok(a) && a@ == pa,
                Err(e) => r == Err::<Address<Physical>, TranslationError>(e),
            }),
            !mmu_enabled(*hw) ==> r == Err::<Address<Physical>, TranslationError>(
                TranslationError::MMUDisabled,
            ),
            mmu_enabled(*hw) ==> (match table_lookup(
                hw.tables.entries@,
                virt@ & VA_PAGE_BASE_MASK,
            ) {
                Some(p) => r matches Ok(a) && a@ == p + (virt@ & 0xFFFF),
                None => r == Err::<Address<Physical>, TranslationError>(TranslationError::Aborted),
            }),
            r is Ok <==> mmu_enabled(*hw) && table_lookup(
                hw.tables.entries@,
                virt@ & VA_PAGE_BASE_MASK,
            ) is Some,
    {
        if !self.is_enabled(hw) {
            return Err(TranslationError::MMUDisabled);
        }

        let addr: u64 = virt.into_u64();
        let par: u64 = hw.at_s1e1r(addr);

        proof {
            // A hit never has the F bit set: the PA mask clears bit 0. A
            // miss always has it set.
            if table_lookup(hw.tables.entries@, addr & VA_PAGE_BASE_MASK) is Some {
                let p = table_lookup(hw.tables.entries@, addr & VA_PAGE_BASE_MASK)->Some_0;
                assert(((p | (addr & 0xF000)) & 0xFFFF_FFFF_F000u64) & 0x1u64 != 0x1u64)
                    by (bit_vector);
            } else {
                assert(0x1u64 & 0x1u64 == 0x1u64) by (bit_vector);
            }
        }

        if par & PAR_EL1_F == PAR_EL1_F {
            return Err(TranslationError::Aborted);
        }

        let phys_addr: u64 = ((par >> 12) & 0xF_FFFF_FFFF) << 12 | (addr & 0xFFF);

        proof {
            lemma_table_lookup_found_wf(hw.tables.entries@, 0, addr & VA_PAGE_BASE_MASK);
            let p = table_lookup(hw.tables.entries@, addr & VA_PAGE_BASE_MASK)->Some_0;
            lemma_par_decode_exact(p, addr);
        }

        Ok(Address::new(phys_addr))
    }
}

/// Decoding the PAR value of a hit on a well-formed mapping is exact: no
/// abort is reported, and the decoded address is the mapped frame plus the
/// 64 KiB page offset of the input.
pub proof fn lemma_par_decode_exact(p: u64, vaddr: u64)
    requires
        p % GRANULE_64_KIB == 0,
        p < 0x1_0000_0000_0000,
    ensures
        !par_aborted((p | (vaddr & 0xF000)) & PAR_EL1_PA_MASK),
        (par_pa_field((p | (vaddr & 0xF000)) & PAR_EL1_PA_MASK) << 12) | (vaddr & 0xFFF) == p + (
        vaddr & 0xFFFF),
{
    assert((((p | (vaddr & 0xF000)) & 0xFFFF_FFFF_F000u64) & 0x1u64 != 0x1u64) && (((((p | (vaddr
        & 0xF000)) & 0xFFFF_FFFF_F000u64) >> 12) & 0xF_FFFF_FFFFu64) << 12) | (vaddr & 0xFFF) == p
        + (vaddr & 0xFFFF)) by (bit_vector)
        requires
            p % 0x1_0000u64 == 0,
            p < 0x1_0000_0000_0000u64,
    ;
}

/// Enabling twice in succession: the second call fails with
/// `AlreadyEnabled` and leaves the hardware exactly as the first,
/// successful call left it, whatever base and shift it is given.
pub proof fn lemma_enable_twice(
    hw: HardwareState,
    base1: u64,
    shift1: u64,
    base2: u64,
    shift2: u64,
)
    requires
        enable_spec(hw, base1, shift1).0 is Ok,
    ensures
        enable_spec(enable_spec(hw, base1, shift1).1, base2, shift2).0 == Err::<
            (),
            MMUEnableError,
        >(MMUEnableError::AlreadyEnabled),
        enable_spec(enable_spec(hw, base1, shift1).1, base2, shift2).1 == enable_spec(
            hw,
            base1,
            shift1,
        ).1,
{
    let s = hw.sctlr_el1;
    assert((s | SCTLR_EL1_M | SCTLR_EL1_C | SCTLR_EL1_I) & SCTLR_EL1_M == SCTLR_EL1_M)
        by (bit_vector);
}

/// The enabled bit tracks the enable transition exactly: a failed enable
/// leaves it as it was, a successful one sets it. Together with the reset
/// state, `is_enabled` is false until the first successful enable and true
/// from then on.
pub proof fn lemma_enable_tracks_enabled_bit(hw: HardwareState, base: u64, shift: u64)
    ensures
        enable_spec(hw, base, shift).0 is Err ==> mmu_enabled(enable_spec(hw, base, shift).1)
            == mmu_enabled(hw),
        enable_spec(hw, base, shift).0 is Ok ==> mmu_enabled(enable_spec(hw, base, shift).1),
{
    let s = hw.sctlr_el1;
    assert((s | SCTLR_EL1_M | SCTLR_EL1_C | SCTLR_EL1_I) & SCTLR_EL1_M == SCTLR_EL1_M)
        by (bit_vector);
}

/// While translation is off, every query fails with `MMUDisabled`,
/// whatever the address — including zero and the largest representable
/// one.
pub proof fn lemma_translate_disabled(hw: HardwareState, vaddr: u64)
    requires
        !mmu_enabled(hw),
    ensures
        translate_spec(hw, vaddr) == Err::<u64, TranslationError>(TranslationError::MMUDisabled),
{
}

/// A query for an address whose page the tables do not map aborts: no
/// physical address is fabricated.
pub proof fn lemma_translate_unmapped_aborts(hw: HardwareState, vaddr: u64)
    requires
        mmu_enabled(hw),
        table_lookup(hw.tables.entries@, vaddr & VA_PAGE_BASE_MASK) is None,
    ensures
        translate_spec(hw, vaddr) == Err::<u64, TranslationError>(TranslationError::Aborted),
{
    assert(0x1u64 & 0x1u64 == 0x1u64) by (bit_vector);
}

/// After a successful enable against tables that map the 64 KiB page at
/// `virt_page_base` to the frame at `phys_page_base`, translating any
/// address of that page yields exactly the mapped frame plus that
/// address's page offset: the offset bits pass through verbatim.
pub proof fn lemma_enable_then_translate_mapped(
    hw: HardwareState,
    phys_tables_base: u64,
    size_shift: u64,
    virt_page_base: u64,
    phys_page_base: u64,
    offset: u64,
)
    requires
        hw.tables.wf(),
        enable_spec(hw, phys_tables_base, size_shift).0 is Ok,
        table_lookup(hw.tables.entries@, virt_page_base) == Some(phys_page_base),
        offset < GRANULE_64_KIB,
    ensures
        translate_spec(
            enable_spec(hw, phys_tables_base, size_shift).1,
            (virt_page_base + offset) as u64,
        ) == Ok::<u64, TranslationError>((phys_page_base + offset) as u64),
{
    let hw1 = enable_spec(hw, phys_tables_base, size_shift).1;
    let s = hw.sctlr_el1;
    assert((s | SCTLR_EL1_M | SCTLR_EL1_C | SCTLR_EL1_I) & SCTLR_EL1_M == SCTLR_EL1_M)
        by (bit_vector);

    lemma_table_lookup_found_wf(hw.tables.entries@, 0, virt_page_base);

    let va = (virt_page_base + offset) as u64;
    assert(va & 0xFFFF_FFFF_FFFF_0000u64 == virt_page_base && va & 0xFFFFu64 == offset && va
        & 0xFFFu64 == offset & 0xFFF && va & 0xF000u64 == offset & 0xF000) by (bit_vector)
        requires
            va == virt_page_base + offset,
            virt_page_base % 0x1_0000u64 == 0,
            virt_page_base < 0x1_0000_0000_0000u64,
            offset < 0x1_0000u64,
    ;

    lemma_par_decode_exact(phys_page_base, va);
    assert((par_pa_field(par_of(hw1.tables.entries@, va)) << 12) | (va & 0xFFF) == phys_page_base
        + offset);
}

} // verus!
