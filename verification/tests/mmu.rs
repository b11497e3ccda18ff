use mmu_driver::address::Address;
use mmu_driver::mmu::{
    mmu, AddressSpace, HardwareState, MMUEnableError, PageDescriptor, TranslationError,
    TranslationTables, GRANULE_512_MIB, GRANULE_64_KIB,
};
use mmu_driver::regs::{
    MAIR_DEVICE_INDEX, MAIR_NORMAL_INDEX, SCTLR_EL1_C, SCTLR_EL1_I, SCTLR_EL1_M,
};

/// ID_AA64MMFR0_EL1 with TGran64 = 0b0000: 64 KiB granule supported.
const ID_TGRAN64_SUPPORTED: u64 = 0;

/// ID_AA64MMFR0_EL1 with TGran64 = 0b1111: 64 KiB granule not supported.
const ID_TGRAN64_NOT_SUPPORTED: u64 = 0xF << 24;

#[test]
fn granule_constants() {
    assert_eq!(GRANULE_64_KIB, 64 * 1024);
    assert_eq!(GRANULE_512_MIB, 512 * 1024 * 1024);
}

#[test]
fn address_space_sanity_checks_accept_valid_sizes() {
    // 1 GiB: a multiple of 512 MiB, well under 2^48.
    AddressSpace::<0x4000_0000>::arch_address_space_size_sanity_checks();
    // A single 512 MiB block.
    AddressSpace::<0x2000_0000>::arch_address_space_size_sanity_checks();
    // The architectural maximum, 2^48 bytes.
    AddressSpace::<0x1_0000_0000_0000>::arch_address_space_size_sanity_checks();
}

#[test]
fn enable_programs_exact_register_values() {
    let mut hw = HardwareState::new(ID_TGRAN64_SUPPORTED, TranslationTables { entries: vec![] });
    let r = mmu().enable_mmu_and_caching(&mut hw, Address::new(0x7_0000), 30);
    assert_eq!(r, Ok(()));
    // MAIR: attribute 1 = normal write-back (0xFF), attribute 0 = device (0x04).
    assert_eq!(hw.mair_el1, 0xFF04);
    // TTBR0 holds the installed base.
    assert_eq!(hw.ttbr0_el1, 0x7_0000);
    // TCR: TBI0 | IPS=40bit | EPD1 | TG0=64KiB | SH0=inner | ORGN0 | IRGN0 | T0SZ=34.
    assert_eq!(hw.tcr_el1, 0x22_0080_7522);
    // SCTLR: M, C and I set.
    assert_eq!(hw.sctlr_el1, SCTLR_EL1_M | SCTLR_EL1_C | SCTLR_EL1_I);
}

#[test]
fn enable_twice_fails_and_leaves_state_unchanged() {
    let mut hw = HardwareState::new(ID_TGRAN64_SUPPORTED, TranslationTables { entries: vec![] });
    let first = mmu().enable_mmu_and_caching(&mut hw, Address::new(0x7_0000), 30);
    assert_eq!(first, Ok(()));
    let after_first = (hw.sctlr_el1, hw.mair_el1, hw.tcr_el1, hw.ttbr0_el1);

    // Different base and shift: the second call must not touch anything.
    let second = mmu().enable_mmu_and_caching(&mut hw, Address::new(0x9_0000), 32);
    assert_eq!(second, Err(MMUEnableError::AlreadyEnabled));
    assert_eq!((hw.sctlr_el1, hw.mair_el1, hw.tcr_el1, hw.ttbr0_el1), after_first);
    assert!(mmu().is_enabled(&hw));
}

#[test]
fn is_enabled_false_until_successful_enable() {
    let mut hw =
        HardwareState::new(ID_TGRAN64_NOT_SUPPORTED, TranslationTables { entries: vec![] });
    assert!(!mmu().is_enabled(&hw));

    // A failed enable leaves it off.
    let failed = mmu().enable_mmu_and_caching(&mut hw, Address::new(0x7_0000), 30);
    assert!(failed.is_err());
    assert!(!mmu().is_enabled(&hw));

    let mut hw = HardwareState::new(ID_TGRAN64_SUPPORTED, TranslationTables { entries: vec![] });
    assert!(!mmu().is_enabled(&hw));
    let ok = mmu().enable_mmu_and_caching(&mut hw, Address::new(0x7_0000), 30);
    assert_eq!(ok, Ok(()));
    assert!(mmu().is_enabled(&hw));
}

#[test]
fn enable_fails_when_granule_not_supported() {
    let mut hw =
        HardwareState::new(ID_TGRAN64_NOT_SUPPORTED, TranslationTables { entries: vec![] });
    let r = mmu().enable_mmu_and_caching(&mut hw, Address::new(0x7_0000), 30);
    assert_eq!(r, Err(MMUEnableError::Other("Translation granule not supported in HW")));
    // Nothing was programmed.
    assert_eq!(hw.sctlr_el1, 0);
    assert_eq!(hw.mair_el1, 0);
    assert_eq!(hw.tcr_el1, 0);
    assert_eq!(hw.ttbr0_el1, 0);
}

#[test]
fn translate_before_enable_is_mmu_disabled() {
    let hw = HardwareState::new(ID_TGRAN64_SUPPORTED, TranslationTables { entries: vec![] });
    assert_eq!(
        mmu().try_virt_to_phys(&hw, Address::new(0)),
        Err(TranslationError::MMUDisabled)
    );
    assert_eq!(
        mmu().try_virt_to_phys(&hw, Address::new(u64::MAX)),
        Err(TranslationError::MMUDisabled)
    );
}

#[test]
fn translate_mapped_page_preserves_offset_bits() {
    let tables = TranslationTables {
        entries: vec![PageDescriptor { virt_page_base: 0x1_0000, phys_page_base: 0x8_0000 }],
    };
    let mut hw = HardwareState::new(ID_TGRAN64_SUPPORTED, tables);
    assert_eq!(mmu().enable_mmu_and_caching(&mut hw, Address::new(0x7_0000), 30), Ok(()));

    // The page base maps to the frame base.
    assert_eq!(
        mmu().try_virt_to_phys(&hw, Address::new(0x1_0000)),
        Ok(Address::new(0x8_0000))
    );
    // Offsets within the 64 KiB page pass through verbatim.
    assert_eq!(
        mmu().try_virt_to_phys(&hw, Address::new(0x1_1234)),
        Ok(Address::new(0x8_1234))
    );
    assert_eq!(
        mmu().try_virt_to_phys(&hw, Address::new(0x1_0FFF)),
        Ok(Address::new(0x8_0FFF))
    );
    assert_eq!(
        mmu().try_virt_to_phys(&hw, Address::new(0x1_FFFF)),
        Ok(Address::new(0x8_FFFF))
    );
}

#[test]
fn translate_unmapped_address_aborts() {
    let tables = TranslationTables {
        entries: vec![PageDescriptor { virt_page_base: 0x1_0000, phys_page_base: 0x8_0000 }],
    };
    let mut hw = HardwareState::new(ID_TGRAN64_SUPPORTED, tables);
    assert_eq!(mmu().enable_mmu_and_caching(&mut hw, Address::new(0x7_0000), 30), Ok(()));

    // The page below the mapped one, and an address far away.
    assert_eq!(
        mmu().try_virt_to_phys(&hw, Address::new(0x0)),
        Err(TranslationError::Aborted)
    );
    assert_eq!(
        mmu().try_virt_to_phys(&hw, Address::new(0x5_4321)),
        Err(TranslationError::Aborted)
    );
}

#[test]
fn attribute_indices_and_values_never_vary() {
    assert_eq!(MAIR_DEVICE_INDEX, 0);
    assert_eq!(MAIR_NORMAL_INDEX, 1);

    // Whatever the address-space size, the same two attributes come out.
    for shift in [29u64, 30, 40, 48] {
        let mut hw =
            HardwareState::new(ID_TGRAN64_SUPPORTED, TranslationTables { entries: vec![] });
        assert_eq!(mmu().enable_mmu_and_caching(&mut hw, Address::new(0x7_0000), shift), Ok(()));
        assert_eq!(hw.mair_el1, 0xFF04);
        assert_eq!((hw.mair_el1 >> (8 * MAIR_DEVICE_INDEX)) & 0xFF, 0x04);
        assert_eq!((hw.mair_el1 >> (8 * MAIR_NORMAL_INDEX)) & 0xFF, 0xFF);
    }
}

#[test]
fn t0sz_field_is_64_minus_size_shift() {
    // 1 GiB address space: size shift 30, so T0SZ = 64 - 30 = 34.
    let mut hw = HardwareState::new(ID_TGRAN64_SUPPORTED, TranslationTables { entries: vec![] });
    mmu().configure_translation_control(&mut hw, 30);
    assert_eq!(hw.tcr_el1 & 0x3F, 34);
}

#[test]
fn ttbr0_clears_low_bit_of_base() {
    let mut hw = HardwareState::new(ID_TGRAN64_SUPPORTED, TranslationTables { entries: vec![] });
    assert_eq!(mmu().enable_mmu_and_caching(&mut hw, Address::new(0x7_0001), 30), Ok(()));
    assert_eq!(hw.ttbr0_el1, 0x7_0000);
}
