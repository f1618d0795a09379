use x86_vlapic::{
    ApicRegOffset, IRRIndex, ISRIndex, TMRIndex, x2apic_msr_access_reg,
    xapic_mmio_access_reg_offset,
};

#[test]
fn decodes_lint0_from_mmio_and_msr() {
    assert_eq!(xapic_mmio_access_reg_offset(0xFEE0_0350), Some(ApicRegOffset::LvtLint0));
    assert_eq!(x2apic_msr_access_reg(0x835), Some(ApicRegOffset::LvtLint0));
}

#[test]
fn decodes_interrupt_register_banks() {
    assert_eq!(xapic_mmio_access_reg_offset(0xFEE0_0100), Some(ApicRegOffset::ISR(ISRIndex::ISRIndex0)));
    assert_eq!(xapic_mmio_access_reg_offset(0xFEE0_0170), Some(ApicRegOffset::ISR(ISRIndex::ISRIndex7)));
    assert_eq!(xapic_mmio_access_reg_offset(0xFEE0_01A0), Some(ApicRegOffset::TMR(TMRIndex::TMRIndex2)));
    assert_eq!(xapic_mmio_access_reg_offset(0xFEE0_0270), Some(ApicRegOffset::IRR(IRRIndex::IRRIndex7)));
    assert_eq!(x2apic_msr_access_reg(0x813), Some(ApicRegOffset::ISR(ISRIndex::ISRIndex3)));
    assert_eq!(x2apic_msr_access_reg(0x825), Some(ApicRegOffset::IRR(IRRIndex::IRRIndex5)));
}

#[test]
fn unknown_indices_are_decode_errors() {
    for i in [0usize, 1, 4, 5, 6, 7, 0x29, 0x2A, 0x2E, 0x3A, 0x3D, 0x40, 0xFF, 0x1000] {
        assert_eq!(ApicRegOffset::from(i), None);
    }
    assert_eq!(x2apic_msr_access_reg(0x7FF), None);
    assert_eq!(x2apic_msr_access_reg(0x900), None);
    assert_eq!(x2apic_msr_access_reg(0x8FF), None);
    assert_eq!(xapic_mmio_access_reg_offset(0xFEE0_0000), None);
}

#[test]
fn decoder_round_trip_for_every_identity() {
    let mut found = 0;
    for i in 0usize..0x40 {
        if let Some(r) = ApicRegOffset::from(i) {
            found += 1;
            assert_eq!(r.index(), i);
            assert_eq!(ApicRegOffset::from(r.index()), Some(r));
            assert_eq!(xapic_mmio_access_reg_offset(0xFEE0_0000 + 16 * r.index()), Some(r));
            assert_eq!(x2apic_msr_access_reg(0x800 + r.index()), Some(r));
        }
    }
    // 24 single registers and three banks of eight.
    assert_eq!(found, 24 + 3 * 8);
    assert_eq!(ApicRegOffset::SelfIPI.index(), 0x3F);
    assert_eq!(ApicRegOffset::TMR(TMRIndex::TMRIndex4).index(), 0x1C);
    assert_eq!(ISRIndex::ISRIndex6.as_usize(), 6);
}

#[test]
fn low_nibble_of_the_offset_is_ignored() {
    assert_eq!(xapic_mmio_access_reg_offset(0xFEE0_0FFC), xapic_mmio_access_reg_offset(0xFEE0_0FF0));
    assert_eq!(xapic_mmio_access_reg_offset(0xFEE0_035C), Some(ApicRegOffset::LvtLint0));
    assert_eq!(xapic_mmio_access_reg_offset(0xFEE0_03F4), Some(ApicRegOffset::SelfIPI));
    assert_eq!(xapic_mmio_access_reg_offset(0xFEE0_0024), Some(ApicRegOffset::ID));
}
