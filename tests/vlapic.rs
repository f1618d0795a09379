use x86_vlapic::{
    AccessWidth, ApicAction, ApicError, ApicRegOffset, HostContext, ISRIndex, InitSipiMode,
    TMRIndex, VirtualApicRegs,
};

const LVTS: [ApicRegOffset; 7] = [
    ApicRegOffset::LvtCMCI,
    ApicRegOffset::LvtTimer,
    ApicRegOffset::LvtThermal,
    ApicRegOffset::LvtPmc,
    ApicRegOffset::LvtLint0,
    ApicRegOffset::LvtLint1,
    ApicRegOffset::LvtErr,
];

fn ctx(now_ticks: u64) -> HostContext {
    logical_ctx(now_ticks, vec![0; 4], vec![0xFFFF_FFFF; 4])
}

fn logical_ctx(now_ticks: u64, vcpu_ldr: Vec<u32>, vcpu_dfr: Vec<u32>) -> HostContext {
    HostContext { now_ticks, active_vcpus: 0b1111, vcpu_count: 4, vcpu_ldr, vcpu_dfr }
}

fn write_in(v: &mut VirtualApicRegs, reg: ApicRegOffset, val: u64, c: &HostContext) -> (Result<(), ApicError>, Vec<ApicAction>) {
    let mut actions = Vec::new();
    let r = v.handle_write(reg, val, AccessWidth::Dword, c, &mut actions);
    (r, actions)
}

fn write(v: &mut VirtualApicRegs, reg: ApicRegOffset, val: u64, now: u64) -> (Result<(), ApicError>, Vec<ApicAction>) {
    let mut actions = Vec::new();
    let r = v.handle_write(reg, val, AccessWidth::Dword, &ctx(now), &mut actions);
    (r, actions)
}

fn read(v: &VirtualApicRegs, reg: ApicRegOffset) -> u64 {
    v.handle_read(reg, AccessWidth::Dword, 0).unwrap()
}

fn enabled(vcpu: u32) -> VirtualApicRegs {
    let mut v = VirtualApicRegs::new(1, vcpu);
    assert_eq!(write(&mut v, ApicRegOffset::SIVR, 0x1FF, 0).0, Ok(()));
    v
}

#[test]
fn reset_values() {
    let v = VirtualApicRegs::new(1, 0);
    for reg in LVTS {
        assert_eq!(read(&v, reg), 0x0001_0000);
    }
    assert_eq!(read(&v, ApicRegOffset::SIVR), 0xFF);
    assert_eq!(read(&v, ApicRegOffset::TPR), 0);
    assert_eq!(read(&v, ApicRegOffset::ESR), 0);
    assert_eq!(v.isrv(), 0);
    assert_eq!(v.apic_base(), 0);
    assert!(!v.is_x2apic_enabled());
    assert!(!v.timer().is_started());
    assert_eq!(v.page_word(0x0F0 / 4), 0xFF);
    assert_eq!(v.page_word(0x350 / 4), 0x0001_0000);
    assert_eq!(v.page_word(0x3F0 / 4), 0);
}

#[test]
fn fresh_lapic_timer_one_shot() {
    let mut v = VirtualApicRegs::new(7, 2);
    assert_eq!(write(&mut v, ApicRegOffset::LvtTimer, 0x0000_0030, 0).0, Ok(()));
    assert_eq!(write(&mut v, ApicRegOffset::TimerDivConf, 0b1011, 0).0, Ok(()));
    let (r, actions) = write(&mut v, ApicRegOffset::TimerInitCount, 1000, 50);
    assert_eq!(r, Ok(()));
    assert!(v.timer().is_started());
    assert_eq!(
        actions,
        vec![ApicAction::ArmTimer { vm_id: 7, vcpu_id: 2, deadline_ticks: 1050, vector: 0x30 }]
    );
    for now in [0u64, 50, 300, 1049, 1050, 2000] {
        let ccr = v.handle_read(ApicRegOffset::TimerCurCount, AccessWidth::Dword, now).unwrap();
        assert!(ccr <= 1000);
    }
    assert_eq!(v.handle_read(ApicRegOffset::TimerCurCount, AccessWidth::Dword, 300), Ok(750));
    assert_eq!(read(&v, ApicRegOffset::TimerInitCount), 1000);
    let mut more = Vec::new();
    v.timer_expired(1050, &mut more);
    assert!(more.is_empty());
    assert!(!v.timer().is_started());
    assert_eq!(v.handle_read(ApicRegOffset::TimerCurCount, AccessWidth::Dword, 1100), Ok(0));
}

#[test]
fn periodic_rearm() {
    let mut v = VirtualApicRegs::new(7, 2);
    write(&mut v, ApicRegOffset::LvtTimer, 0x0002_0030, 0).0.unwrap();
    write(&mut v, ApicRegOffset::TimerDivConf, 0b1011, 0).0.unwrap();
    let (_, mut arms) = write(&mut v, ApicRegOffset::TimerInitCount, 1000, 0);
    v.timer_expired(1000, &mut arms);
    assert!(v.timer().is_started());
    assert_eq!(
        arms,
        vec![
            ApicAction::ArmTimer { vm_id: 7, vcpu_id: 2, deadline_ticks: 1000, vector: 0x30 },
            ApicAction::ArmTimer { vm_id: 7, vcpu_id: 2, deadline_ticks: 2000, vector: 0x30 },
        ]
    );
}

#[test]
fn illegal_ipi_vector() {
    let mut v = VirtualApicRegs::new(1, 0);
    assert_eq!(write(&mut v, ApicRegOffset::ICRHi, 0, 0), (Ok(()), vec![]));
    assert_eq!(write(&mut v, ApicRegOffset::ICRLow, 0x0000_0005, 0), (Ok(()), vec![]));
    assert_eq!(read(&v, ApicRegOffset::ESR), 0);
    assert_eq!(write(&mut v, ApicRegOffset::ESR, 0, 0).0, Ok(()));
    assert_eq!(read(&v, ApicRegOffset::ESR) & 0x20, 0x20);
    // Freeze and clear: the next ESR write publishes no stale error.
    assert_eq!(write(&mut v, ApicRegOffset::ESR, 0, 0).0, Ok(()));
    assert_eq!(read(&v, ApicRegOffset::ESR), 0);
}

#[test]
fn eoi_ordering() {
    let mut v = VirtualApicRegs::new(1, 0);
    v.set_page_word(0x100 / 4, 0x0000_0020);
    v.set_page_word(0x110 / 4, 0x0000_0100);
    assert_eq!(v.isrv(), 40);
    let (r, actions) = write(&mut v, ApicRegOffset::EOI, 0, 0);
    assert_eq!(r, Ok(()));
    assert!(actions.is_empty());
    assert_eq!(v.isrv(), 5);
    assert_eq!(read(&v, ApicRegOffset::ISR(ISRIndex::ISRIndex1)), 0);
    assert_eq!(read(&v, ApicRegOffset::ISR(ISRIndex::ISRIndex0)), 0x20);
    assert_eq!(read(&v, ApicRegOffset::PPR), 0);
    write(&mut v, ApicRegOffset::EOI, 0, 0).0.unwrap();
    assert_eq!(v.isrv(), 0);
    assert_eq!(read(&v, ApicRegOffset::ISR(ISRIndex::ISRIndex0)), 0);
    // No vector in service: nothing happens.
    assert_eq!(write(&mut v, ApicRegOffset::EOI, 0, 0), (Ok(()), vec![]));
}

#[test]
fn eoi_recomputes_ppr_and_broadcasts_level_triggered() {
    let mut v = VirtualApicRegs::new(1, 0);
    v.set_page_word(0x080 / 4, 0x20); // TPR, class 2
    v.set_page_word(0x160 / 4, 0x0000_0002); // vector 0xC1
    v.set_page_word(0x130 / 4, 0x8000_0000); // vector 0x7F
    v.set_page_word(0x1E0 / 4, 0x0000_0002); // TMR bit 0xC1: level-triggered
    assert_eq!(v.isrv(), 0xC1);
    let (r, actions) = write(&mut v, ApicRegOffset::EOI, 0, 0);
    assert_eq!(r, Ok(()));
    assert_eq!(actions, vec![ApicAction::BroadcastEoi { vector: 0xC1 }]);
    assert_eq!(v.isrv(), 0x7F);
    // Class 7 in service is above the task priority class 2.
    assert_eq!(read(&v, ApicRegOffset::PPR), 0x70);
    assert_eq!(read(&v, ApicRegOffset::TMR(TMRIndex::TMRIndex6)), 2);
    let (_, actions) = write(&mut v, ApicRegOffset::EOI, 0, 0);
    assert!(actions.is_empty());
    assert_eq!(v.isrv(), 0);
    assert_eq!(read(&v, ApicRegOffset::PPR), 0x20);
}

#[test]
fn software_disable_masks_lvts() {
    let mut v = VirtualApicRegs::new(1, 0);
    assert_eq!(write(&mut v, ApicRegOffset::SIVR, 0xFF, 0).0, Ok(()));
    for reg in LVTS {
        assert_eq!(read(&v, reg) & 0x1_0000, 0x1_0000);
    }

    let mut v = enabled(0);
    for reg in LVTS {
        write(&mut v, reg, 0x31, 0).0.unwrap();
        assert_eq!(read(&v, reg), 0x31);
    }
    write(&mut v, ApicRegOffset::TimerInitCount, 10, 0).0.unwrap();
    assert!(v.timer().is_started());
    let (r, actions) = write(&mut v, ApicRegOffset::SIVR, 0x0FF, 5);
    assert_eq!(r, Ok(()));
    assert_eq!(actions, vec![ApicAction::CancelTimer]);
    assert!(!v.timer().is_started());
    for reg in LVTS {
        assert_eq!(read(&v, reg), 0x1_0031);
    }
    // While disabled, an unmasking write stays masked.
    write(&mut v, ApicRegOffset::LvtLint0, 0x32, 0).0.unwrap();
    assert_eq!(read(&v, ApicRegOffset::LvtLint0), 0x1_0032);
}

#[test]
fn software_enable_restarts_periodic_timer() {
    let mut v = enabled(0);
    write(&mut v, ApicRegOffset::LvtTimer, 0x0002_0040, 0).0.unwrap();
    write(&mut v, ApicRegOffset::TimerDivConf, 0b1011, 0).0.unwrap();
    write(&mut v, ApicRegOffset::TimerInitCount, 100, 0).0.unwrap();
    write(&mut v, ApicRegOffset::SIVR, 0xFF, 10).0.unwrap();
    assert!(!v.timer().is_started());
    // The timer was stopped by the disable, so re-enabling starts nothing.
    let (_, actions) = write(&mut v, ApicRegOffset::SIVR, 0x1FF, 20);
    assert!(actions.is_empty());
}

#[test]
fn id_register_ignores_writes() {
    let mut v = VirtualApicRegs::new(1, 3);
    let before = read(&v, ApicRegOffset::ID);
    assert_eq!(write(&mut v, ApicRegOffset::ID, 0xFF00_0000, 0), (Ok(()), vec![]));
    assert_eq!(read(&v, ApicRegOffset::ID), before);
}

#[test]
fn reads_have_no_side_effects() {
    let mut v = enabled(0);
    write(&mut v, ApicRegOffset::LvtLint1, 0x0000_A7FF, 0).0.unwrap();
    write(&mut v, ApicRegOffset::LDR, 0x0300_0000, 0).0.unwrap();
    for i in 0usize..0x40 {
        if let Some(reg) = ApicRegOffset::from(i) {
            let a = v.handle_read(reg, AccessWidth::Dword, 0);
            let b = v.handle_read(reg, AccessWidth::Dword, 0);
            assert_eq!(a, b);
        }
    }
    assert_eq!(read(&v, ApicRegOffset::EOI), 0);
    assert_eq!(read(&v, ApicRegOffset::LvtLint1), 0x0000_A7FF);
}

#[test]
fn lvt_write_twice_converges() {
    for reg in LVTS {
        let mut v = enabled(0);
        write(&mut v, reg, 0xFFFF_FFFF, 0).0.unwrap();
        let once: Vec<u32> = (0..1024).map(|i| v.page_word(i)).collect();
        let read_once = read(&v, reg);
        write(&mut v, reg, 0xFFFF_FFFF, 0).0.unwrap();
        let twice: Vec<u32> = (0..1024).map(|i| v.page_word(i)).collect();
        assert_eq!(once, twice);
        assert_eq!(read(&v, reg), read_once);
    }
}

#[test]
fn lvt_write_masks() {
    let expected = [
        (ApicRegOffset::LvtCMCI, 0x0001_17FFu64),
        (ApicRegOffset::LvtTimer, 0x0007_10FF),
        (ApicRegOffset::LvtThermal, 0x0001_17FF),
        (ApicRegOffset::LvtPmc, 0x0001_17FF),
        (ApicRegOffset::LvtLint0, 0x0001_F7FF),
        (ApicRegOffset::LvtLint1, 0x0001_F7FF),
        (ApicRegOffset::LvtErr, 0x0001_10FF),
    ];
    let mut v = enabled(0);
    for (reg, mask) in expected {
        write(&mut v, reg, 0xFFFF_FFFF, 0).0.unwrap();
        assert_eq!(read(&v, reg), mask);
    }
    assert_eq!(v.timer().read_lvt(), 0x0007_10FF);
}

#[test]
fn mask_only_write_clears_vector() {
    let mut v = enabled(0);
    for reg in LVTS {
        write(&mut v, reg, 0x45, 0).0.unwrap();
        assert_eq!(read(&v, reg) & 0xFF, 0x45);
        write(&mut v, reg, 0x10000, 0).0.unwrap();
        assert_eq!(read(&v, reg), 0x10000);
    }
}

#[test]
fn ldr_and_dfr_reserved_bits() {
    let mut v = VirtualApicRegs::new(1, 0);
    write(&mut v, ApicRegOffset::LDR, 0x1234_5678, 0).0.unwrap();
    assert_eq!(read(&v, ApicRegOffset::LDR), 0x1200_0000);
    write(&mut v, ApicRegOffset::DFR, 0x0000_0000, 0).0.unwrap();
    assert_eq!(read(&v, ApicRegOffset::DFR), 0x0FFF_FFFF);
    write(&mut v, ApicRegOffset::DFR, 0xF000_1234, 0).0.unwrap();
    assert_eq!(read(&v, ApicRegOffset::DFR), 0xFFFF_FFFF);
}

#[test]
fn physical_fixed_ipi() {
    let mut v = VirtualApicRegs::new(1, 0);
    write(&mut v, ApicRegOffset::ICRHi, 2 << 24, 0).0.unwrap();
    let (r, actions) = write(&mut v, ApicRegOffset::ICRLow, 0x0000_1031, 0);
    assert_eq!(r, Ok(()));
    assert_eq!(actions, vec![ApicAction::InjectInterrupt { vcpu_id: 2, vector: 0x31 }]);
    // Delivery status reads back as idle.
    assert_eq!(read(&v, ApicRegOffset::ICRLow), 0x31);
    // A destination beyond the VM's vCPUs reaches nobody.
    write(&mut v, ApicRegOffset::ICRHi, 9 << 24, 0).0.unwrap();
    assert_eq!(write(&mut v, ApicRegOffset::ICRLow, 0x31, 0), (Ok(()), vec![]));
}

#[test]
fn broadcast_and_shorthand_ipis() {
    let mut v = VirtualApicRegs::new(1, 1);
    write(&mut v, ApicRegOffset::ICRHi, 0xFF << 24, 0).0.unwrap();
    let (_, actions) = write(&mut v, ApicRegOffset::ICRLow, 0x40, 0);
    assert_eq!(actions.len(), 4);
    let (_, actions) = write(&mut v, ApicRegOffset::ICRLow, 0x000C_0040, 0);
    assert_eq!(
        actions,
        vec![
            ApicAction::InjectInterrupt { vcpu_id: 0, vector: 0x40 },
            ApicAction::InjectInterrupt { vcpu_id: 2, vector: 0x40 },
            ApicAction::InjectInterrupt { vcpu_id: 3, vector: 0x40 },
        ]
    );
    let (_, actions) = write(&mut v, ApicRegOffset::ICRLow, 0x0004_0041, 0);
    assert_eq!(actions, vec![ApicAction::InjectInterrupt { vcpu_id: 1, vector: 0x41 }]);
    let (_, actions) = write(&mut v, ApicRegOffset::ICRLow, 0x0008_0042, 0);
    assert_eq!(actions.len(), 4);
    // NMI, INIT and start-up to self are dropped.
    for icr in [0x0004_0400u64, 0x0008_0500, 0x0004_0600] {
        assert_eq!(write(&mut v, ApicRegOffset::ICRLow, icr, 0), (Ok(()), vec![]));
    }
}

#[test]
fn nmi_init_startup_and_smi_ipis() {
    let mut v = VirtualApicRegs::new(1, 0);
    write(&mut v, ApicRegOffset::ICRHi, 3 << 24, 0).0.unwrap();
    let (_, a) = write(&mut v, ApicRegOffset::ICRLow, 0x0400, 0);
    assert_eq!(a, vec![ApicAction::InjectNmi { vcpu_id: 3 }]);
    let (_, a) = write(&mut v, ApicRegOffset::ICRLow, 0x4500, 0);
    assert_eq!(a, vec![ApicAction::InitSipi { vcpu_id: 3, mode: InitSipiMode::Init, icr_low: 0x4500 }]);
    let (_, a) = write(&mut v, ApicRegOffset::ICRLow, 0x069A, 0);
    assert_eq!(a, vec![ApicAction::InitSipi { vcpu_id: 3, mode: InitSipiMode::StartUp, icr_low: 0x069A }]);
    assert_eq!(write(&mut v, ApicRegOffset::ICRLow, 0x0200, 0), (Ok(()), vec![]));
}

#[test]
fn logical_flat_and_cluster_ipis() {
    let mut v = VirtualApicRegs::new(1, 0);
    // Flat model: each vCPU's own 8-bit logical ID.
    let flat = logical_ctx(0, vec![0x01 << 24, 0x02 << 24, 0x04 << 24, 0x08 << 24], vec![0xFFFF_FFFF; 4]);
    write_in(&mut v, ApicRegOffset::ICRHi, 0x0C << 24, &flat).0.unwrap();
    let (r, a) = write_in(&mut v, ApicRegOffset::ICRLow, 0x0850, &flat);
    assert_eq!(r, Ok(()));
    assert_eq!(
        a,
        vec![
            ApicAction::InjectInterrupt { vcpu_id: 2, vector: 0x50 },
            ApicAction::InjectInterrupt { vcpu_id: 3, vector: 0x50 },
        ]
    );
    write_in(&mut v, ApicRegOffset::ICRHi, 0x30 << 24, &flat).0.unwrap();
    assert_eq!(write_in(&mut v, ApicRegOffset::ICRLow, 0x0850, &flat), (Ok(()), vec![]));

    // Cluster model: cluster 2, members 1 and 2.
    let cluster = logical_ctx(0, vec![0x21 << 24, 0x22 << 24, 0x31 << 24, 0x24 << 24], vec![0x0FFF_FFFF; 4]);
    write_in(&mut v, ApicRegOffset::ICRHi, 0x23 << 24, &cluster).0.unwrap();
    let (_, a) = write_in(&mut v, ApicRegOffset::ICRLow, 0x0850, &cluster);
    assert_eq!(
        a,
        vec![
            ApicAction::InjectInterrupt { vcpu_id: 0, vector: 0x50 },
            ApicAction::InjectInterrupt { vcpu_id: 1, vector: 0x50 },
        ]
    );

    // An inactive vCPU or one the host did not describe is never selected.
    let mut partial = logical_ctx(0, vec![0xFF << 24, 0xFF << 24], vec![0xFFFF_FFFF; 2]);
    partial.active_vcpus = 0b1110;
    write_in(&mut v, ApicRegOffset::ICRHi, 0x0F << 24, &partial).0.unwrap();
    let (_, a) = write_in(&mut v, ApicRegOffset::ICRLow, 0x0850, &partial);
    assert_eq!(a, vec![ApicAction::InjectInterrupt { vcpu_id: 1, vector: 0x50 }]);
}

#[test]
fn logical_ipi_with_reserved_dfr_model_of_a_target() {
    let mut v = VirtualApicRegs::new(1, 0);
    let c = logical_ctx(0, vec![0x01 << 24; 4], vec![0xFFFF_FFFF, 0x5FFF_FFFF, 0xFFFF_FFFF, 0xFFFF_FFFF]);
    write_in(&mut v, ApicRegOffset::ICRHi, 0x01 << 24, &c).0.unwrap();
    assert_eq!(write_in(&mut v, ApicRegOffset::ICRLow, 0x0840, &c), (Err(ApicError::InvalidData), vec![]));
}

#[test]
fn lvt_mask_follows_the_svr_cell() {
    // Enabled: the written value is kept with the register's writable bits.
    let mut v = enabled(0);
    assert_eq!(read(&v, ApicRegOffset::SIVR) & 0x100, 0x100);
    write(&mut v, ApicRegOffset::LvtLint0, 0xFFFF_0030, 0).0.unwrap();
    assert_eq!(read(&v, ApicRegOffset::LvtLint0), 0x0001_0030);
    write(&mut v, ApicRegOffset::LvtLint0, 0x30, 0).0.unwrap();
    assert_eq!(read(&v, ApicRegOffset::LvtLint0), 0x30);
    // Disabled: the mask bit is forced.
    let mut v = VirtualApicRegs::new(1, 0);
    assert_eq!(read(&v, ApicRegOffset::SIVR) & 0x100, 0);
    write(&mut v, ApicRegOffset::LvtLint0, 0x30, 0).0.unwrap();
    assert_eq!(read(&v, ApicRegOffset::LvtLint0), 0x1_0030);
}

#[test]
fn page_sync_leaves_the_svr_cell_alone() {
    let mut v = VirtualApicRegs::new(1, 0);
    v.set_page_word(0x0F0 / 4, 0x1FF);
    assert_eq!(read(&v, ApicRegOffset::SIVR), 0xFF);
    write(&mut v, ApicRegOffset::LvtLint1, 0x30, 0).0.unwrap();
    assert_eq!(read(&v, ApicRegOffset::LvtLint1), 0x1_0030);
    v.set_page_word(0x080 / 4, 0x40);
    assert_eq!(read(&v, ApicRegOffset::TPR), 0x40);
}

#[test]
fn invalid_input_errors() {
    let mut v = VirtualApicRegs::new(1, 0);
    let mut actions = Vec::new();
    assert_eq!(
        v.handle_write(ApicRegOffset::TPR, 1, AccessWidth::Byte, &ctx(0), &mut actions),
        Err(ApicError::InvalidInput)
    );
    assert_eq!(
        v.handle_write(ApicRegOffset::ICRLow, 0x40, AccessWidth::Qword, &ctx(0), &mut actions),
        Err(ApicError::InvalidInput)
    );
    assert_eq!(v.handle_read(ApicRegOffset::ICRLow, AccessWidth::Qword, 0), Err(ApicError::InvalidInput));
    assert_eq!(v.handle_read(ApicRegOffset::SIVR, AccessWidth::Word, 0), Err(ApicError::InvalidInput));
    assert_eq!(write(&mut v, ApicRegOffset::SelfIPI, 0x40, 0).0, Err(ApicError::InvalidInput));
    for reg in [
        ApicRegOffset::Version,
        ApicRegOffset::TPR,
        ApicRegOffset::PPR,
        ApicRegOffset::ISR(ISRIndex::ISRIndex0),
        ApicRegOffset::TimerCurCount,
    ] {
        assert_eq!(write(&mut v, reg, 0, 0).0, Err(ApicError::InvalidInput));
    }
    assert!(actions.is_empty());
}

#[test]
fn invalid_data_errors() {
    let mut v = enabled(0);
    // Reserved delivery modes.
    assert_eq!(write(&mut v, ApicRegOffset::ICRLow, 0x0340, 0), (Err(ApicError::InvalidData), vec![]));
    assert_eq!(write(&mut v, ApicRegOffset::ICRLow, 0x0740, 0), (Err(ApicError::InvalidData), vec![]));
    // Logical destination under a reserved DFR model.
    let c = logical_ctx(0, vec![0x01 << 24; 4], vec![0x5FFF_FFFF; 4]);
    write_in(&mut v, ApicRegOffset::ICRHi, 0x01 << 24, &c).0.unwrap();
    assert_eq!(write_in(&mut v, ApicRegOffset::ICRLow, 0x0840, &c), (Err(ApicError::InvalidData), vec![]));
    // Reserved timer mode.
    write(&mut v, ApicRegOffset::LvtTimer, 0x0006_0040, 0).0.unwrap();
    assert_eq!(v.timer_mode(), Err(ApicError::InvalidData));
    assert_eq!(write(&mut v, ApicRegOffset::TimerInitCount, 5, 0), (Err(ApicError::InvalidData), vec![]));
    assert!(!v.timer().is_started());
}

#[test]
fn tsc_deadline_mode_ignores_initial_count() {
    let mut v = enabled(0);
    write(&mut v, ApicRegOffset::LvtTimer, 0x0004_0040, 0).0.unwrap();
    assert_eq!(write(&mut v, ApicRegOffset::TimerInitCount, 5, 0), (Ok(()), vec![]));
    assert!(!v.timer().is_started());
    assert_eq!(read(&v, ApicRegOffset::TimerInitCount), 0);
}

#[test]
fn divide_configuration_through_the_page() {
    let mut v = VirtualApicRegs::new(1, 0);
    write(&mut v, ApicRegOffset::TimerDivConf, 0xFFFF_FFFF, 0).0.unwrap();
    assert_eq!(v.timer().read_dcr(), 0b1011);
    assert_eq!(read(&v, ApicRegOffset::TimerDivConf), 0xFFFF_FFFF);
}
