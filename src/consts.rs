//! Register identities of the local APIC and the decoders that map an xAPIC
//! MMIO address or an x2APIC MSR index to one.

use vstd::prelude::*;

verus! {

/// Index of one of the eight 32-bit banks of the In-Service Register.
#[derive(Clone, Copy, Debug, PartialEq, Eq, Structural)]
pub enum ISRIndex {
    ISRIndex0,
    ISRIndex1,
    ISRIndex2,
    ISRIndex3,
    ISRIndex4,
    ISRIndex5,
    ISRIndex6,
    ISRIndex7,
}

/// Index of one of the eight 32-bit banks of the Trigger Mode Register.
#[derive(Clone, Copy, Debug, PartialEq, Eq, Structural)]
pub enum TMRIndex {
    TMRIndex0,
    TMRIndex1,
    TMRIndex2,
    TMRIndex3,
    TMRIndex4,
    TMRIndex5,
    TMRIndex6,
    TMRIndex7,
}

/// Index of one of the eight 32-bit banks of the Interrupt Request Register.
#[derive(Clone, Copy, Debug, PartialEq, Eq, Structural)]
pub enum IRRIndex {
    IRRIndex0,
    IRRIndex1,
    IRRIndex2,
    IRRIndex3,
    IRRIndex4,
    IRRIndex5,
    IRRIndex6,
    IRRIndex7,
}

impl ISRIndex {
    pub open spec fn spec_usize(&self) -> usize {
        match self {
            ISRIndex::ISRIndex0 => 0,
            ISRIndex::ISRIndex1 => 1,
            ISRIndex::ISRIndex2 => 2,
            ISRIndex::ISRIndex3 => 3,
            ISRIndex::ISRIndex4 => 4,
            ISRIndex::ISRIndex5 => 5,
            ISRIndex::ISRIndex6 => 6,
            ISRIndex::ISRIndex7 => 7,
        }
    }

    fn from(value: usize) -> (r: Self)
        requires
            value < 8,
        ensures
            r.spec_usize() == value,
    {
        match value {
            0 => ISRIndex::ISRIndex0,
            1 => ISRIndex::ISRIndex1,
            2 => ISRIndex::ISRIndex2,
            3 => ISRIndex::ISRIndex3,
            4 => ISRIndex::ISRIndex4,
            5 => ISRIndex::ISRIndex5,
            6 => ISRIndex::ISRIndex6,
            _ => ISRIndex::ISRIndex7,
        }
    }

    /// The bank number, 0 to 7.
    pub fn as_usize(&self) -> (r: usize)
        ensures
            r == self.spec_usize(),
            r < 8,
    {
        match self {
            ISRIndex::ISRIndex0 => 0,
            ISRIndex::ISRIndex1 => 1,
            ISRIndex::ISRIndex2 => 2,
            ISRIndex::ISRIndex3 => 3,
            ISRIndex::ISRIndex4 => 4,
            ISRIndex::ISRIndex5 => 5,
            ISRIndex::ISRIndex6 => 6,
            ISRIndex::ISRIndex7 => 7,
        }
    }
}

impl TMRIndex {
    pub open spec fn spec_usize(&self) -> usize {
        match self {
            TMRIndex::TMRIndex0 => 0,
            TMRIndex::TMRIndex1 => 1,
            TMRIndex::TMRIndex2 => 2,
            TMRIndex::TMRIndex3 => 3,
            TMRIndex::TMRIndex4 => 4,
            TMRIndex::TMRIndex5 => 5,
            TMRIndex::TMRIndex6 => 6,
            TMRIndex::TMRIndex7 => 7,
        }
    }

    fn from(value: usize) -> (r: Self)
        requires
            value < 8,
        ensures
            r.spec_usize() == value,
    {
        match value {
            0 => TMRIndex::TMRIndex0,
            1 => TMRIndex::TMRIndex1,
            2 => TMRIndex::TMRIndex2,
            3 => TMRIndex::TMRIndex3,
            4 => TMRIndex::TMRIndex4,
            5 => TMRIndex::TMRIndex5,
            6 => TMRIndex::TMRIndex6,
            _ => TMRIndex::TMRIndex7,
        }
    }

    /// The bank number, 0 to 7.
    pub fn as_usize(&self) -> (r: usize)
        ensures
            r == self.spec_usize(),
            r < 8,
    {
        match self {
            TMRIndex::TMRIndex0 => 0,
            TMRIndex::TMRIndex1 => 1,
            TMRIndex::TMRIndex2 => 2,
            TMRIndex::TMRIndex3 => 3,
            TMRIndex::TMRIndex4 => 4,
            TMRIndex::TMRIndex5 => 5,
            TMRIndex::TMRIndex6 => 6,
            TMRIndex::TMRIndex7 => 7,
        }
    }
}

impl IRRIndex {
    pub open spec fn spec_usize(&self) -> usize {
        match self {
            IRRIndex::IRRIndex0 => 0,
            IRRIndex::IRRIndex1 => 1,
            IRRIndex::IRRIndex2 => 2,
            IRRIndex::IRRIndex3 => 3,
            IRRIndex::IRRIndex4 => 4,
            IRRIndex::IRRIndex5 => 5,
            IRRIndex::IRRIndex6 => 6,
            IRRIndex::IRRIndex7 => 7,
        }
    }

    fn from(value: usize) -> (r: Self)
        requires
            value < 8,
        ensures
            r.spec_usize() == value,
    {
        match value {
            0 => IRRIndex::IRRIndex0,
            1 => IRRIndex::IRRIndex1,
            2 => IRRIndex::IRRIndex2,
            3 => IRRIndex::IRRIndex3,
            4 => IRRIndex::IRRIndex4,
            5 => IRRIndex::IRRIndex5,
            6 => IRRIndex::IRRIndex6,
            _ => IRRIndex::IRRIndex7,
        }
    }

    /// The bank number, 0 to 7.
    pub fn as_usize(&self) -> (r: usize)
        ensures
            r == self.spec_usize(),
            r < 8,
    {
        match self {
            IRRIndex::IRRIndex0 => 0,
            IRRIndex::IRRIndex1 => 1,
            IRRIndex::IRRIndex2 => 2,
            IRRIndex::IRRIndex3 => 3,
            IRRIndex::IRRIndex4 => 4,
            IRRIndex::IRRIndex5 => 5,
            IRRIndex::IRRIndex6 => 6,
            IRRIndex::IRRIndex7 => 7,
        }
    }
}

/// The identity of a local APIC register.
#[derive(Clone, Copy, Debug, PartialEq, Eq, Structural)]
pub enum ApicRegOffset {
    /// ID register 0x2.
    ID,
    /// Version register 0x3.
    Version,
    /// Task Priority register 0x8.
    TPR,
    /// Arbitration Priority register 0x9.
    APR,
    /// Processor Priority register 0xA.
    PPR,
    /// EOI register 0xB.
    EOI,
    /// Remote Read register 0xC.
    RRR,
    /// Logical Destination Register 0xD.
    LDR,
    /// Destination Format register 0xE.
    DFR,
    /// Spurious Interrupt Vector register 0xF.
    SIVR,
    /// In-Service register 0x10..=0x17.
    ISR(ISRIndex),
    /// Trigger Mode register 0x18..=0x1F.
    TMR(TMRIndex),
    /// Interrupt Request register 0x20..=0x27.
    IRR(IRRIndex),
    /// Error Status register 0x28.
    ESR,
    /// LVT CMCI register 0x2F.
    LvtCMCI,
    /// Interrupt Command register, low half, 0x30.
    ICRLow,
    /// Interrupt Command register, high half, 0x31.
    ICRHi,
    /// LVT Timer Interrupt register 0x32.
    LvtTimer,
    /// LVT Thermal Sensor Interrupt register 0x33.
    LvtThermal,
    /// LVT Performance Monitoring Counters register 0x34.
    LvtPmc,
    /// LVT LINT0 register 0x35.
    LvtLint0,
    /// LVT LINT1 register 0x36.
    LvtLint1,
    /// LVT Error register 0x37.
    LvtErr,
    /// Initial Count register (timer) 0x38.
    TimerInitCount,
    /// Current Count register (timer) 0x39.
    TimerCurCount,
    /// Divide Configuration register (timer) 0x3E.
    TimerDivConf,
    /// Self IPI register 0x3F, available only in x2APIC mode.
    SelfIPI,
}

/// The register index of an identity: its byte offset in the xAPIC window
/// divided by 16, and its MSR number minus 0x800.
pub open spec fn spec_reg_index(r: ApicRegOffset) -> usize {
    match r {
        ApicRegOffset::ID => 0x2,
        ApicRegOffset::Version => 0x3,
        ApicRegOffset::TPR => 0x8,
        ApicRegOffset::APR => 0x9,
        ApicRegOffset::PPR => 0xA,
        ApicRegOffset::EOI => 0xB,
        ApicRegOffset::RRR => 0xC,
        ApicRegOffset::LDR => 0xD,
        ApicRegOffset::DFR => 0xE,
        ApicRegOffset::SIVR => 0xF,
        ApicRegOffset::ISR(i) => (0x10 + i.spec_usize()) as usize,
        ApicRegOffset::TMR(i) => (0x18 + i.spec_usize()) as usize,
        ApicRegOffset::IRR(i) => (0x20 + i.spec_usize()) as usize,
        ApicRegOffset::ESR => 0x28,
        ApicRegOffset::LvtCMCI => 0x2F,
        ApicRegOffset::ICRLow => 0x30,
        ApicRegOffset::ICRHi => 0x31,
        ApicRegOffset::LvtTimer => 0x32,
        ApicRegOffset::LvtThermal => 0x33,
        ApicRegOffset::LvtPmc => 0x34,
        ApicRegOffset::LvtLint0 => 0x35,
        ApicRegOffset::LvtLint1 => 0x36,
        ApicRegOffset::LvtErr => 0x37,
        ApicRegOffset::TimerInitCount => 0x38,
        ApicRegOffset::TimerCurCount => 0x39,
        ApicRegOffset::TimerDivConf => 0x3E,
        ApicRegOffset::SelfIPI => 0x3F,
    }
}

/// Decoding a register index: the identity whose index it is, if there is one.
pub open spec fn spec_decode(value: usize) -> Option<ApicRegOffset> {
    if exists|r: ApicRegOffset| spec_reg_index(r) == value {
        Some(choose|r: ApicRegOffset| spec_reg_index(r) == value)
    } else {
        None
    }
}

/// Decoding a guest physical address in the xAPIC MMIO window.
pub open spec fn spec_xapic_decode(addr: usize) -> Option<ApicRegOffset> {
    spec_decode(((addr % 4096) / 16) as usize)
}

/// Decoding an x2APIC MSR index.
pub open spec fn spec_x2apic_decode(msr: usize) -> Option<ApicRegOffset> {
    if X2APIC_MSR_REG_BASE <= msr < X2APIC_MSR_REG_BASE + X2APIC_MSR_REG_SIZE {
        spec_decode((msr - X2APIC_MSR_REG_BASE) as usize)
    } else {
        None
    }
}

/// Two identities with the same index are the same identity.
pub proof fn lemma_reg_index_injective(a: ApicRegOffset, b: ApicRegOffset)
    requires
        spec_reg_index(a) == spec_reg_index(b),
    ensures
        a == b,
{
}

/// Decoder round trip: decoding the index of an identity gives that identity
/// back, for every identity.
pub proof fn lemma_decode_round_trip(r: ApicRegOffset)
    ensures
        spec_decode(spec_reg_index(r)) == Some(r),
        spec_xapic_decode((DEFAULT_APIC_BASE + 16 * spec_reg_index(r)) as usize) == Some(r),
        spec_x2apic_decode((X2APIC_MSR_REG_BASE + spec_reg_index(r)) as usize) == Some(r),
{
    let c = choose|x: ApicRegOffset| spec_reg_index(x) == spec_reg_index(r);
    lemma_reg_index_injective(c, r);
    let a = (DEFAULT_APIC_BASE + 16 * spec_reg_index(r)) as usize;
    assert((a % 4096) / 16 == spec_reg_index(r));
}

/// Addresses in one 16-byte slot of the xAPIC window decode alike: only the
/// bits above the low nibble of the window offset drive decoding.
pub proof fn lemma_xapic_decode_slot(a: usize, b: usize)
    requires
        a / 16 == b / 16,
    ensures
        spec_xapic_decode(a) == spec_xapic_decode(b),
{
    assert((a % 4096) / 16 == (b % 4096) / 16) by (nonlinear_arith)
        requires
            a / 16 == b / 16,
    ;
}

impl ApicRegOffset {
    /// Decode a register index (a window offset divided by 16, or an MSR
    /// number minus 0x800). An index that names no register gives `None`.
    pub fn from(value: usize) -> (r: Option<Self>)
        ensures
            r == spec_decode(value),
    {
        let r = match value {
            0x2 => Some(ApicRegOffset::ID),
            0x3 => Some(ApicRegOffset::Version),
            0x8 => Some(ApicRegOffset::TPR),
            0x9 => Some(ApicRegOffset::APR),
            0xA => Some(ApicRegOffset::PPR),
            0xB => Some(ApicRegOffset::EOI),
            0xC => Some(ApicRegOffset::RRR),
            0xD => Some(ApicRegOffset::LDR),
            0xE => Some(ApicRegOffset::DFR),
            0xF => Some(ApicRegOffset::SIVR),
            0x10..=0x17 => Some(ApicRegOffset::ISR(ISRIndex::from(value - 0x10))),
            0x18..=0x1F => Some(ApicRegOffset::TMR(TMRIndex::from(value - 0x18))),
            0x20..=0x27 => Some(ApicRegOffset::IRR(IRRIndex::from(value - 0x20))),
            0x28 => Some(ApicRegOffset::ESR),
            0x2F => Some(ApicRegOffset::LvtCMCI),
            0x30 => Some(ApicRegOffset::ICRLow),
            0x31 => Some(ApicRegOffset::ICRHi),
            0x32 => Some(ApicRegOffset::LvtTimer),
            0x33 => Some(ApicRegOffset::LvtThermal),
            0x34 => Some(ApicRegOffset::LvtPmc),
            0x35 => Some(ApicRegOffset::LvtLint0),
            0x36 => Some(ApicRegOffset::LvtLint1),
            0x37 => Some(ApicRegOffset::LvtErr),
            0x38 => Some(ApicRegOffset::TimerInitCount),
            0x39 => Some(ApicRegOffset::TimerCurCount),
            0x3E => Some(ApicRegOffset::TimerDivConf),
            0x3F => Some(ApicRegOffset::SelfIPI),
            _ => None,
        };
        proof {
            match r {
                Some(x) => {
                    lemma_decode_round_trip(x);
                },
                None => {
                    assert forall|x: ApicRegOffset| spec_reg_index(x) != value by {
                        match x {
                            ApicRegOffset::ISR(i) => {},
                            ApicRegOffset::TMR(i) => {},
                            ApicRegOffset::IRR(i) => {},
                            _ => {},
                        }
                    }
                },
            }
        }
        r
    }

    /// The register index of this identity.
    pub fn index(&self) -> (r: usize)
        ensures
            r == spec_reg_index(*self),
            r < 0x40,
    {
        match self {
            ApicRegOffset::ID => 0x2,
            ApicRegOffset::Version => 0x3,
            ApicRegOffset::TPR => 0x8,
            ApicRegOffset::APR => 0x9,
            ApicRegOffset::PPR => 0xA,
            ApicRegOffset::EOI => 0xB,
            ApicRegOffset::RRR => 0xC,
            ApicRegOffset::LDR => 0xD,
            ApicRegOffset::DFR => 0xE,
            ApicRegOffset::SIVR => 0xF,
            ApicRegOffset::ISR(i) => 0x10 + i.as_usize(),
            ApicRegOffset::TMR(i) => 0x18 + i.as_usize(),
            ApicRegOffset::IRR(i) => 0x20 + i.as_usize(),
            ApicRegOffset::ESR => 0x28,
            ApicRegOffset::LvtCMCI => 0x2F,
            ApicRegOffset::ICRLow => 0x30,
            ApicRegOffset::ICRHi => 0x31,
            ApicRegOffset::LvtTimer => 0x32,
            ApicRegOffset::LvtThermal => 0x33,
            ApicRegOffset::LvtPmc => 0x34,
            ApicRegOffset::LvtLint0 => 0x35,
            ApicRegOffset::LvtLint1 => 0x36,
            ApicRegOffset::LvtErr => 0x37,
            ApicRegOffset::TimerInitCount => 0x38,
            ApicRegOffset::TimerCurCount => 0x39,
            ApicRegOffset::TimerDivConf => 0x3E,
            ApicRegOffset::SelfIPI => 0x3F,
        }
    }
}

/// Value of every LVT register after reset: masked, vector 0.
pub const RESET_LVT_REG: u32 = 0x00010000;

/// Value of the Spurious-Interrupt Vector Register after reset.
pub const RESET_SPURIOUS_INTERRUPT_VECTOR: u32 = 0x0000_00FF;

/// Base of the xAPIC MMIO window.
pub const DEFAULT_APIC_BASE: usize = 0xFEE0_0000;

/// Size of the xAPIC MMIO window.
pub const APIC_MMIO_SIZE: usize = 0x1000;

/// Destination of an xAPIC broadcast IPI.
pub const XAPIC_BROADCAST_DEST_ID: u32 = 0xFF;

/// First MSR of the x2APIC register window.
pub const X2APIC_MSR_REG_BASE: usize = 0x800;

/// Number of MSRs in the x2APIC register window.
pub const X2APIC_MSR_REG_SIZE: usize = 0x100;

/// Destination of an x2APIC broadcast IPI, in both destination modes.
pub const X2APIC_BROADCAST_DEST_ID: u32 = 0xFFFF_FFFF;

/// Decode a guest physical address in the xAPIC MMIO window: the register
/// index is bits 4 to 11 of the address.
pub fn xapic_mmio_access_reg_offset(addr: usize) -> (r: Option<ApicRegOffset>)
    ensures
        r == spec_xapic_decode(addr),
{
    proof {
        assert((addr & 0xFFFusize) >> 4usize == (addr % 4096) / 16) by (bit_vector);
    }
    ApicRegOffset::from((addr & (APIC_MMIO_SIZE - 1)) >> 4)
}

/// Decode an MSR index in the x2APIC window [0x800, 0x900). An MSR outside the
/// window, or one that names no register, gives `None`.
pub fn x2apic_msr_access_reg(msr: usize) -> (r: Option<ApicRegOffset>)
    ensures
        r == spec_x2apic_decode(msr),
{
    if msr < X2APIC_MSR_REG_BASE || msr >= X2APIC_MSR_REG_BASE + X2APIC_MSR_REG_SIZE {
        return None;
    }
    ApicRegOffset::from(msr - X2APIC_MSR_REG_BASE)
}

} // verus!
