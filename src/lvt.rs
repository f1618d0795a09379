//! The Local Vector Table shadow: the copy of the seven LVT registers that
//! guest reads see, and the writable bits of each.

use vstd::prelude::*;

use crate::consts::{ApicRegOffset, RESET_LVT_REG};

verus! {

/// Writable bits of the LVT Timer register: vector, delivery status, mask,
/// timer mode.
pub const LVT_TIMER_WRITE_MASK: u32 = crate::timer::LVT_TIMER_MASK;

/// Writable bits of the LVT LINT0 and LINT1 registers: vector, delivery mode,
/// delivery status, polarity, remote IRR, trigger mode, mask.
pub const LVT_LINT_WRITE_MASK: u32 = 0x0001_F7FF;

/// Writable bits of the LVT CMCI, Thermal and Performance Counter registers:
/// vector, delivery mode, delivery status, mask.
pub const LVT_DELIVERY_WRITE_MASK: u32 = 0x0001_17FF;

/// Writable bits of the LVT Error register: vector, delivery status, mask.
pub const LVT_ERROR_WRITE_MASK: u32 = 0x0001_10FF;

/// Whether a register identity is one of the seven LVT registers.
pub open spec fn is_lvt(r: ApicRegOffset) -> bool {
    match r {
        ApicRegOffset::LvtCMCI | ApicRegOffset::LvtTimer | ApicRegOffset::LvtThermal
        | ApicRegOffset::LvtPmc | ApicRegOffset::LvtLint0 | ApicRegOffset::LvtLint1
        | ApicRegOffset::LvtErr => true,
        _ => false,
    }
}

/// The writable bits of an LVT register.
pub open spec fn spec_lvt_write_mask(r: ApicRegOffset) -> u32 {
    match r {
        ApicRegOffset::LvtTimer => LVT_TIMER_WRITE_MASK,
        ApicRegOffset::LvtLint0 | ApicRegOffset::LvtLint1 => LVT_LINT_WRITE_MASK,
        ApicRegOffset::LvtCMCI | ApicRegOffset::LvtThermal | ApicRegOffset::LvtPmc =>
            LVT_DELIVERY_WRITE_MASK,
        _ => LVT_ERROR_WRITE_MASK,
    }
}

/// The writable bits of an LVT register.
pub fn lvt_write_mask(r: ApicRegOffset) -> (m: u32)
    ensures
        m == spec_lvt_write_mask(r),
{
    match r {
        ApicRegOffset::LvtTimer => LVT_TIMER_WRITE_MASK,
        ApicRegOffset::LvtLint0 | ApicRegOffset::LvtLint1 => LVT_LINT_WRITE_MASK,
        ApicRegOffset::LvtCMCI | ApicRegOffset::LvtThermal | ApicRegOffset::LvtPmc =>
            LVT_DELIVERY_WRITE_MASK,
        _ => LVT_ERROR_WRITE_MASK,
    }
}

/// A copy of the seven LVT registers.
#[derive(Clone, Copy, Debug, PartialEq, Eq, Structural)]
pub struct LocalVectorTable {
    /// LVT CMCI register (FEE0 02F0H).
    pub lvt_cmci: u32,
    /// LVT Timer register (FEE0 0320H).
    pub lvt_timer: u32,
    /// LVT Thermal Monitor register (FEE0 0330H).
    pub lvt_thermal: u32,
    /// LVT Performance Counter register (FEE0 0340H).
    pub lvt_perf_count: u32,
    /// LVT LINT0 register (FEE0 0350H).
    pub lvt_lint0: u32,
    /// LVT LINT1 register (FEE0 0360H).
    pub lvt_lint1: u32,
    /// LVT Error register (FEE0 0370H).
    pub lvt_err: u32,
}

impl LocalVectorTable {
    /// The copy of LVT register `r`.
    pub open spec fn spec_get(self, r: ApicRegOffset) -> u32 {
        match r {
            ApicRegOffset::LvtCMCI => self.lvt_cmci,
            ApicRegOffset::LvtTimer => self.lvt_timer,
            ApicRegOffset::LvtThermal => self.lvt_thermal,
            ApicRegOffset::LvtPmc => self.lvt_perf_count,
            ApicRegOffset::LvtLint0 => self.lvt_lint0,
            ApicRegOffset::LvtLint1 => self.lvt_lint1,
            _ => self.lvt_err,
        }
    }

    /// The table with the copy of LVT register `r` replaced by `v`.
    pub open spec fn spec_set(self, r: ApicRegOffset, v: u32) -> LocalVectorTable {
        match r {
            ApicRegOffset::LvtCMCI => LocalVectorTable { lvt_cmci: v, ..self },
            ApicRegOffset::LvtTimer => LocalVectorTable { lvt_timer: v, ..self },
            ApicRegOffset::LvtThermal => LocalVectorTable { lvt_thermal: v, ..self },
            ApicRegOffset::LvtPmc => LocalVectorTable { lvt_perf_count: v, ..self },
            ApicRegOffset::LvtLint0 => LocalVectorTable { lvt_lint0: v, ..self },
            ApicRegOffset::LvtLint1 => LocalVectorTable { lvt_lint1: v, ..self },
            _ => LocalVectorTable { lvt_err: v, ..self },
        }
    }

    /// Every one of the seven copies has its mask bit (bit 16) set.
    pub open spec fn all_masked(self) -> bool {
        &&& self.lvt_cmci & 0x0001_0000 != 0
        &&& self.lvt_timer & 0x0001_0000 != 0
        &&& self.lvt_thermal & 0x0001_0000 != 0
        &&& self.lvt_perf_count & 0x0001_0000 != 0
        &&& self.lvt_lint0 & 0x0001_0000 != 0
        &&& self.lvt_lint1 & 0x0001_0000 != 0
        &&& self.lvt_err & 0x0001_0000 != 0
    }

    /// The copy of LVT register `r`.
    pub fn get(&self, r: ApicRegOffset) -> (v: u32)
        ensures
            v == self.spec_get(r),
    {
        match r {
            ApicRegOffset::LvtCMCI => self.lvt_cmci,
            ApicRegOffset::LvtTimer => self.lvt_timer,
            ApicRegOffset::LvtThermal => self.lvt_thermal,
            ApicRegOffset::LvtPmc => self.lvt_perf_count,
            ApicRegOffset::LvtLint0 => self.lvt_lint0,
            ApicRegOffset::LvtLint1 => self.lvt_lint1,
            _ => self.lvt_err,
        }
    }

    /// Replace the copy of LVT register `r` by `v`.
    pub fn set(&mut self, r: ApicRegOffset, v: u32)
        ensures
            *final(self) == old(self).spec_set(r, v),
    {
        match r {
            ApicRegOffset::LvtCMCI => self.lvt_cmci = v,
            ApicRegOffset::LvtTimer => self.lvt_timer = v,
            ApicRegOffset::LvtThermal => self.lvt_thermal = v,
            ApicRegOffset::LvtPmc => self.lvt_perf_count = v,
            ApicRegOffset::LvtLint0 => self.lvt_lint0 = v,
            ApicRegOffset::LvtLint1 => self.lvt_lint1 = v,
            _ => self.lvt_err = v,
        }
    }
}

impl Default for LocalVectorTable {
    /// Every register at its reset value: masked, vector 0.
    fn default() -> (r: Self)
        ensures
            r.lvt_cmci == RESET_LVT_REG,
            r.lvt_timer == RESET_LVT_REG,
            r.lvt_thermal == RESET_LVT_REG,
            r.lvt_perf_count == RESET_LVT_REG,
            r.lvt_lint0 == RESET_LVT_REG,
            r.lvt_lint1 == RESET_LVT_REG,
            r.lvt_err == RESET_LVT_REG,
    {
        LocalVectorTable {
            lvt_cmci: RESET_LVT_REG,
            lvt_timer: RESET_LVT_REG,
            lvt_thermal: RESET_LVT_REG,
            lvt_perf_count: RESET_LVT_REG,
            lvt_lint0: RESET_LVT_REG,
            lvt_lint1: RESET_LVT_REG,
            lvt_err: RESET_LVT_REG,
        }
    }
}

} // verus!
