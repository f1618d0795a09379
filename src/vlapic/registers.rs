//! Register writes with local effects: the LVT registers and their shadow,
//! the Spurious-Interrupt Vector Register (software enable and disable), the
//! Error Status, Logical Destination and Destination Format registers, and
//! the timer's Initial Count and Divide Configuration registers.

use vstd::prelude::*;

use crate::consts::{ApicRegOffset, RESET_LVT_REG, spec_reg_index};
use crate::host::{ApicAction, ApicError};
use crate::lvt::{is_lvt, lvt_write_mask, spec_lvt_write_mask};
use crate::timer::{TimerMode, TimerModel, spec_timer_mode, timer_mode_of};
use super::{
    ApicModel, REG_DCR_TIMER, REG_DFR, REG_ESR, REG_ICR_TIMER, REG_LDR, REG_LVT_TIMER, REG_SVR,
    SVR_SOFTWARE_ENABLE, VirtualApicRegs,
};

verus! {

impl VirtualApicRegs {
    /// Store the LVT register `offset`, whose page cell holds the value the
    /// guest wrote: only the register's writable bits are kept, the mask bit
    /// is forced while the SVR cell shows the APIC software-disabled, and the
    /// result goes to the page, to the shadow and, for the timer's entry, to
    /// the timer. Any other register is `InvalidInput` and changes nothing.
    pub(super) fn write_lvt(&mut self, offset: ApicRegOffset) -> (r: Result<(), ApicError>)
        requires
            old(self).wf_core(),
        ensures
            final(self).wf_core(),
            old(self).wf() ==> final(self).wf(),
            is_lvt(offset) ==> r == Ok::<(), ApicError>(()) && final(self)@ == lvt_stored(
                old(self)@,
                offset,
                old(self)@.reg(16 * spec_reg_index(offset)),
            ),
            !is_lvt(offset) ==> r == Err::<(), ApicError>(ApicError::InvalidInput)
                && final(self)@ == old(self)@,
    {
        match offset {
            ApicRegOffset::LvtCMCI | ApicRegOffset::LvtTimer | ApicRegOffset::LvtThermal
            | ApicRegOffset::LvtPmc | ApicRegOffset::LvtLint0 | ApicRegOffset::LvtLint1
            | ApicRegOffset::LvtErr => {},
            _ => return Err(ApicError::InvalidInput),
        }
        let off = offset.index() * 16;
        let raw = self.reg(off);
        let masked = raw & lvt_write_mask(offset);
        let val = if self.reg(REG_SVR) & SVR_SOFTWARE_ENABLE != 0 {
            masked
        } else {
            masked | RESET_LVT_REG
        };
        proof {
            lemma_forced_mask(masked);
        }
        self.set_reg(off, val);
        self.lvt_last.set(offset, val);
        match offset {
            ApicRegOffset::LvtTimer => {
                let _ = self.virtual_timer.write_lvt(val);
            },
            _ => {},
        }
        Ok(())
    }

    /// Set the mask bit of LVT register `offset` in the page and store it.
    pub(super) fn mask_lvt(&mut self, offset: ApicRegOffset)
        requires
            old(self).wf_core(),
            is_lvt(offset),
        ensures
            final(self).wf_core(),
            final(self)@ == mask_one(old(self)@, offset),
            final(self)@.lvt.spec_get(offset) & 0x0001_0000 != 0,
    {
        let off = offset.index() * 16;
        let v = self.reg(off);
        self.set_reg(off, v | RESET_LVT_REG);
        let _ = self.write_lvt(offset);
        proof {
            lemma_mask_kept(v);
        }
    }

    /// Set the mask bit of all seven LVT registers.
    pub(super) fn mask_lvts(&mut self)
        requires
            old(self).wf_core(),
        ensures
            final(self).wf_core(),
            final(self)@ == mask_all(old(self)@),
            final(self)@.lvt.all_masked(),
    {
        self.mask_lvt(ApicRegOffset::LvtCMCI);
        self.mask_lvt(ApicRegOffset::LvtTimer);
        self.mask_lvt(ApicRegOffset::LvtThermal);
        self.mask_lvt(ApicRegOffset::LvtPmc);
        self.mask_lvt(ApicRegOffset::LvtLint0);
        self.mask_lvt(ApicRegOffset::LvtLint1);
        self.mask_lvt(ApicRegOffset::LvtErr);
    }

    /// A write of `data` to the Spurious-Interrupt Vector Register. A 1 to 0
    /// change of the software-enable bit stops the timer and masks every LVT
    /// entry; a 0 to 1 change restarts a periodic timer.
    pub(super) fn write_svr(&mut self, data: u32, now_ticks: u64, actions: &mut Vec<ApicAction>)
        requires
            old(self).wf(),
        ensures
            final(self).wf(),
            final(self)@ == svr_model(old(self)@, data, now_ticks),
            final(actions)@ == old(actions)@ + svr_actions(old(self)@, data, now_ticks),
    {
        self.set_reg(REG_SVR, data);
        let old_svr = self.svr_last;
        self.svr_last = data;
        let was_enabled = old_svr & SVR_SOFTWARE_ENABLE != 0;
        let is_enabled = data & SVR_SOFTWARE_ENABLE != 0;
        let ghost a0 = actions@;
        if was_enabled && !is_enabled {
            let _ = self.virtual_timer.stop_timer(actions);
            self.mask_lvts();
        } else if !was_enabled && is_enabled {
            if self.virtual_timer.is_periodic() {
                let _ = self.virtual_timer.restart_timer(now_ticks, actions);
            }
        }
        proof {
            assert(actions@ =~= a0 + svr_actions(old(self)@, data, now_ticks));
        }
    }

    /// A write to the Error Status Register: the pending error bits become
    /// visible and the pending set is cleared.
    pub(super) fn write_esr(&mut self)
        requires
            old(self).wf(),
        ensures
            final(self).wf(),
            final(self)@ == (ApicModel {
                esr_pending: 0,
                ..old(self)@.set_reg(REG_ESR as int, old(self)@.esr_pending)
            }),
    {
        let pending = self.esr_pending;
        self.set_reg(REG_ESR, pending);
        self.esr_pending = 0;
    }

    /// A write of `data` to the Logical Destination Register: only the logical
    /// APIC ID (bits 24 to 31) is kept.
    pub(super) fn write_ldr(&mut self, data: u32)
        requires
            old(self).wf(),
        ensures
            final(self).wf(),
            final(self)@ == old(self)@.set_reg(REG_LDR as int, data & LDR_ID_MASK),
    {
        self.set_reg(REG_LDR, data & LDR_ID_MASK);
    }

    /// A write of `data` to the Destination Format Register: the model (bits
    /// 28 to 31) is kept and the reserved bits read as 1.
    pub(super) fn write_dfr(&mut self, data: u32)
        requires
            old(self).wf(),
        ensures
            final(self).wf(),
            final(self)@ == old(self)@.set_reg(
                REG_DFR as int,
                (data & DFR_MODEL_MASK) | DFR_RESERVED,
            ),
    {
        self.set_reg(REG_DFR, (data & DFR_MODEL_MASK) | DFR_RESERVED);
    }

    /// A write of `data` to the timer's Divide Configuration Register.
    pub(super) fn write_dcr(&mut self, data: u32)
        requires
            old(self).wf(),
        ensures
            final(self).wf(),
            final(self)@ == (ApicModel {
                timer: TimerModel {
                    dcr: data & crate::timer::DCR_MASK,
                    divide_shift: crate::timer::spec_divide_shift(data),
                    ..old(self)@.timer
                },
                ..old(self)@.set_reg(REG_DCR_TIMER as int, data)
            }),
    {
        self.set_reg(REG_DCR_TIMER, data);
        self.virtual_timer.write_dcr(data);
    }

    /// A write of `data` to the timer's Initial Count Register at tick
    /// `now_ticks`. It is ignored in TSC-deadline mode and refused when the
    /// LVT Timer register holds the reserved mode.
    pub(super) fn write_icrtmr(&mut self, data: u32, now_ticks: u64, actions: &mut Vec<ApicAction>) -> (r:
        Result<(), ApicError>)
        requires
            old(self).wf(),
        ensures
            final(self).wf(),
            r == icrtmr_result(old(self)@),
            final(self)@ == icrtmr_model(old(self)@, data, now_ticks),
            final(actions)@ == old(actions)@ + icrtmr_actions(old(self)@, data, now_ticks),
            icrtmr_applies(old(self)@) ==> {
                &&& final(self)@.timer.started() <==> data > 0
                &&& forall|now: u64| #[trigger] final(self)@.timer.ccr(now) <= data
            },
    {
        match timer_mode_of(self.reg(REG_LVT_TIMER)) {
            TimerMode::Reserved => {
                proof {
                    assert(actions@ =~= old(actions)@ + icrtmr_actions(old(self)@, data, now_ticks));
                }
                Err(ApicError::InvalidData)
            },
            TimerMode::TscDeadline => {
                proof {
                    assert(actions@ =~= old(actions)@ + icrtmr_actions(old(self)@, data, now_ticks));
                }
                Ok(())
            },
            _ => {
                self.set_reg(REG_ICR_TIMER, data);
                let _ = self.virtual_timer.write_icr(data, now_ticks, actions);
                Ok(())
            },
        }
    }
}

/// Bits kept by a write to the Logical Destination Register.
pub const LDR_ID_MASK: u32 = 0xFF00_0000;

/// Model bits of the Destination Format Register.
pub const DFR_MODEL_MASK: u32 = 0xF000_0000;

/// Reserved bits of the Destination Format Register, which read as 1.
pub const DFR_RESERVED: u32 = 0x0FFF_FFFF;

/// The value that LVT register `r` holds after a write of `raw`.
pub open spec fn lvt_value(raw: u32, r: ApicRegOffset, enabled: bool) -> u32 {
    let v = raw & spec_lvt_write_mask(r);
    if enabled {
        v
    } else {
        v | RESET_LVT_REG
    }
}

/// The model after LVT register `r` is stored from a written value `raw`.
pub open spec fn lvt_stored(m: ApicModel, r: ApicRegOffset, raw: u32) -> ApicModel {
    let v = lvt_value(raw, r, m.sw_enabled());
    let m1 = ApicModel {
        lvt: m.lvt.spec_set(r, v),
        ..m.set_reg(16 * spec_reg_index(r), v)
    };
    if r == ApicRegOffset::LvtTimer {
        ApicModel {
            timer: TimerModel { lvt: v & crate::timer::LVT_TIMER_MASK, ..m.timer },
            ..m1
        }
    } else {
        m1
    }
}

/// The model after the mask bit of LVT register `r` is set and stored.
pub open spec fn mask_one(m: ApicModel, r: ApicRegOffset) -> ApicModel {
    let off = 16 * spec_reg_index(r);
    let raw = m.reg(off) | RESET_LVT_REG;
    lvt_stored(m.set_reg(off, raw), r, raw)
}

/// The model after every LVT register is masked, in register order.
pub open spec fn mask_all(m: ApicModel) -> ApicModel {
    let m1 = mask_one(m, ApicRegOffset::LvtCMCI);
    let m2 = mask_one(m1, ApicRegOffset::LvtTimer);
    let m3 = mask_one(m2, ApicRegOffset::LvtThermal);
    let m4 = mask_one(m3, ApicRegOffset::LvtPmc);
    let m5 = mask_one(m4, ApicRegOffset::LvtLint0);
    let m6 = mask_one(m5, ApicRegOffset::LvtLint1);
    mask_one(m6, ApicRegOffset::LvtErr)
}

/// The software-enable bit goes from 1 to 0 on an SVR write of `data`.
pub open spec fn svr_disables(m: ApicModel, data: u32) -> bool {
    m.svr_last & SVR_SOFTWARE_ENABLE != 0 && data & SVR_SOFTWARE_ENABLE == 0
}

/// The software-enable bit goes from 0 to 1 and the timer is periodic.
pub open spec fn svr_restarts(m: ApicModel, data: u32) -> bool {
    m.svr_last & SVR_SOFTWARE_ENABLE == 0 && data & SVR_SOFTWARE_ENABLE != 0 && spec_timer_mode(m.timer.lvt)
        == TimerMode::Periodic
}

/// The model after an SVR write of `data` at tick `now`.
pub open spec fn svr_model(m: ApicModel, data: u32, now: u64) -> ApicModel {
    let m1 = ApicModel { svr_last: data, ..m.set_reg(REG_SVR as int, data) };
    if svr_disables(m, data) {
        mask_all(ApicModel { timer: m1.timer.stop(), ..m1 })
    } else if svr_restarts(m, data) {
        ApicModel { timer: m1.timer.restart(now), ..m1 }
    } else {
        m1
    }
}

/// What an SVR write of `data` at tick `now` asks of the host.
pub open spec fn svr_actions(m: ApicModel, data: u32, now: u64) -> Seq<ApicAction> {
    if svr_disables(m, data) {
        m.timer.stop_actions()
    } else if svr_restarts(m, data) {
        m.timer.restart_actions(now)
    } else {
        seq![]
    }
}

/// The result of a write to the Initial Count Register.
pub open spec fn icrtmr_result(m: ApicModel) -> Result<(), ApicError> {
    if spec_timer_mode(m.reg(REG_LVT_TIMER as int)) == TimerMode::Reserved {
        Err(ApicError::InvalidData)
    } else {
        Ok(())
    }
}

/// The write of `data` to the Initial Count Register takes effect: the timer
/// is in one-shot or periodic mode.
pub open spec fn icrtmr_applies(m: ApicModel) -> bool {
    let mode = spec_timer_mode(m.reg(REG_LVT_TIMER as int));
    mode == TimerMode::OneShot || mode == TimerMode::Periodic
}

/// The model after a write of `data` to the Initial Count Register.
pub open spec fn icrtmr_model(m: ApicModel, data: u32, now: u64) -> ApicModel {
    if icrtmr_applies(m) {
        ApicModel {
            timer: m.timer.write_icr(data, now),
            ..m.set_reg(REG_ICR_TIMER as int, data)
        }
    } else {
        m
    }
}

/// What a write of `data` to the Initial Count Register asks of the host.
pub open spec fn icrtmr_actions(m: ApicModel, data: u32, now: u64) -> Seq<ApicAction> {
    if icrtmr_applies(m) {
        m.timer.write_icr_actions(data, now)
    } else {
        seq![]
    }
}

/// Setting the mask bit of a raw value survives every LVT write mask.
proof fn lemma_mask_kept(v: u32)
    ensures
        ((v | 0x0001_0000u32) & 0x0007_10FFu32) & 0x0001_0000u32 != 0,
        ((v | 0x0001_0000u32) & 0x0001_F7FFu32) & 0x0001_0000u32 != 0,
        ((v | 0x0001_0000u32) & 0x0001_17FFu32) & 0x0001_0000u32 != 0,
        ((v | 0x0001_0000u32) & 0x0001_10FFu32) & 0x0001_0000u32 != 0,
        (((v | 0x0001_0000u32) & 0x0007_10FFu32) | 0x0001_0000u32) & 0x0001_0000u32 != 0,
        (((v | 0x0001_0000u32) & 0x0001_F7FFu32) | 0x0001_0000u32) & 0x0001_0000u32 != 0,
        (((v | 0x0001_0000u32) & 0x0001_17FFu32) | 0x0001_0000u32) & 0x0001_0000u32 != 0,
        (((v | 0x0001_0000u32) & 0x0001_10FFu32) | 0x0001_0000u32) & 0x0001_0000u32 != 0,
{
    assert(((v | 0x0001_0000u32) & 0x0007_10FFu32) & 0x0001_0000u32 != 0 && ((v | 0x0001_0000u32)
        & 0x0001_F7FFu32) & 0x0001_0000u32 != 0 && ((v | 0x0001_0000u32) & 0x0001_17FFu32)
        & 0x0001_0000u32 != 0 && ((v | 0x0001_0000u32) & 0x0001_10FFu32) & 0x0001_0000u32 != 0
        && (((v | 0x0001_0000u32) & 0x0007_10FFu32) | 0x0001_0000u32) & 0x0001_0000u32 != 0 && (((v
        | 0x0001_0000u32) & 0x0001_F7FFu32) | 0x0001_0000u32) & 0x0001_0000u32 != 0 && (((v
        | 0x0001_0000u32) & 0x0001_17FFu32) | 0x0001_0000u32) & 0x0001_0000u32 != 0 && (((v
        | 0x0001_0000u32) & 0x0001_10FFu32) | 0x0001_0000u32) & 0x0001_0000u32 != 0)
        by (bit_vector);
}

/// Forcing the mask bit sets bit 16.
pub(super) proof fn lemma_forced_mask(v: u32)
    ensures
        (v | 0x0001_0000u32) & 0x0001_0000u32 != 0,
{
    assert((v | 0x0001_0000u32) & 0x0001_0000u32 != 0) by (bit_vector);
}

} // verus!
