//! The virtual local APIC timer (LVT Timer, Divide Configuration, Initial
//! Count and Current Count registers).
//!
//! - The timer is started by, and only by, a write to the Initial Count
//!   Register; any such write first stops a running timer.
//! - The deadline is fixed by the Initial Count and Divide Configuration
//!   registers at the time of the start; later writes to the Divide
//!   Configuration or LVT Timer registers do not disturb a running timer.
//! - The delivery-status bit of the LVT Timer register is stored as written.
//! - The host owns the real timer: starting asks it to arm one, stopping asks
//!   it to cancel it, and it reports each expiry back to the timer.

use vstd::prelude::*;

use crate::consts::RESET_LVT_REG;
use crate::host::{ApicAction, ApicError};

verus! {

/// Writable bits of the LVT Timer register: vector, delivery status, mask and
/// timer mode.
pub const LVT_TIMER_MASK: u32 = 0x0007_10FF;

/// Writable bits of the Divide Configuration register.
pub const DCR_MASK: u32 = 0b1011;

/// Mask bit of an LVT register.
pub const LVT_MASK_BIT: u32 = 0x0001_0000;

/// Mode of the APIC timer, bits 17 and 18 of the LVT Timer register.
#[derive(Clone, Copy, Debug, PartialEq, Eq, Structural)]
pub enum TimerMode {
    /// One-shot mode using a count-down value.
    OneShot,
    /// Periodic mode reloading a count-down value.
    Periodic,
    /// TSC-deadline mode.
    TscDeadline,
    /// The reserved encoding.
    Reserved,
}

/// Timer mode encoded in an LVT Timer value.
pub open spec fn spec_timer_mode(lvt: u32) -> TimerMode {
    let m = (lvt >> 17u32) & 3u32;
    if m == 0 {
        TimerMode::OneShot
    } else if m == 1 {
        TimerMode::Periodic
    } else if m == 2 {
        TimerMode::TscDeadline
    } else {
        TimerMode::Reserved
    }
}

/// Decode the timer mode field of an LVT Timer value.
pub fn timer_mode_of(lvt: u32) -> (r: TimerMode)
    ensures
        r == spec_timer_mode(lvt),
{
    let m = (lvt >> 17) & 3;
    if m == 0 {
        TimerMode::OneShot
    } else if m == 1 {
        TimerMode::Periodic
    } else if m == 2 {
        TimerMode::TscDeadline
    } else {
        TimerMode::Reserved
    }
}

/// The shift that a Divide Configuration value selects: the counter runs at
/// the tick rate divided by `1 << shift`.
pub open spec fn spec_divide_shift(dcr: u32) -> u8 {
    let v = dcr & DCR_MASK;
    if v == 0b0000 {
        1
    } else if v == 0b0001 {
        2
    } else if v == 0b0010 {
        3
    } else if v == 0b0011 {
        4
    } else if v == 0b1000 {
        5
    } else if v == 0b1001 {
        6
    } else if v == 0b1010 {
        7
    } else {
        0
    }
}

/// The abstract state of an `ApicTimer`.
pub ghost struct TimerModel {
    /// The LVT Timer register as stored.
    pub lvt: u32,
    /// The Initial Count register.
    pub initial_count: u32,
    /// The Divide Configuration register as stored.
    pub dcr: u32,
    /// The shift selected by `dcr`.
    pub divide_shift: u8,
    /// Whether a host timer is armed.
    pub armed: bool,
    /// Tick count at the last start.
    pub last_start_ticks: u64,
    /// Tick count at which the armed host timer fires.
    pub deadline_ticks: u64,
    /// The shift in force at the last start.
    pub armed_shift: u8,
    /// The VM that owns the timer.
    pub vm_id: usize,
    /// The vCPU that owns the timer.
    pub vcpu_id: usize,
}

impl TimerModel {
    /// The timer is counting down.
    pub open spec fn started(self) -> bool {
        self.initial_count > 0 && self.armed
    }

    /// Number of ticks from a start to the deadline.
    pub open spec fn interval(self) -> u64 {
        ((self.initial_count as u64) << (self.armed_shift as u64)) as u64
    }

    /// The Current Count register at tick `now`.
    pub open spec fn ccr(self, now: u64) -> u32 {
        if !self.started() {
            0
        } else {
            let elapsed = if now >= self.last_start_ticks {
                (now - self.last_start_ticks) as u64
            } else {
                0u64
            };
            let remaining = if elapsed >= self.interval() {
                0u64
            } else {
                (self.interval() - elapsed) as u64
            };
            (remaining >> (self.armed_shift as u64)) as u32
        }
    }

    /// The same timer, counting down again from tick `now`.
    pub open spec fn armed_at(self, now: u64) -> TimerModel {
        TimerModel {
            armed: true,
            last_start_ticks: now,
            deadline_ticks: if now as int + self.interval() as int > u64::MAX as int {
                u64::MAX
            } else {
                (now + self.interval()) as u64
            },
            ..self
        }
    }

    /// The same timer, stopped.
    pub open spec fn disarmed(self) -> TimerModel {
        TimerModel { armed: false, last_start_ticks: 0, deadline_ticks: 0, ..self }
    }

    /// The host timer request for a start at tick `now`.
    pub open spec fn arm_action(self, now: u64) -> ApicAction {
        ApicAction::ArmTimer {
            vm_id: self.vm_id,
            vcpu_id: self.vcpu_id,
            deadline_ticks: self.armed_at(now).deadline_ticks,
            vector: (self.lvt & 0xFF) as u8,
        }
    }

    /// The same timer, about to count with the shift now in force.
    pub open spec fn fresh(self) -> TimerModel {
        TimerModel { armed_shift: self.divide_shift, ..self }
    }

    /// Stopping: a started timer is disarmed, a stopped one is left alone.
    pub open spec fn stop(self) -> TimerModel {
        if self.started() {
            self.disarmed()
        } else {
            self
        }
    }

    /// What stopping asks of the host.
    pub open spec fn stop_actions(self) -> Seq<ApicAction> {
        if self.started() {
            seq![ApicAction::CancelTimer]
        } else {
            seq![]
        }
    }

    /// Starting at tick `now`: a stopped timer with a nonzero initial count
    /// counts down anew; otherwise nothing changes.
    pub open spec fn start(self, now: u64) -> TimerModel {
        if self.initial_count == 0 || self.started() {
            self
        } else {
            self.fresh().armed_at(now)
        }
    }

    /// What starting at tick `now` asks of the host.
    pub open spec fn start_actions(self, now: u64) -> Seq<ApicAction> {
        if self.initial_count == 0 || self.started() {
            seq![]
        } else {
            seq![self.fresh().arm_action(now)]
        }
    }

    /// The model after a write of `value` to the Initial Count register.
    pub open spec fn write_icr(self, value: u32, now: u64) -> TimerModel {
        TimerModel { initial_count: value, ..self.stop() }.start(now)
    }

    /// What a write of `value` to the Initial Count register asks of the host.
    pub open spec fn write_icr_actions(self, value: u32, now: u64) -> Seq<ApicAction> {
        self.stop_actions() + TimerModel { initial_count: value, ..self.stop() }.start_actions(now)
    }

    /// Restarting at tick `now`: a started timer is stopped and started again;
    /// a stopped one is left alone.
    pub open spec fn restart(self, now: u64) -> TimerModel {
        if self.started() {
            self.disarmed().start(now)
        } else {
            self
        }
    }

    /// What restarting at tick `now` asks of the host.
    pub open spec fn restart_actions(self, now: u64) -> Seq<ApicAction> {
        if self.started() {
            self.stop_actions() + self.disarmed().start_actions(now)
        } else {
            seq![]
        }
    }

    /// The host timer fired at tick `now`: it matters only to a started timer
    /// whose deadline has passed.
    pub open spec fn due(self, now: u64) -> bool {
        self.started() && now >= self.deadline_ticks
    }
}

/// A virtual local APIC timer.
pub struct ApicTimer {
    lvt_timer_register: u32,
    initial_count_register: u32,
    divide_configuration_register: u32,
    divide_shift: u8,
    armed: bool,
    last_start_ticks: u64,
    deadline_ticks: u64,
    armed_shift: u8,
    vm_id: usize,
    vcpu_id: usize,
}

impl View for ApicTimer {
    type V = TimerModel;

    closed spec fn view(&self) -> TimerModel {
        TimerModel {
            lvt: self.lvt_timer_register,
            initial_count: self.initial_count_register,
            dcr: self.divide_configuration_register,
            divide_shift: self.divide_shift,
            armed: self.armed,
            last_start_ticks: self.last_start_ticks,
            deadline_ticks: self.deadline_ticks,
            armed_shift: self.armed_shift,
            vm_id: self.vm_id,
            vcpu_id: self.vcpu_id,
        }
    }
}

impl ApicTimer {
    /// The timer's invariant: stored registers hold only writable bits, the
    /// shift follows the Divide Configuration register, and a started timer
    /// counts with a shift of at most 7.
    pub open spec fn wf(&self) -> bool {
        &&& self@.lvt & !LVT_TIMER_MASK == 0
        &&& self@.dcr & !DCR_MASK == 0
        &&& self@.divide_shift == spec_divide_shift(self@.dcr)
        &&& self@.armed_shift <= 7
        &&& self@.armed ==> self@.initial_count > 0
    }

    /// A stopped, masked, one-shot timer with vector 0 that divides by 2.
    pub fn new(vm_id: usize, vcpu_id: usize) -> (r: Self)
        ensures
            r.wf(),
            r@.lvt == RESET_LVT_REG,
            r@.initial_count == 0,
            r@.dcr == 0,
            !r@.armed,
            r@.vm_id == vm_id,
            r@.vcpu_id == vcpu_id,
    {
        let r = Self {
            lvt_timer_register: RESET_LVT_REG,
            initial_count_register: 0,
            divide_configuration_register: 0,
            divide_shift: 1,
            armed: false,
            last_start_ticks: 0,
            deadline_ticks: 0,
            armed_shift: 1,
            vm_id,
            vcpu_id,
        };
        proof {
            assert(0x10000u32 & !0x0007_10FFu32 == 0) by (bit_vector);
            assert(0u32 & !0b1011u32 == 0 && 0u32 & 0b1011u32 == 0) by (bit_vector);
        }
        r
    }

    /// The LVT Timer register.
    pub fn read_lvt(&self) -> (r: u32)
        ensures
            r == self@.lvt,
    {
        self.lvt_timer_register
    }

    /// Write the LVT Timer register: the value is kept with its writable bits
    /// only. A running timer is not disturbed.
    pub fn write_lvt(&mut self, value: u32) -> (r: Result<(), ApicError>)
        requires
            old(self).wf(),
        ensures
            final(self).wf(),
            r is Ok,
            final(self)@ == (TimerModel { lvt: value & LVT_TIMER_MASK, ..old(self)@ }),
    {
        let v = value & LVT_TIMER_MASK;
        proof {
            assert((value & 0x0007_10FFu32) & !0x0007_10FFu32 == 0) by (bit_vector);
        }
        self.lvt_timer_register = v;
        Ok(())
    }

    /// The Initial Count register.
    pub fn read_icr(&self) -> (r: u32)
        ensures
            r == self@.initial_count,
    {
        self.initial_count_register
    }

    /// Write the Initial Count register at tick `now_ticks`: a running timer is
    /// always stopped, and a nonzero value starts the timer anew.
    pub fn write_icr(&mut self, value: u32, now_ticks: u64, actions: &mut Vec<ApicAction>) -> (r:
        Result<(), ApicError>)
        requires
            old(self).wf(),
        ensures
            final(self).wf(),
            r is Ok,
            final(self)@ == old(self)@.write_icr(value, now_ticks),
            final(actions)@ == old(actions)@ + old(self)@.write_icr_actions(value, now_ticks),
            value == 0 ==> !final(self)@.started(),
            value > 0 ==> final(self)@.started(),
            forall|now: u64| #[trigger] final(self)@.ccr(now) <= value,
    {
        let ghost m0 = self@;
        let ghost a0 = actions@;
        let _ = self.stop_timer(actions);
        self.initial_count_register = value;
        let ghost a1 = actions@;
        if value > 0 {
            let _ = self.start_timer(now_ticks, actions);
        }
        proof {
            assert(actions@ =~= a0 + m0.write_icr_actions(value, now_ticks));
            assert forall|now: u64| #[trigger] self@.ccr(now) <= value by {
                self.lemma_ccr_bound(now);
            }
        }
        Ok(())
    }

    /// The Current Count register never exceeds the Initial Count register.
    pub proof fn lemma_ccr_bound(&self, now: u64)
        requires
            self.wf(),
        ensures
            self@.ccr(now) <= self@.initial_count,
    {
        let m = self@;
        if m.started() {
            let elapsed = if now >= m.last_start_ticks {
                (now - m.last_start_ticks) as u64
            } else {
                0u64
            };
            let remaining = if elapsed >= m.interval() {
                0u64
            } else {
                (m.interval() - elapsed) as u64
            };
            lemma_shift_back(m.initial_count, m.armed_shift as u64, remaining);
        }
    }

    /// The Divide Configuration register.
    pub fn read_dcr(&self) -> (r: u32)
        ensures
            r == self@.dcr,
    {
        self.divide_configuration_register
    }

    /// Write the Divide Configuration register: the value is kept with its
    /// writable bits only and selects the shift for the next start.
    pub fn write_dcr(&mut self, value: u32)
        requires
            old(self).wf(),
        ensures
            final(self).wf(),
            final(self)@ == (TimerModel {
                dcr: value & DCR_MASK,
                divide_shift: spec_divide_shift(value),
                ..old(self)@
            }),
            final(self)@.divide_shift <= 7,
    {
        let v = value & DCR_MASK;
        let shift: u8 = if v == 0b0000 {
            1
        } else if v == 0b0001 {
            2
        } else if v == 0b0010 {
            3
        } else if v == 0b0011 {
            4
        } else if v == 0b1000 {
            5
        } else if v == 0b1001 {
            6
        } else if v == 0b1010 {
            7
        } else {
            0
        };
        proof {
            assert((value & 0b1011u32) & !0b1011u32 == 0 && (value & 0b1011u32) & 0b1011u32 == (
            value & 0b1011u32)) by (bit_vector);
        }
        self.divide_configuration_register = v;
        self.divide_shift = shift;
    }

    /// The Current Count register at tick `now_ticks`: 0 when stopped, else the
    /// ticks left to the deadline counted at the divided rate.
    pub fn read_ccr(&self, now_ticks: u64) -> (r: u32)
        requires
            self.wf(),
        ensures
            r == self@.ccr(now_ticks),
            r <= self@.initial_count,
    {
        proof {
            self.lemma_ccr_bound(now_ticks);
        }
        if !self.is_started() {
            return 0;
        }
        let interval: u64 = (self.initial_count_register as u64) << (self.armed_shift as u64);
        let elapsed: u64 = now_ticks.saturating_sub(self.last_start_ticks);
        let remaining: u64 = interval.saturating_sub(elapsed);
        (remaining >> (self.armed_shift as u64)) as u32
    }

    /// The timer mode field of the LVT Timer register.
    pub fn timer_mode(&self) -> (r: TimerMode)
        ensures
            r == spec_timer_mode(self@.lvt),
    {
        timer_mode_of(self.lvt_timer_register)
    }

    /// Whether the timer interrupt is masked.
    pub fn is_masked(&self) -> (r: bool)
        ensures
            r == (self@.lvt & LVT_MASK_BIT != 0),
    {
        self.lvt_timer_register & LVT_MASK_BIT != 0
    }

    /// The timer interrupt vector.
    pub fn vector(&self) -> (r: u8)
        ensures
            r == (self@.lvt & 0xFF) as u8,
    {
        (self.lvt_timer_register & 0xFF) as u8
    }

    /// Whether the timer is counting down.
    pub fn is_started(&self) -> (r: bool)
        ensures
            r == self@.started(),
    {
        self.initial_count_register > 0 && self.armed
    }

    /// Whether the timer is in periodic mode.
    pub fn is_periodic(&self) -> (r: bool)
        ensures
            r == (spec_timer_mode(self@.lvt) == TimerMode::Periodic),
    {
        match self.timer_mode() {
            TimerMode::Periodic => true,
            _ => false,
        }
    }

    /// Stop the timer and start it again from tick `now_ticks`. A stopped timer
    /// stays stopped.
    pub fn restart_timer(&mut self, now_ticks: u64, actions: &mut Vec<ApicAction>) -> (r: Result<
        (),
        ApicError,
    >)
        requires
            old(self).wf(),
        ensures
            final(self).wf(),
            r is Ok,
            final(self)@ == old(self)@.restart(now_ticks),
            final(actions)@ == old(actions)@ + old(self)@.restart_actions(now_ticks),
    {
        if !self.is_started() {
            proof {
                assert(actions@ =~= old(actions)@ + old(self)@.restart_actions(now_ticks));
            }
            Ok(())
        } else {
            let ghost a0 = actions@;
            let _ = self.stop_timer(actions);
            let _ = self.start_timer(now_ticks, actions);
            proof {
                assert(actions@ =~= a0 + old(self)@.restart_actions(now_ticks));
            }
            Ok(())
        }
    }

    /// Start the timer at tick `now_ticks`: the deadline is the initial count
    /// shifted by the divide shift, past now. Starting a started timer fails
    /// with `BadState`; a zero initial count starts nothing.
    pub fn start_timer(&mut self, now_ticks: u64, actions: &mut Vec<ApicAction>) -> (r: Result<
        (),
        ApicError,
    >)
        requires
            old(self).wf(),
        ensures
            final(self).wf(),
            old(self)@.started() ==> r == Err::<(), ApicError>(ApicError::BadState),
            !old(self)@.started() ==> r is Ok,
            final(self)@ == old(self)@.start(now_ticks),
            final(actions)@ == old(actions)@ + old(self)@.start_actions(now_ticks),
    {
        if self.is_started() {
            return Err(ApicError::BadState);
        }
        if self.initial_count_register == 0 {
            return Ok(());
        }
        let interval: u64 = (self.initial_count_register as u64) << (self.divide_shift as u64);
        let deadline: u64 = now_ticks.saturating_add(interval);
        self.armed_shift = self.divide_shift;
        self.last_start_ticks = now_ticks;
        self.deadline_ticks = deadline;
        self.armed = true;
        actions.push(
            ApicAction::ArmTimer {
                vm_id: self.vm_id,
                vcpu_id: self.vcpu_id,
                deadline_ticks: deadline,
                vector: (self.lvt_timer_register & 0xFF) as u8,
            },
        );
        Ok(())
    }

    /// Stop the timer: a started timer is disarmed and the host asked to cancel
    /// its timer; stopping a stopped timer is tolerated.
    pub fn stop_timer(&mut self, actions: &mut Vec<ApicAction>) -> (r: Result<(), ApicError>)
        requires
            old(self).wf(),
        ensures
            final(self).wf(),
            r is Ok,
            final(self)@ == old(self)@.stop(),
            final(actions)@ == old(actions)@ + old(self)@.stop_actions(),
    {
        if self.is_started() {
            self.last_start_ticks = 0;
            self.deadline_ticks = 0;
            self.armed = false;
            actions.push(ApicAction::CancelTimer);
        }
        proof {
            assert(actions@ =~= old(actions)@ + old(self)@.stop_actions());
        }
        Ok(())
    }

    /// The host timer fired and reports it at tick `now_ticks`. A due one-shot
    /// timer stops; a due periodic timer counts down again with the same
    /// interval. A report that is not due (stale, or for a stopped timer)
    /// changes nothing.
    pub fn timer_expired(&mut self, now_ticks: u64, actions: &mut Vec<ApicAction>)
        requires
            old(self).wf(),
        ensures
            final(self).wf(),
            !old(self)@.due(now_ticks) ==> final(self)@ == old(self)@ && final(actions)@ == old(
                actions,
            )@,
            old(self)@.due(now_ticks) && spec_timer_mode(old(self)@.lvt) == TimerMode::Periodic
                ==> final(self)@ == old(self)@.armed_at(now_ticks) && final(actions)@ == old(
                actions,
            )@.push(old(self)@.arm_action(now_ticks)),
            old(self)@.due(now_ticks) && spec_timer_mode(old(self)@.lvt) != TimerMode::Periodic
                ==> final(self)@ == old(self)@.disarmed() && final(actions)@ == old(actions)@,
    {
        if !self.is_started() || now_ticks < self.deadline_ticks {
            return ;
        }
        if self.is_periodic() {
            let interval: u64 = (self.initial_count_register as u64) << (self.armed_shift as u64);
            let deadline: u64 = now_ticks.saturating_add(interval);
            self.last_start_ticks = now_ticks;
            self.deadline_ticks = deadline;
            actions.push(
                ApicAction::ArmTimer {
                    vm_id: self.vm_id,
                    vcpu_id: self.vcpu_id,
                    deadline_ticks: deadline,
                    vector: (self.lvt_timer_register & 0xFF) as u8,
                },
            );
        } else {
            self.last_start_ticks = 0;
            self.deadline_ticks = 0;
            self.armed = false;
        }
    }
}

/// Writing the same value twice in a row to the LVT Timer register leaves the
/// same state as writing it once.
pub proof fn lemma_write_lvt_twice(m: TimerModel, value: u32)
    ensures
        (TimerModel { lvt: value & LVT_TIMER_MASK, ..TimerModel { lvt: value & LVT_TIMER_MASK, ..m } })
            == (TimerModel { lvt: value & LVT_TIMER_MASK, ..m }),
{
}

/// Starting a stopped timer with a nonzero count arms it: the deadline is the
/// count shifted by the divide shift past `now`, and the host is asked once
/// for a timer that injects the LVT Timer vector.
pub proof fn lemma_start_arms(m: TimerModel, now: u64)
    requires
        !m.started(),
        m.initial_count > 0,
        now as int + ((m.initial_count as u64) << (m.divide_shift as u64)) as int <= u64::MAX,
    ensures
        m.start(now).started(),
        m.start(now).last_start_ticks == now,
        m.start(now).deadline_ticks == now + ((m.initial_count as u64) << (m.divide_shift as u64)),
        m.start_actions(now) == seq![
            ApicAction::ArmTimer {
                vm_id: m.vm_id,
                vcpu_id: m.vcpu_id,
                deadline_ticks: (now + ((m.initial_count as u64) << (m.divide_shift as u64))) as u64,
                vector: (m.lvt & 0xFF) as u8,
            },
        ],
{
}

/// A periodic timer that comes due is armed again with the same interval from
/// the moment of expiry, and the host is asked once for the next expiry.
pub proof fn lemma_periodic_rearm(m: TimerModel, now: u64)
    requires
        m.due(now),
        spec_timer_mode(m.lvt) == TimerMode::Periodic,
        now as int + m.interval() as int <= u64::MAX,
    ensures
        m.armed_at(now).started(),
        m.armed_at(now).interval() == m.interval(),
        m.armed_at(now).deadline_ticks - m.armed_at(now).last_start_ticks == m.interval(),
        m.arm_action(now) == (ApicAction::ArmTimer {
            vm_id: m.vm_id,
            vcpu_id: m.vcpu_id,
            deadline_ticks: (now + m.interval()) as u64,
            vector: (m.lvt & 0xFF) as u8,
        }),
{
}

/// Counting a shifted count back down undoes the shift.
proof fn lemma_shift_back(count: u32, shift: u64, remaining: u64)
    requires
        shift <= 7,
        remaining <= ((count as u64) << shift) as u64,
    ensures
        (remaining >> shift) as u32 <= count,
        remaining >> shift <= count as u64,
{
    assert(shift <= 7 && remaining <= ((count as u64) << shift) as u64 ==> remaining >> shift
        <= count as u64) by (bit_vector);
}

} // verus!
