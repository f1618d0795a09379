//! The virtual-APIC register file and the engine that gives guest accesses
//! their architectural effect.
//!
//! The registers live in a 4 KiB page image whose layout is that of the
//! virtual-APIC page of Intel SDM Vol. 3, Chapters 11 and 30: 32-bit cells at
//! 16-byte strides, the In-Service, Trigger-Mode and Interrupt-Request
//! registers as eight such cells each. The host keeps the image in step with
//! the frame that the processor reads (`page_word`, `set_page_word`).
//!
//! Accesses must not run concurrently on one instance: each belongs to one
//! vCPU, and all of its accesses come from that vCPU's VM exits.

use vstd::prelude::*;

use crate::consts::{
    ApicRegOffset, RESET_LVT_REG, RESET_SPURIOUS_INTERRUPT_VECTOR, spec_reg_index,
};
use crate::host::{AccessWidth, ApicAction, ApicError, HostContext};
use crate::lvt::{LocalVectorTable, is_lvt, spec_lvt_write_mask};
use crate::timer::{ApicTimer, TimerMode, TimerModel, spec_timer_mode, timer_mode_of};
use crate::utils::{is_last_set_bit, spec_prio};
use self::eoi::{eoi_actions, eoi_model, highest_isr, lemma_highest_isr_unique};
use self::registers::{
    DFR_MODEL_MASK, DFR_RESERVED, LDR_ID_MASK, icrtmr_actions, icrtmr_applies, icrtmr_model,
    icrtmr_result, lemma_forced_mask, lvt_stored, svr_actions, svr_model,
};
use self::ipi::{
    DELIVERY_FIXED, icr_dest_mask, icr_low_of, ipi_actions, ipi_model, ipi_result,
    lemma_delivery_injections, self_ipi_actions, self_ipi_model, spec_vcpu_bit, vcpu_limit,
};

pub mod eoi;
pub mod ipi;
pub mod registers;

verus! {

/// Number of 32-bit words in the virtual-APIC page.
pub const PAGE_WORDS: usize = 1024;

/// Byte offset of the ID register in the virtual-APIC page.
pub const REG_ID: usize = 0x020;

/// Byte offset of the Task Priority Register.
pub const REG_TPR: usize = 0x080;

/// Byte offset of the Processor Priority Register.
pub const REG_PPR: usize = 0x0A0;

/// Byte offset of the Logical Destination Register.
pub const REG_LDR: usize = 0x0D0;

/// Byte offset of the Destination Format Register.
pub const REG_DFR: usize = 0x0E0;

/// Byte offset of the Spurious-Interrupt Vector Register.
pub const REG_SVR: usize = 0x0F0;

/// Byte offset of bank 0 of the In-Service Register; bank `k` is 16 `k`
/// bytes further.
pub const REG_ISR: usize = 0x100;

/// Byte offset of bank 0 of the Trigger Mode Register.
pub const REG_TMR: usize = 0x180;

/// Byte offset of the Error Status Register.
pub const REG_ESR: usize = 0x280;

/// Byte offset of the low half of the Interrupt Command Register.
pub const REG_ICR_LO: usize = 0x300;

/// Byte offset of the high half of the Interrupt Command Register.
pub const REG_ICR_HI: usize = 0x310;

/// Byte offset of the LVT Timer register.
pub const REG_LVT_TIMER: usize = 0x320;

/// Byte offset of the timer's Initial Count Register.
pub const REG_ICR_TIMER: usize = 0x380;

/// Byte offset of the timer's Divide Configuration Register.
pub const REG_DCR_TIMER: usize = 0x3E0;

/// Byte offset of the Self IPI register.
pub const REG_SELF_IPI: usize = 0x3F0;

/// Software-enable bit of the Spurious-Interrupt Vector Register.
pub const SVR_SOFTWARE_ENABLE: u32 = 0x100;

/// "Send Illegal Vector" bit of the Error Status Register.
pub const ESR_SEND_ILLEGAL_VECTOR: u32 = 0x20;

/// Word index in the page of the cell at byte offset `off`.
pub open spec fn word(off: int) -> int {
    off / 4
}

/// Word index of bank `bank` of the In-Service Register.
pub open spec fn isr_word(bank: int) -> int {
    word(REG_ISR as int + 16 * bank)
}

/// Word index of bank `bank` of the Trigger Mode Register.
pub open spec fn tmr_word(bank: int) -> int {
    word(REG_TMR as int + 16 * bank)
}

/// Bit `v` of a 256-bit register whose bank `k` is `page[base + 4 * k]`.
pub open spec fn bank_bit(page: Seq<u32>, base: int, v: int) -> bool {
    0 <= v < 256 && (page[base + 4 * (v / 32)] >> ((v % 32) as u32)) & 1u32 == 1u32
}

/// Bit `v` of the In-Service Register is set.
pub open spec fn isr_bit(page: Seq<u32>, v: int) -> bool {
    bank_bit(page, isr_word(0), v)
}

/// Bit `v` of the Trigger Mode Register is set.
pub open spec fn tmr_bit(page: Seq<u32>, v: int) -> bool {
    bank_bit(page, tmr_word(0), v)
}

/// `v` is the highest set bit of the In-Service Register, or 0 when no bit
/// above bit 0 is set.
pub open spec fn is_highest_isr(page: Seq<u32>, v: u32) -> bool {
    &&& v < 256
    &&& v == 0 || isr_bit(page, v as int)
    &&& forall|b: int| #[trigger] isr_bit(page, b) ==> b <= v
}

/// The processor priority for a task priority and an in-service vector.
pub open spec fn spec_ppr(tpr: u32, isrv: u32) -> u32 {
    if spec_prio(tpr) >= spec_prio(isrv) {
        tpr
    } else {
        isrv & 0xF0
    }
}

/// The abstract state of a `VirtualApicRegs`.
pub ghost struct ApicModel {
    /// The virtual-APIC page, as 32-bit words.
    pub page: Seq<u32>,
    /// The APIC ID, which is also the vCPU ID.
    pub vapic_id: u32,
    /// Error bits observed since the guest last wrote the ESR.
    pub esr_pending: u32,
    /// The timer.
    pub timer: TimerModel,
    /// The highest vector in service, or 0.
    pub isrv: u32,
    /// The IA32_APIC_BASE MSR.
    pub apic_base: u64,
    /// The last value written to the Spurious-Interrupt Vector Register.
    pub svr_last: u32,
    /// The LVT shadow that guest reads see.
    pub lvt: LocalVectorTable,
}

impl ApicModel {
    /// The cell at byte offset `off`.
    pub open spec fn reg(self, off: int) -> u32 {
        self.page[word(off)]
    }

    /// The model with the cell at byte offset `off` replaced by `v`.
    pub open spec fn set_reg(self, off: int, v: u32) -> ApicModel {
        ApicModel { page: self.page.update(word(off), v), ..self }
    }

    /// x2APIC mode is on: both enable bits of IA32_APIC_BASE are set.
    pub open spec fn x2apic(self) -> bool {
        self.apic_base & 0x800 != 0 && self.apic_base & 0x400 != 0
    }

    /// xAPIC mode is on: the global enable bit alone is set.
    pub open spec fn xapic(self) -> bool {
        self.apic_base & 0x800 != 0 && self.apic_base & 0x400 == 0
    }

    /// The APIC is software-enabled: bit 8 of the SVR cell that guests read.
    pub open spec fn sw_enabled(self) -> bool {
        self.reg(REG_SVR as int) & SVR_SOFTWARE_ENABLE != 0
    }
}

/// Virtual-APIC registers of one vCPU, and the engine that serves guest
/// accesses to them.
pub struct VirtualApicRegs {
    page: Vec<u32>,
    vapic_id: u32,
    esr_pending: u32,
    virtual_timer: ApicTimer,
    isrv: u32,
    apic_base: u64,
    svr_last: u32,
    lvt_last: LocalVectorTable,
}

impl View for VirtualApicRegs {
    type V = ApicModel;

    closed spec fn view(&self) -> ApicModel {
        ApicModel {
            page: self.page@,
            vapic_id: self.vapic_id,
            esr_pending: self.esr_pending,
            timer: self.virtual_timer@,
            isrv: self.isrv,
            apic_base: self.apic_base,
            svr_last: self.svr_last,
            lvt: self.lvt_last,
        }
    }
}

/// The In-Service Register of two pages agrees when their ISR banks do.
proof fn lemma_isr_frame(pa: Seq<u32>, pb: Seq<u32>)
    requires
        pa.len() == PAGE_WORDS,
        pb.len() == PAGE_WORDS,
        forall|k: int| 0 <= k < 8 ==> pa[#[trigger] isr_word(k)] == pb[isr_word(k)],
    ensures
        forall|b: int| #[trigger] isr_bit(pa, b) <==> isr_bit(pb, b),
        forall|v: u32| #[trigger] is_highest_isr(pa, v) <==> is_highest_isr(pb, v),
{
    assert forall|b: int| #[trigger] isr_bit(pa, b) <==> isr_bit(pb, b) by {
        if 0 <= b < 256 {
            assert(pa[isr_word(b / 32)] == pb[isr_word(b / 32)]);
        }
    }
    assert forall|v: u32| #[trigger] is_highest_isr(pa, v) <==> is_highest_isr(pb, v) by {
        if is_highest_isr(pa, v) {
            assert forall|b: int| #[trigger] isr_bit(pb, b) implies b <= v by {
                assert(isr_bit(pa, b));
            }
        }
        if is_highest_isr(pb, v) {
            assert forall|b: int| #[trigger] isr_bit(pa, b) implies b <= v by {
                assert(isr_bit(pb, b));
            }
        }
    }
}

/// The last set bit of a word is set, and every bit above it is clear.
proof fn lemma_last_set_bit(w: u32, pos: u32, b: u32)
    requires
        is_last_set_bit(w, pos),
    ensures
        (w >> pos) & 1u32 == 1u32,
        pos < b < 32 ==> (w >> b) & 1u32 == 0u32,
{
    assert(pos < 32 && w >> pos == 1 ==> (w >> pos) & 1u32 == 1u32 && (pos < b < 32 ==> (w >> b)
        & 1u32 == 0u32)) by (bit_vector);
}

/// A zero word has no bit set; clearing bit `c` leaves it clear and keeps
/// every other bit.
proof fn lemma_clear_bit(w: u32, c: u32, b: u32)
    requires
        c < 32,
    ensures
        (0u32 >> b) & 1u32 == 0u32,
        ((w & !(1u32 << c)) >> c) & 1u32 == 0u32,
        b != c ==> ((w & !(1u32 << c)) >> b) & 1u32 == (w >> b) & 1u32,
{
    assert(c < 32 ==> (0u32 >> b) & 1u32 == 0u32 && ((w & !(1u32 << c)) >> c) & 1u32 == 0u32 && (b
        != c ==> ((w & !(1u32 << c)) >> b) & 1u32 == (w >> b) & 1u32)) by (bit_vector);
}

impl VirtualApicRegs {
    /// The engine's invariant: `wf_core`; the SVR cell holds the last SVR
    /// write; and while the APIC is software-disabled every LVT entry that
    /// guests read is masked.
    pub open spec fn wf(&self) -> bool {
        &&& self.wf_core()
        &&& self@.reg(REG_SVR as int) == self@.svr_last
        &&& !self@.sw_enabled() ==> self@.lvt.all_masked()
    }

    /// The page has its size, the timer its invariant, and the vector in
    /// service is the highest In-Service bit.
    pub open spec fn wf_core(&self) -> bool {
        &&& self@.page.len() == PAGE_WORDS
        &&& self.timer_wf()
        &&& is_highest_isr(self@.page, self@.isrv)
    }

    /// The timer's own invariant holds.
    pub closed spec fn timer_wf(&self) -> bool {
        self.virtual_timer.wf()
    }

    /// The cell at byte offset `off`.
    fn reg(&self, off: usize) -> (r: u32)
        requires
            self@.page.len() == PAGE_WORDS,
            off < 4096,
        ensures
            r == self@.reg(off as int),
    {
        self.page[off / 4]
    }

    /// Replace the cell at byte offset `off`; the In-Service Register must be
    /// left alone.
    fn set_reg(&mut self, off: usize, v: u32)
        requires
            old(self).wf_core(),
            off < 4096,
            forall|k: int| 0 <= k < 8 ==> word(off as int) != #[trigger] isr_word(k),
        ensures
            final(self)@ == old(self)@.set_reg(off as int, v),
            final(self).wf_core(),
            old(self).wf() && word(off as int) != word(REG_SVR as int) ==> final(self).wf(),
    {
        self.page.set(off / 4, v);
        proof {
            lemma_isr_frame(old(self)@.page, self@.page);
        }
    }
}

impl VirtualApicRegs {
    /// Whether x2APIC mode is on.
    pub fn is_x2apic_enabled(&self) -> (r: bool)
        ensures
            r == self@.x2apic(),
    {
        self.apic_base & 0x800 != 0 && self.apic_base & 0x400 != 0
    }

    /// Whether xAPIC mode is on.
    pub fn is_xapic_enabled(&self) -> (r: bool)
        ensures
            r == self@.xapic(),
    {
        self.apic_base & 0x800 != 0 && self.apic_base & 0x400 == 0
    }

    /// Fresh registers for vCPU `vcpu_id` of VM `vm_id`, at their reset
    /// values: every LVT register masked, the SVR at 0xFF (software-disabled),
    /// everything else 0, and the timer stopped.
    pub fn new(vm_id: u32, vcpu_id: u32) -> (r: Self)
        ensures
            r.wf(),
            r@.page == reset_page(),
            r@.vapic_id == vcpu_id,
            r@.esr_pending == 0,
            r@.isrv == 0,
            r@.apic_base == 0,
            r@.svr_last == RESET_SPURIOUS_INTERRUPT_VECTOR,
            r@.lvt == reset_lvt(),
            r@.timer.lvt == RESET_LVT_REG,
            r@.timer.initial_count == 0,
            r@.timer.dcr == 0,
            !r@.timer.armed,
            r@.timer.vm_id == vm_id as usize,
            r@.timer.vcpu_id == vcpu_id as usize,
    {
        let mut page: Vec<u32> = Vec::new();
        while page.len() < PAGE_WORDS
            invariant
                page.len() <= PAGE_WORDS,
                forall|j: int| 0 <= j < page.len() ==> page@[j] == 0,
            decreases PAGE_WORDS - page.len(),
        {
            page.push(0);
        }
        page.set(REG_SVR / 4, RESET_SPURIOUS_INTERRUPT_VECTOR);
        page.set(0x2F0 / 4, RESET_LVT_REG);
        page.set(0x320 / 4, RESET_LVT_REG);
        page.set(0x330 / 4, RESET_LVT_REG);
        page.set(0x340 / 4, RESET_LVT_REG);
        page.set(0x350 / 4, RESET_LVT_REG);
        page.set(0x360 / 4, RESET_LVT_REG);
        page.set(0x370 / 4, RESET_LVT_REG);
        let r = Self {
            page,
            vapic_id: vcpu_id,
            esr_pending: 0,
            virtual_timer: ApicTimer::new(vm_id as usize, vcpu_id as usize),
            isrv: 0,
            apic_base: 0,
            svr_last: RESET_SPURIOUS_INTERRUPT_VECTOR,
            lvt_last: LocalVectorTable::default(),
        };
        proof {
            assert(r@.page =~= reset_page());
            assert forall|b: int| #[trigger] isr_bit(r@.page, b) implies b <= 0 by {
                if 0 <= b < 256 {
                    lemma_clear_bit(0, 0, (b % 32) as u32);
                }
            }
            assert(0xFFu32 & 0x100u32 == 0 && 0x10000u32 & 0x10000u32 != 0) by (bit_vector);
        }
        r
    }

    /// The IA32_APIC_BASE MSR.
    pub fn apic_base(&self) -> (r: u64)
        ensures
            r == self@.apic_base,
    {
        self.apic_base
    }

    /// The timer mode in the LVT Timer cell of the page; the reserved mode is
    /// `InvalidData`.
    pub fn timer_mode(&self) -> (r: Result<TimerMode, ApicError>)
        requires
            self.wf(),
        ensures
            spec_timer_mode(self@.reg(REG_LVT_TIMER as int)) == TimerMode::Reserved ==> r
                == Err::<TimerMode, ApicError>(ApicError::InvalidData),
            spec_timer_mode(self@.reg(REG_LVT_TIMER as int)) != TimerMode::Reserved ==> r
                == Ok::<TimerMode, ApicError>(spec_timer_mode(self@.reg(REG_LVT_TIMER as int))),
    {
        match timer_mode_of(self.reg(REG_LVT_TIMER)) {
            TimerMode::Reserved => Err(ApicError::InvalidData),
            m => Ok(m),
        }
    }

    /// The timer.
    pub fn timer(&self) -> (r: &ApicTimer)
        requires
            self.wf(),
        ensures
            r@ == self@.timer,
            r.wf(),
    {
        &self.virtual_timer
    }

    /// The highest vector in service, or 0.
    pub fn isrv(&self) -> (r: u32)
        ensures
            r == self@.isrv,
    {
        self.isrv
    }

    /// Word `index` of the virtual-APIC page, for the host to copy out.
    pub fn page_word(&self, index: usize) -> (r: u32)
        requires
            self.wf(),
            index < PAGE_WORDS,
        ensures
            r == self@.page[index as int],
    {
        self.page[index]
    }

    /// Replace word `index` of the virtual-APIC page with what the processor
    /// left in the frame; the vector in service follows the In-Service
    /// Register. The SVR cell is left alone: it changes only through guest
    /// SVR writes, which carry the software-enable logic.
    pub fn set_page_word(&mut self, index: usize, value: u32)
        requires
            old(self).wf(),
            index < PAGE_WORDS,
        ensures
            final(self).wf(),
            final(self)@ == synced(old(self)@, index as int, value),
    {
        if index == REG_SVR / 4 {
            return ;
        }
        self.page.set(index, value);
        self.isrv = self.find_isrv();
        proof {
            lemma_highest_isr_unique(self@.page, self.isrv);
        }
    }

    /// The host timer reports an expiry at tick `now_ticks`.
    pub fn timer_expired(&mut self, now_ticks: u64, actions: &mut Vec<ApicAction>)
        requires
            old(self).wf(),
        ensures
            final(self).wf(),
            final(self)@ == (ApicModel {
                timer: expired_timer(old(self)@.timer, now_ticks),
                ..old(self)@
            }),
            final(actions)@ == old(actions)@ + expired_actions(old(self)@.timer, now_ticks),
    {
        let ghost a0 = actions@;
        self.virtual_timer.timer_expired(now_ticks, actions);
        proof {
            assert(actions@ =~= a0 + expired_actions(old(self)@.timer, now_ticks));
        }
    }

    /// Serve a guest read of register `offset` with access width `width` at
    /// tick `now_ticks`. Reads change nothing.
    pub fn handle_read(&self, offset: ApicRegOffset, width: AccessWidth, now_ticks: u64) -> (r:
        Result<u64, ApicError>)
        requires
            self.wf(),
        ensures
            r == read_outcome(self@, offset, width, now_ticks),
    {
        let x2apic = self.is_x2apic_enabled();
        let width_ok = match offset {
            ApicRegOffset::ICRLow => if x2apic {
                width == AccessWidth::Qword
            } else {
                width == AccessWidth::Dword
            },
            _ => width == AccessWidth::Dword,
        };
        if !width_ok {
            return Err(ApicError::InvalidInput);
        }
        let value: u64 = match offset {
            ApicRegOffset::ID | ApicRegOffset::Version | ApicRegOffset::TPR | ApicRegOffset::PPR
            | ApicRegOffset::LDR | ApicRegOffset::DFR | ApicRegOffset::SIVR | ApicRegOffset::ISR(_)
            | ApicRegOffset::TMR(_) | ApicRegOffset::IRR(_) | ApicRegOffset::ESR
            | ApicRegOffset::ICRHi | ApicRegOffset::TimerDivConf => self.reg(
                offset.index() * 16,
            ) as u64,
            ApicRegOffset::ICRLow => {
                let lo = self.reg(REG_ICR_LO) as u64;
                if x2apic {
                    lo | ((self.reg(REG_ICR_HI) as u64) << 32u64)
                } else {
                    lo
                }
            },
            ApicRegOffset::LvtCMCI | ApicRegOffset::LvtTimer | ApicRegOffset::LvtThermal
            | ApicRegOffset::LvtPmc | ApicRegOffset::LvtLint0 | ApicRegOffset::LvtLint1
            | ApicRegOffset::LvtErr => self.lvt_last.get(offset) as u64,
            ApicRegOffset::TimerInitCount => match timer_mode_of(self.reg(REG_LVT_TIMER)) {
                TimerMode::OneShot | TimerMode::Periodic => self.reg(REG_ICR_TIMER) as u64,
                _ => 0,
            },
            ApicRegOffset::TimerCurCount => self.virtual_timer.read_ccr(now_ticks) as u64,
            _ => 0,
        };
        Ok(value)
    }

    /// Serve a guest write of `val` to register `offset` with access width
    /// `width`; `ctx` is what the host knows of the moment. The actions to
    /// carry out are appended to `actions`.
    pub fn handle_write(
        &mut self,
        offset: ApicRegOffset,
        val: u64,
        width: AccessWidth,
        ctx: &HostContext,
        actions: &mut Vec<ApicAction>,
    ) -> (r: Result<(), ApicError>)
        requires
            old(self).wf(),
        ensures
            final(self).wf(),
            (r, final(self)@, final(actions)@) == ({
                let o = write_outcome(old(self)@, offset, val, width, *ctx);
                (o.0, o.1, old(actions)@ + o.2)
            }),
            final(self)@.reg(REG_ID as int) == old(self)@.reg(REG_ID as int),
            offset == ApicRegOffset::EOI && r is Ok && old(self)@.isrv != 0 ==> {
                &&& !isr_bit(final(self)@.page, old(self)@.isrv as int)
                &&& is_highest_isr(final(self)@.page, final(self)@.isrv)
                &&& final(self)@.reg(REG_PPR as int) == spec_ppr(
                    final(self)@.reg(REG_TPR as int),
                    final(self)@.isrv,
                )
            },
            offset == ApicRegOffset::TimerInitCount && width_ok(old(self)@, offset, width)
                && icrtmr_applies(old(self)@) ==> {
                &&& final(self)@.timer.started() <==> (val as u32) > 0
                &&& forall|now: u64| #[trigger] final(self)@.timer.ccr(now) <= val as u32
            },
            offset == ApicRegOffset::SIVR && r is Ok && (val as u32) & SVR_SOFTWARE_ENABLE == 0
                ==> final(self)@.lvt.all_masked(),
    {
        let data = val as u32;
        let x2apic = self.is_x2apic_enabled();
        let width_ok = match offset {
            ApicRegOffset::ICRLow => if x2apic {
                width == AccessWidth::Qword
            } else {
                width == AccessWidth::Dword
            },
            _ => width == AccessWidth::Dword,
        };
        let ghost a0 = actions@;
        if !width_ok {
            proof {
                assert(actions@ =~= a0 + seq![]);
            }
            return Err(ApicError::InvalidInput);
        }
        let r = match offset {
            ApicRegOffset::ID => Ok(()),
            ApicRegOffset::EOI => {
                self.process_eoi(actions);
                Ok(())
            },
            ApicRegOffset::LDR => {
                self.write_ldr(data);
                Ok(())
            },
            ApicRegOffset::DFR => {
                self.write_dfr(data);
                Ok(())
            },
            ApicRegOffset::SIVR => {
                self.write_svr(data, ctx.now_ticks, actions);
                Ok(())
            },
            ApicRegOffset::ESR => {
                self.write_esr();
                Ok(())
            },
            ApicRegOffset::ICRLow => {
                if x2apic {
                    self.set_reg(REG_ICR_HI, (val >> 32u64) as u32);
                }
                self.set_reg(REG_ICR_LO, data);
                self.write_icr(ctx, actions)
            },
            ApicRegOffset::ICRHi => {
                self.set_reg(REG_ICR_HI, data);
                Ok(())
            },
            ApicRegOffset::LvtCMCI | ApicRegOffset::LvtTimer | ApicRegOffset::LvtThermal
            | ApicRegOffset::LvtPmc | ApicRegOffset::LvtLint0 | ApicRegOffset::LvtLint1
            | ApicRegOffset::LvtErr => {
                self.set_reg(offset.index() * 16, data);
                let r = self.write_lvt(offset);
                proof {
                    assert(word(16 * spec_reg_index(offset) as int) != word(REG_SVR as int));
                    lemma_forced_mask(data & spec_lvt_write_mask(offset));
                }
                r
            },
            ApicRegOffset::TimerInitCount => self.write_icrtmr(data, ctx.now_ticks, actions),
            ApicRegOffset::TimerDivConf => {
                self.write_dcr(data);
                Ok(())
            },
            ApicRegOffset::SelfIPI => {
                if x2apic {
                    self.handle_self_ipi(data, ctx, actions);
                    Ok(())
                } else {
                    Err(ApicError::InvalidInput)
                }
            },
            _ => Err(ApicError::InvalidInput),
        };
        proof {
            assert(actions@ =~= a0 + write_outcome(old(self)@, offset, val, width, *ctx).2);
            if offset == ApicRegOffset::EOI && old(self)@.isrv != 0 {
                assert(word(REG_TPR as int) != word(REG_PPR as int));
            }
        }
        r
    }
}

/// Writing the same value twice in a row to an LVT register leaves the same
/// state as writing it once.
pub proof fn lemma_lvt_write_idempotent(
    m: ApicModel,
    offset: ApicRegOffset,
    val: u64,
    width: AccessWidth,
    ctx: HostContext,
)
    requires
        m.page.len() == PAGE_WORDS,
        is_lvt(offset),
    ensures
        write_outcome(write_outcome(m, offset, val, width, ctx).1, offset, val, width, ctx)
            == write_outcome(m, offset, val, width, ctx),
{
    let once = write_outcome(m, offset, val, width, ctx);
    let twice = write_outcome(once.1, offset, val, width, ctx);
    if width_ok(m, offset, width) {
        let off = 16 * spec_reg_index(offset);
        assert(twice.1.page =~= once.1.page);
        assert(twice.1.lvt == once.1.lvt);
    }
}

/// An accepted LVT write sets the register's vector (bits 0 to 7) that guests
/// read to the vector written; a write of the mask bit alone clears it.
pub proof fn lemma_lvt_write_vector(
    m: ApicModel,
    offset: ApicRegOffset,
    val: u64,
    width: AccessWidth,
    ctx: HostContext,
)
    requires
        is_lvt(offset),
        width_ok(m, offset, width),
    ensures
        write_outcome(m, offset, val, width, ctx).0 is Ok,
        write_outcome(m, offset, val, width, ctx).1.lvt.spec_get(offset) & 0xFF == (val as u32)
            & 0xFF,
{
    lemma_vector_kept(val as u32);
}

/// Each LVT write mask keeps the vector bits, with or without the mask bit.
proof fn lemma_vector_kept(x: u32)
    ensures
        (x & 0x0007_10FFu32) & 0xFF == x & 0xFF,
        (x & 0x0001_F7FFu32) & 0xFF == x & 0xFF,
        (x & 0x0001_17FFu32) & 0xFF == x & 0xFF,
        (x & 0x0001_10FFu32) & 0xFF == x & 0xFF,
        ((x & 0x0007_10FFu32) | 0x0001_0000u32) & 0xFF == x & 0xFF,
        ((x & 0x0001_F7FFu32) | 0x0001_0000u32) & 0xFF == x & 0xFF,
        ((x & 0x0001_17FFu32) | 0x0001_0000u32) & 0xFF == x & 0xFF,
        ((x & 0x0001_10FFu32) | 0x0001_0000u32) & 0xFF == x & 0xFF,
{
    assert((x & 0x0007_10FFu32) & 0xFF == x & 0xFF && (x & 0x0001_F7FFu32) & 0xFF == x & 0xFF && (x
        & 0x0001_17FFu32) & 0xFF == x & 0xFF && (x & 0x0001_10FFu32) & 0xFF == x & 0xFF && ((x
        & 0x0007_10FFu32) | 0x0001_0000u32) & 0xFF == x & 0xFF && ((x & 0x0001_F7FFu32)
        | 0x0001_0000u32) & 0xFF == x & 0xFF && ((x & 0x0001_17FFu32) | 0x0001_0000u32) & 0xFF == x
        & 0xFF && ((x & 0x0001_10FFu32) | 0x0001_0000u32) & 0xFF == x & 0xFF) by (bit_vector);
}

/// The model after the host copies `value` into page word `index`: every
/// word but the SVR cell takes it, and the vector in service follows.
pub open spec fn synced(m: ApicModel, index: int, value: u32) -> ApicModel {
    if index == word(REG_SVR as int) {
        m
    } else {
        let page = m.page.update(index, value);
        ApicModel { page, isrv: highest_isr(page), ..m }
    }
}

/// No action in `a` injects a fixed interrupt with a vector below 16.
pub open spec fn legal_injections(a: Seq<ApicAction>) -> bool {
    forall|i: int|
        0 <= i < a.len() ==> match #[trigger] a[i] {
            ApicAction::InjectInterrupt { vector, .. } => vector >= 16,
            _ => true,
        }
}

/// Vectors 0 to 15 are never delivered: no guest write asks the host to
/// inject a fixed interrupt with such a vector.
pub proof fn lemma_no_illegal_vector_injected(
    m: ApicModel,
    offset: ApicRegOffset,
    val: u64,
    width: AccessWidth,
    ctx: HostContext,
)
    ensures
        legal_injections(write_outcome(m, offset, val, width, ctx).2),
{
    let data = val as u32;
    let a = write_outcome(m, offset, val, width, ctx).2;
    assert((data & 0xFFu32) as u8 as u32 == data & 0xFFu32) by (bit_vector);
    if width_ok(m, offset, width) {
        match offset {
            ApicRegOffset::ICRLow => {
                let m0 = if m.x2apic() {
                    m.set_reg(REG_ICR_HI as int, (val >> 32u64) as u32)
                } else {
                    m
                };
                let m1 = m0.set_reg(REG_ICR_LO as int, data);
                let icr = icr_low_of(m1);
                assert((icr & 0xFFu32) as u8 as u32 == icr & 0xFFu32) by (bit_vector);
                match icr_dest_mask(m1, ctx) {
                    Ok(dmask) => {
                        lemma_delivery_injections(
                            dmask,
                            vcpu_limit(ctx.vcpu_count),
                            (icr >> 8u32) & 7u32,
                            icr & 0xFFu32,
                            icr,
                        );
                    },
                    Err(_) => {},
                }
            },
            ApicRegOffset::SelfIPI => {
                lemma_delivery_injections(
                    spec_vcpu_bit(m.vapic_id),
                    vcpu_limit(ctx.vcpu_count),
                    DELIVERY_FIXED,
                    data & 0xFFu32,
                    data,
                );
            },
            _ => {},
        }
    }
}

/// The page after reset: the SVR at 0xFF, every LVT register masked, all else 0.
pub open spec fn reset_page() -> Seq<u32> {
    Seq::new(
        PAGE_WORDS as nat,
        |j: int|
            if j == word(REG_SVR as int) {
                RESET_SPURIOUS_INTERRUPT_VECTOR
            } else if j == word(0x2F0) || (word(0x320) <= j <= word(0x370) && j % 4 == 0) {
                RESET_LVT_REG
            } else {
                0u32
            },
    )
}

/// The LVT shadow after reset: every entry masked.
pub open spec fn reset_lvt() -> LocalVectorTable {
    LocalVectorTable {
        lvt_cmci: RESET_LVT_REG,
        lvt_timer: RESET_LVT_REG,
        lvt_thermal: RESET_LVT_REG,
        lvt_perf_count: RESET_LVT_REG,
        lvt_lint0: RESET_LVT_REG,
        lvt_lint1: RESET_LVT_REG,
        lvt_err: RESET_LVT_REG,
    }
}

/// The timer after an expiry report at tick `now`.
pub open spec fn expired_timer(t: TimerModel, now: u64) -> TimerModel {
    if !t.due(now) {
        t
    } else if spec_timer_mode(t.lvt) == TimerMode::Periodic {
        t.armed_at(now)
    } else {
        t.disarmed()
    }
}

/// What an expiry report at tick `now` asks of the host.
pub open spec fn expired_actions(t: TimerModel, now: u64) -> Seq<ApicAction> {
    if t.due(now) && spec_timer_mode(t.lvt) == TimerMode::Periodic {
        seq![t.arm_action(now)]
    } else {
        seq![]
    }
}

/// The access width that register `offset` takes: 8 bytes for the ICR in
/// x2APIC mode, 4 bytes otherwise.
pub open spec fn width_ok(m: ApicModel, offset: ApicRegOffset, width: AccessWidth) -> bool {
    if offset == ApicRegOffset::ICRLow && m.x2apic() {
        width == AccessWidth::Qword
    } else {
        width == AccessWidth::Dword
    }
}

/// What a guest read of register `offset` returns.
pub open spec fn read_outcome(m: ApicModel, offset: ApicRegOffset, width: AccessWidth, now: u64) -> Result<
    u64,
    ApicError,
> {
    if !width_ok(m, offset, width) {
        Err(ApicError::InvalidInput)
    } else {
        Ok(
            match offset {
                ApicRegOffset::ID | ApicRegOffset::Version | ApicRegOffset::TPR
                | ApicRegOffset::PPR | ApicRegOffset::LDR | ApicRegOffset::DFR
                | ApicRegOffset::SIVR | ApicRegOffset::ISR(_) | ApicRegOffset::TMR(_)
                | ApicRegOffset::IRR(_) | ApicRegOffset::ESR | ApicRegOffset::ICRHi
                | ApicRegOffset::TimerDivConf => m.reg(16 * spec_reg_index(offset)) as u64,
                ApicRegOffset::ICRLow => if m.x2apic() {
                    (m.reg(REG_ICR_LO as int) as u64) | (((m.reg(REG_ICR_HI as int) as u64)
                        << 32u64) as u64)
                } else {
                    m.reg(REG_ICR_LO as int) as u64
                },
                ApicRegOffset::LvtCMCI | ApicRegOffset::LvtTimer | ApicRegOffset::LvtThermal
                | ApicRegOffset::LvtPmc | ApicRegOffset::LvtLint0 | ApicRegOffset::LvtLint1
                | ApicRegOffset::LvtErr => m.lvt.spec_get(offset) as u64,
                ApicRegOffset::TimerInitCount => if icrtmr_applies(m) {
                    m.reg(REG_ICR_TIMER as int) as u64
                } else {
                    0
                },
                ApicRegOffset::TimerCurCount => m.timer.ccr(now) as u64,
                _ => 0,
            },
        )
    }
}

/// What a guest write of `val` to register `offset` does: its result, the
/// model after it, and the actions it asks of the host.
pub open spec fn write_outcome(
    m: ApicModel,
    offset: ApicRegOffset,
    val: u64,
    width: AccessWidth,
    ctx: HostContext,
) -> (Result<(), ApicError>, ApicModel, Seq<ApicAction>) {
    let data = val as u32;
    if !width_ok(m, offset, width) {
        (Err(ApicError::InvalidInput), m, seq![])
    } else {
        match offset {
            ApicRegOffset::ID => (Ok(()), m, seq![]),
            ApicRegOffset::EOI => (Ok(()), eoi_model(m), eoi_actions(m)),
            ApicRegOffset::LDR => (Ok(()), m.set_reg(REG_LDR as int, data & LDR_ID_MASK), seq![]),
            ApicRegOffset::DFR => (
                Ok(()),
                m.set_reg(REG_DFR as int, (data & DFR_MODEL_MASK) | DFR_RESERVED),
                seq![],
            ),
            ApicRegOffset::SIVR => (
                Ok(()),
                svr_model(m, data, ctx.now_ticks),
                svr_actions(m, data, ctx.now_ticks),
            ),
            ApicRegOffset::ESR => (
                Ok(()),
                ApicModel { esr_pending: 0, ..m.set_reg(REG_ESR as int, m.esr_pending) },
                seq![],
            ),
            ApicRegOffset::ICRLow => {
                let m0 = if m.x2apic() {
                    m.set_reg(REG_ICR_HI as int, (val >> 32u64) as u32)
                } else {
                    m
                };
                let m1 = m0.set_reg(REG_ICR_LO as int, data);
                (ipi_result(m1, ctx), ipi_model(m1), ipi_actions(m1, ctx))
            },
            ApicRegOffset::ICRHi => (Ok(()), m.set_reg(REG_ICR_HI as int, data), seq![]),
            ApicRegOffset::LvtCMCI | ApicRegOffset::LvtTimer | ApicRegOffset::LvtThermal
            | ApicRegOffset::LvtPmc | ApicRegOffset::LvtLint0 | ApicRegOffset::LvtLint1
            | ApicRegOffset::LvtErr => (
                Ok(()),
                lvt_stored(m.set_reg(16 * spec_reg_index(offset), data), offset, data),
                seq![],
            ),
            ApicRegOffset::TimerInitCount => (
                icrtmr_result(m),
                icrtmr_model(m, data, ctx.now_ticks),
                icrtmr_actions(m, data, ctx.now_ticks),
            ),
            ApicRegOffset::TimerDivConf => (
                Ok(()),
                ApicModel {
                    timer: TimerModel {
                        dcr: data & crate::timer::DCR_MASK,
                        divide_shift: crate::timer::spec_divide_shift(data),
                        ..m.timer
                    },
                    ..m.set_reg(REG_DCR_TIMER as int, data)
                },
                seq![],
            ),
            ApicRegOffset::SelfIPI => if m.x2apic() {
                (Ok(()), self_ipi_model(m, data), self_ipi_actions(m, data, ctx))
            } else {
                (Err(ApicError::InvalidInput), m, seq![])
            },
            _ => (Err(ApicError::InvalidInput), m, seq![]),
        }
    }
}

} // verus!
