//! End of interrupt: the In-Service Register scan, the processor priority,
//! and EOI processing with its broadcast to the I/O APICs.

use vstd::prelude::*;

use crate::host::ApicAction;
use crate::utils::{extract_index_and_bitpos_u32, fls32, prio};
use super::{
    ApicModel, PAGE_WORDS, REG_PPR, REG_TPR, VirtualApicRegs, is_highest_isr, isr_bit, isr_word,
    lemma_clear_bit, lemma_isr_frame, lemma_last_set_bit, spec_ppr, tmr_bit, tmr_word, word,
};

verus! {

impl VirtualApicRegs {
    /// The highest set bit of the In-Service Register, or 0.
    pub(super) fn find_isrv(&self) -> (r: u32)
        requires
            self@.page.len() == PAGE_WORDS,
        ensures
            is_highest_isr(self@.page, r),
    {
        let ghost page = self@.page;
        let mut i: usize = 8;
        while i > 0
            invariant
                i <= 8,
                page == self@.page,
                page.len() == PAGE_WORDS,
                forall|b: int| #[trigger] isr_bit(page, b) ==> b < 32 * i,
            decreases i,
        {
            i -= 1;
            let val = self.page[64 + 4 * i];
            assert(isr_word(i as int) == 64 + 4 * i);
            if val != 0 {
                let pos = fls32(val);
                let r = (i as u32) * 32 + pos as u32;
                proof {
                    lemma_last_set_bit(val, pos as u32, 0);
                    assert(r / 32 == i && r % 32 == pos);
                    assert(isr_bit(page, r as int));
                    assert forall|b: int| #[trigger] isr_bit(page, b) implies b <= r by {
                        if b / 32 == i as int && b % 32 > pos {
                            lemma_last_set_bit(val, pos as u32, (b % 32) as u32);
                        }
                    }
                }
                return r;
            }
            proof {
                assert forall|b: int| #[trigger] isr_bit(page, b) implies b < 32 * i by {
                    if b / 32 == i as int {
                        lemma_clear_bit(0, 0, (b % 32) as u32);
                    }
                }
            }
        }
        0
    }

    /// Recompute the processor priority from the task priority and the
    /// highest vector in service.
    pub(super) fn update_ppr(&mut self)
        requires
            old(self).wf(),
        ensures
            final(self).wf(),
            final(self)@ == old(self)@.set_reg(
                REG_PPR as int,
                spec_ppr(old(self)@.reg(REG_TPR as int), old(self)@.isrv),
            ),
    {
        let isrv = self.isrv;
        let tpr = self.reg(REG_TPR);
        let ppr = if prio(tpr) >= prio(isrv) {
            tpr
        } else {
            isrv & 0xf0
        };
        self.set_reg(REG_PPR, ppr);
    }

    /// End of interrupt: clear the highest in-service bit, find the next one,
    /// recompute the processor priority, and for a level-triggered vector ask
    /// the host to broadcast the EOI to the I/O APICs.
    pub(super) fn process_eoi(&mut self, actions: &mut Vec<ApicAction>)
        requires
            old(self).wf(),
        ensures
            final(self).wf(),
            final(self)@ == eoi_model(old(self)@),
            final(actions)@ == old(actions)@ + eoi_actions(old(self)@),
            old(self)@.isrv != 0 ==> !isr_bit(final(self)@.page, old(self)@.isrv as int),
    {
        let vector = self.isrv;
        if vector == 0 {
            proof {
                assert(actions@ =~= old(actions)@ + eoi_actions(old(self)@));
            }
            return ;
        }
        let (idx, bitpos) = extract_index_and_bitpos_u32(vector);
        let w = 64 + 4 * idx;
        let isr = self.page[w];
        let bank = isr & !(1u32 << bitpos as u32);
        self.page.set(w, bank);
        let ghost cleared: Seq<u32> = self@.page;
        proof {
            assert(isr_word(idx as int) == w);
            lemma_clear_bit(isr, bitpos as u32, 0);
            assert(!isr_bit(cleared, vector as int));
        }
        self.isrv = self.find_isrv();
        proof {
            lemma_highest_isr_unique(cleared, self.isrv);
        }
        self.update_ppr();
        let tmr = self.page[96 + 4 * idx];
        if (tmr >> bitpos as u32) & 1 == 1 {
            actions.push(ApicAction::BroadcastEoi { vector: vector as u8 });
        }
        proof {
            assert(tmr_word(idx as int) == 96 + 4 * idx);
            lemma_isr_frame(cleared, self@.page);
            assert(actions@ =~= old(actions)@ + eoi_actions(old(self)@));
        }
    }
}

/// The highest set bit of the In-Service Register, or 0.
pub open spec fn highest_isr(page: Seq<u32>) -> u32 {
    choose|v: u32| is_highest_isr(page, v)
}

/// There is only one highest In-Service bit.
pub proof fn lemma_highest_isr_unique(page: Seq<u32>, v: u32)
    requires
        is_highest_isr(page, v),
    ensures
        highest_isr(page) == v,
{
    let w = highest_isr(page);
    assert(is_highest_isr(page, w));
    if v != 0 {
        assert(isr_bit(page, v as int));
    }
    if w != 0 {
        assert(isr_bit(page, w as int));
    }
}

/// The page after an EOI clears bit `v` of the In-Service Register.
pub open spec fn eoi_cleared(m: ApicModel) -> Seq<u32> {
    let v = m.isrv;
    let bank = isr_word((v / 32) as int);
    m.page.update(bank, m.page[bank] & !(1u32 << ((v % 32) as u32)))
}

/// The model after an EOI: with `v` the vector in service (nothing happens
/// when it is 0), ISR bit `v` is cleared, the new vector in service is the
/// highest remaining ISR bit, and the PPR is recomputed.
pub open spec fn eoi_model(m: ApicModel) -> ApicModel {
    if m.isrv == 0 {
        m
    } else {
        let cleared = eoi_cleared(m);
        let v1 = highest_isr(cleared);
        ApicModel {
            page: cleared.update(
                word(REG_PPR as int),
                spec_ppr(cleared[word(REG_TPR as int)], v1),
            ),
            isrv: v1,
            ..m
        }
    }
}

/// What an EOI asks of the host: a broadcast when the vector in service is
/// level-triggered (its TMR bit is set).
pub open spec fn eoi_actions(m: ApicModel) -> Seq<ApicAction> {
    if m.isrv != 0 && tmr_bit(m.page, m.isrv as int) {
        seq![ApicAction::BroadcastEoi { vector: m.isrv as u8 }]
    } else {
        seq![]
    }
}

} // verus!
