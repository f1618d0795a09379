//! Interprocessor interrupts: the Interrupt Command Register and the Self IPI
//! register, destination computation, and delivery to the selected vCPUs.

use vstd::prelude::*;

use crate::host::{ApicAction, ApicError, HostContext, InitSipiMode};
use super::{
    ApicModel, ESR_SEND_ILLEGAL_VECTOR, PAGE_WORDS, REG_ICR_HI, REG_ICR_LO,
    REG_SELF_IPI, VirtualApicRegs,
};

verus! {

impl VirtualApicRegs {
    /// The vCPUs, one bit each, that an IPI with destination shorthand
    /// `shorthand` and destination `dest` reaches.
    pub(super) fn calculate_dest(
        &self,
        shorthand: u32,
        is_broadcast: bool,
        dest: u32,
        is_logical: bool,
        ctx: &HostContext,
    ) -> (r: Result<u64, ApicError>)
        requires
            self@.page.len() == PAGE_WORDS,
        ensures
            r == spec_dest_mask(self@, *ctx, shorthand, is_broadcast, dest, is_logical),
    {
        if shorthand == SHORTHAND_NONE {
            if is_broadcast {
                Ok(ctx.active_vcpus)
            } else if !is_logical {
                Ok(vcpu_bit(dest))
            } else if self.is_x2apic_enabled() {
                Ok(ctx.active_vcpus)
            } else {
                logical_dest_mask(ctx, dest)
            }
        } else if shorthand == SHORTHAND_SELF {
            Ok(vcpu_bit(self.vapic_id))
        } else if shorthand == SHORTHAND_ALL_INCLUDING_SELF {
            Ok(ctx.active_vcpus)
        } else {
            Ok(ctx.active_vcpus & !vcpu_bit(self.vapic_id))
        }
    }

    /// Record error bits `mask` among the pending errors; the guest sees them
    /// at its next ESR write.
    pub(super) fn set_err(&mut self, mask: u32)
        requires
            old(self).wf(),
        ensures
            final(self).wf(),
            final(self)@ == (ApicModel { esr_pending: old(self)@.esr_pending | mask, ..old(self)@ }),
    {
        self.esr_pending = self.esr_pending | mask;
    }

    /// Deliver an IPI of delivery mode `mode` to each vCPU in `dmask` whose ID
    /// is below the VM's vCPU count.
    pub(super) fn dispatch_ipi(
        &self,
        dmask: u64,
        mode: u32,
        vector: u32,
        icr_low: u32,
        vcpu_count: usize,
        actions: &mut Vec<ApicAction>,
    )
        ensures
            final(actions)@ == old(actions)@ + delivery_actions(
                dmask,
                vcpu_limit(vcpu_count),
                mode,
                vector,
                icr_low,
            ),
    {
        let limit: usize = if vcpu_count < 64 {
            vcpu_count
        } else {
            64
        };
        let mut i: usize = 0;
        while i < limit
            invariant
                i <= limit,
                limit == vcpu_limit(vcpu_count),
                limit <= 64,
                actions@ == old(actions)@ + delivery_actions(dmask, i as nat, mode, vector, icr_low),
            decreases limit - i,
        {
            let ghost before = actions@;
            if (dmask >> i as u64) & 1 == 1 {
                if mode == DELIVERY_FIXED {
                    actions.push(ApicAction::InjectInterrupt { vcpu_id: i, vector: vector as u8 });
                } else if mode == DELIVERY_NMI {
                    actions.push(ApicAction::InjectNmi { vcpu_id: i });
                } else if mode == DELIVERY_INIT {
                    actions.push(
                        ApicAction::InitSipi { vcpu_id: i, mode: InitSipiMode::Init, icr_low },
                    );
                } else if mode == DELIVERY_STARTUP {
                    actions.push(
                        ApicAction::InitSipi { vcpu_id: i, mode: InitSipiMode::StartUp, icr_low },
                    );
                }
            }
            proof {
                assert(actions@ =~= before + delivery_step(dmask, i as nat, mode, vector, icr_low));
            }
            i += 1;
        }
    }

    /// Send the IPI that the guest wrote to the Interrupt Command Register.
    /// An illegal vector with fixed delivery sets "Send Illegal Vector" in the
    /// pending errors and sends nothing; NMI, INIT and start-up to self are
    /// dropped; a reserved delivery mode is `InvalidData`.
    pub(super) fn write_icr(&mut self, ctx: &HostContext, actions: &mut Vec<ApicAction>) -> (r: Result<
        (),
        ApicError,
    >)
        requires
            old(self).wf(),
        ensures
            final(self).wf(),
            r == ipi_result(old(self)@, *ctx),
            final(self)@ == ipi_model(old(self)@),
            final(actions)@ == old(actions)@ + ipi_actions(old(self)@, *ctx),
    {
        let icr_low = self.reg(REG_ICR_LO) & !ICR_DELIVERY_STATUS;
        self.set_reg(REG_ICR_LO, icr_low);
        let x2apic = self.is_x2apic_enabled();
        let hi = self.reg(REG_ICR_HI);
        let dest = if x2apic {
            hi
        } else {
            (hi >> 24) & 0xFF
        };
        let is_broadcast = if x2apic {
            dest == crate::consts::X2APIC_BROADCAST_DEST_ID
        } else {
            dest == crate::consts::XAPIC_BROADCAST_DEST_ID
        };
        let vector = icr_low & 0xFF;
        let mode = (icr_low >> 8) & 7;
        let is_logical = icr_low & ICR_DESTINATION_LOGICAL != 0;
        let shorthand = (icr_low >> 18) & 3;
        if mode == DELIVERY_RESERVED_3 || mode == DELIVERY_RESERVED_7 {
            proof {
                assert(actions@ =~= old(actions)@ + ipi_actions(old(self)@, *ctx));
            }
            return Err(ApicError::InvalidData);
        }
        if mode == DELIVERY_FIXED && vector < 16 {
            self.set_err(ESR_SEND_ILLEGAL_VECTOR);
            proof {
                assert(actions@ =~= old(actions)@ + ipi_actions(old(self)@, *ctx));
            }
            return Ok(());
        }
        if (shorthand == SHORTHAND_SELF || shorthand == SHORTHAND_ALL_INCLUDING_SELF) && (mode
            == DELIVERY_NMI || mode == DELIVERY_INIT || mode == DELIVERY_STARTUP) {
            proof {
                assert(actions@ =~= old(actions)@ + ipi_actions(old(self)@, *ctx));
            }
            return Ok(());
        }
        match self.calculate_dest(shorthand, is_broadcast, dest, is_logical, ctx) {
            Ok(dmask) => {
                self.dispatch_ipi(dmask, mode, vector, icr_low, ctx.vcpu_count, actions);
                Ok(())
            },
            Err(e) => {
                proof {
                    assert(actions@ =~= old(actions)@ + ipi_actions(old(self)@, *ctx));
                }
                Err(e)
            },
        }
    }

    /// A write of `data` to the Self IPI register (x2APIC mode): a fixed IPI
    /// with vector `data & 0xFF` to this vCPU alone.
    pub(super) fn handle_self_ipi(&mut self, data: u32, ctx: &HostContext, actions: &mut Vec<ApicAction>)
        requires
            old(self).wf(),
        ensures
            final(self).wf(),
            final(self)@ == self_ipi_model(old(self)@, data),
            final(actions)@ == old(actions)@ + self_ipi_actions(old(self)@, data, *ctx),
    {
        self.set_reg(REG_SELF_IPI, data);
        let vector = data & 0xFF;
        if vector < 16 {
            self.set_err(ESR_SEND_ILLEGAL_VECTOR);
            proof {
                assert(actions@ =~= old(actions)@ + self_ipi_actions(old(self)@, data, *ctx));
            }
            return ;
        }
        let dmask = vcpu_bit(self.vapic_id);
        self.dispatch_ipi(dmask, DELIVERY_FIXED, vector, data, ctx.vcpu_count, actions);
    }
}

/// Delivery-status bit of the ICR.
pub const ICR_DELIVERY_STATUS: u32 = 0x1000;

/// Destination-mode bit of the ICR: logical when set, physical when clear.
pub const ICR_DESTINATION_LOGICAL: u32 = 0x800;

/// ICR delivery mode (bits 8 to 10): fixed.
pub const DELIVERY_FIXED: u32 = 0b000;

/// ICR delivery mode: lowest priority (not delivered here).
pub const DELIVERY_LOWEST_PRIORITY: u32 = 0b001;

/// ICR delivery mode: SMI (not delivered here).
pub const DELIVERY_SMI: u32 = 0b010;

/// ICR delivery mode: reserved encoding 011.
pub const DELIVERY_RESERVED_3: u32 = 0b011;

/// ICR delivery mode: NMI.
pub const DELIVERY_NMI: u32 = 0b100;

/// ICR delivery mode: INIT.
pub const DELIVERY_INIT: u32 = 0b101;

/// ICR delivery mode: start-up.
pub const DELIVERY_STARTUP: u32 = 0b110;

/// ICR delivery mode: reserved encoding 111.
pub const DELIVERY_RESERVED_7: u32 = 0b111;

/// ICR destination shorthand (bits 18 and 19): none, the destination field
/// decides.
pub const SHORTHAND_NONE: u32 = 0b00;

/// ICR destination shorthand: self.
pub const SHORTHAND_SELF: u32 = 0b01;

/// ICR destination shorthand: all including self.
pub const SHORTHAND_ALL_INCLUDING_SELF: u32 = 0b10;

/// ICR destination shorthand: all excluding self.
pub const SHORTHAND_ALL_EXCLUDING_SELF: u32 = 0b11;

/// DFR model (bits 28 to 31): flat.
pub const DFR_MODEL_FLAT: u32 = 0b1111;

/// DFR model: cluster.
pub const DFR_MODEL_CLUSTER: u32 = 0b0000;

/// The bit of vCPU `id` in a vCPU mask; no bit for an ID of 64 or more.
pub open spec fn spec_vcpu_bit(id: u32) -> u64 {
    if id < 64 {
        (1u64 << id) as u64
    } else {
        0
    }
}

/// The bit of vCPU `id` in a vCPU mask; no bit for an ID of 64 or more.
pub fn vcpu_bit(id: u32) -> (r: u64)
    ensures
        r == spec_vcpu_bit(id),
{
    if id < 64 {
        1u64 << id as u64
    } else {
        0
    }
}

/// Whether logical destination `dest` names an APIC whose Logical
/// Destination Register is `ldr` and whose Destination Format Register is
/// `dfr`. A reserved DFR model is `InvalidData`.
pub open spec fn spec_ldr_match(ldr: u32, dfr: u32, dest: u32) -> Result<bool, ApicError> {
    let model = (dfr >> 28u32) & 0xFu32;
    if model == DFR_MODEL_FLAT {
        Ok((ldr >> 24u32) & (dest & 0xFFu32) != 0)
    } else if model == DFR_MODEL_CLUSTER {
        Ok(ldr >> 28u32 == (dest >> 4u32) & 0xFu32 && (ldr >> 24u32) & 0xFu32 & (dest & 0xFu32)
            != 0)
    } else {
        Err(ApicError::InvalidData)
    }
}

/// Whether logical destination `dest` names an APIC whose Logical
/// Destination Register is `ldr` and whose Destination Format Register is
/// `dfr`: in the flat model the 8-bit logical IDs share a bit; in the cluster
/// model the clusters agree and the 4-bit member IDs share a bit.
pub fn is_dest_field_matched(ldr: u32, dfr: u32, dest: u32) -> (r: Result<bool, ApicError>)
    ensures
        r == spec_ldr_match(ldr, dfr, dest),
{
    let model = (dfr >> 28) & 0xF;
    if model == DFR_MODEL_FLAT {
        Ok((ldr >> 24) & (dest & 0xFF) != 0)
    } else if model == DFR_MODEL_CLUSTER {
        Ok(ldr >> 28 == (dest >> 4) & 0xF && (ldr >> 24) & 0xF & (dest & 0xF) != 0)
    } else {
        Err(ApicError::InvalidData)
    }
}

/// vCPU `i` is active and the host gave its LDR and DFR.
pub open spec fn vcpu_known(ctx: HostContext, i: int) -> bool {
    &&& (ctx.active_vcpus >> (i as u64)) & 1u64 == 1u64
    &&& i < ctx.vcpu_ldr@.len()
    &&& i < ctx.vcpu_dfr@.len()
}

/// The vCPUs below ID `n` that logical destination `dest` selects in xAPIC
/// mode: each active vCPU whose own LDR matches under its own DFR. A reserved
/// DFR model of an active vCPU among them is `InvalidData`.
pub open spec fn logical_mask(ctx: HostContext, dest: u32, n: nat) -> Result<u64, ApicError>
    decreases n,
{
    if n == 0 {
        Ok(0u64)
    } else {
        let i = (n - 1) as int;
        match logical_mask(ctx, dest, (n - 1) as nat) {
            Err(e) => Err(e),
            Ok(mask) => if vcpu_known(ctx, i) {
                match spec_ldr_match(ctx.vcpu_ldr@[i], ctx.vcpu_dfr@[i], dest) {
                    Ok(true) => Ok(mask | ((1u64 << (i as u64)) as u64)),
                    Ok(false) => Ok(mask),
                    Err(e) => Err(e),
                }
            } else {
                Ok(mask)
            },
        }
    }
}

/// Once the logical mask fails, it fails the same way for every larger bound.
proof fn lemma_logical_mask_err(ctx: HostContext, dest: u32, k: nat, n: nat)
    requires
        k <= n,
        logical_mask(ctx, dest, k) is Err,
    ensures
        logical_mask(ctx, dest, n) == logical_mask(ctx, dest, k),
    decreases n - k,
{
    if k < n {
        lemma_logical_mask_err(ctx, dest, k, (n - 1) as nat);
    }
}

/// Setting bit `i` of a mask sets that bit and keeps every other.
proof fn lemma_set_bit(mask: u64, i: u64, j: u64)
    requires
        i < 64,
        j < 64,
    ensures
        ((mask | (1u64 << i)) >> j) & 1u64 == 1u64 <==> (j == i || (mask >> j) & 1u64 == 1u64),
{
    assert(i < 64 && j < 64 ==> (((mask | (1u64 << i)) >> j) & 1u64 == 1u64 <==> (j == i || (mask
        >> j) & 1u64 == 1u64))) by (bit_vector);
}

/// Logical delivery selects exactly the active vCPUs whose own LDR matches:
/// bit `j` of the mask is set if and only if vCPU `j` is below the bound,
/// known to the host, and matched by `dest` under its own DFR.
pub proof fn lemma_logical_mask_bits(ctx: HostContext, dest: u32, n: nat, j: u64)
    requires
        n <= 64,
        j < 64,
        logical_mask(ctx, dest, n) is Ok,
    ensures
        ((logical_mask(ctx, dest, n)->Ok_0 >> j) & 1u64 == 1u64) <==> (j < n && vcpu_known(
            ctx,
            j as int,
        ) && spec_ldr_match(ctx.vcpu_ldr@[j as int], ctx.vcpu_dfr@[j as int], dest) == Ok::<
            bool,
            ApicError,
        >(true)),
    decreases n,
{
    if n == 0 {
        assert((0u64 >> j) & 1u64 == 0u64) by (bit_vector);
    } else {
        let i = (n - 1) as nat;
        lemma_logical_mask_bits(ctx, dest, i, j);
        let prev = logical_mask(ctx, dest, i)->Ok_0;
        lemma_set_bit(prev, i as u64, j);
    }
}

/// The logical destination mask of `dest` over the vCPUs the host describes.
pub fn logical_dest_mask(ctx: &HostContext, dest: u32) -> (r: Result<u64, ApicError>)
    ensures
        r == logical_mask(*ctx, dest, vcpu_limit(ctx.vcpu_count)),
{
    let limit: usize = if ctx.vcpu_count < 64 {
        ctx.vcpu_count
    } else {
        64
    };
    let mut mask: u64 = 0;
    let mut i: usize = 0;
    while i < limit
        invariant
            i <= limit,
            limit == vcpu_limit(ctx.vcpu_count),
            limit <= 64,
            logical_mask(*ctx, dest, i as nat) == Ok::<u64, ApicError>(mask),
        decreases limit - i,
    {
        if (ctx.active_vcpus >> i as u64) & 1 == 1 && i < ctx.vcpu_ldr.len() && i
            < ctx.vcpu_dfr.len() {
            match is_dest_field_matched(ctx.vcpu_ldr[i], ctx.vcpu_dfr[i], dest) {
                Ok(true) => {
                    mask = mask | (1u64 << i as u64);
                },
                Ok(false) => {},
                Err(e) => {
                    proof {
                        lemma_logical_mask_err(*ctx, dest, (i + 1) as nat, limit as nat);
                    }
                    return Err(e);
                },
            }
        }
        i += 1;
    }
    Ok(mask)
}

/// The vCPU mask that an IPI reaches.
pub open spec fn spec_dest_mask(
    m: ApicModel,
    ctx: HostContext,
    shorthand: u32,
    is_broadcast: bool,
    dest: u32,
    is_logical: bool,
) -> Result<u64, ApicError> {
    if shorthand == SHORTHAND_NONE {
        if is_broadcast {
            Ok(ctx.active_vcpus)
        } else if !is_logical {
            Ok(spec_vcpu_bit(dest))
        } else if m.x2apic() {
            Ok(ctx.active_vcpus)
        } else {
            logical_mask(ctx, dest, vcpu_limit(ctx.vcpu_count))
        }
    } else if shorthand == SHORTHAND_SELF {
        Ok(spec_vcpu_bit(m.vapic_id))
    } else if shorthand == SHORTHAND_ALL_INCLUDING_SELF {
        Ok(ctx.active_vcpus)
    } else {
        Ok(ctx.active_vcpus & !spec_vcpu_bit(m.vapic_id))
    }
}

/// The number of vCPU IDs that delivery considers: the VM's vCPU count, at
/// most 64.
pub open spec fn vcpu_limit(vcpu_count: usize) -> nat {
    if vcpu_count < 64 {
        vcpu_count as nat
    } else {
        64
    }
}

/// What delivering an IPI to vCPU `i` asks of the host.
pub open spec fn delivery_step(dmask: u64, i: nat, mode: u32, vector: u32, icr_low: u32) -> Seq<
    ApicAction,
> {
    if (dmask >> (i as u64)) & 1u64 == 1u64 {
        if mode == DELIVERY_FIXED {
            seq![ApicAction::InjectInterrupt { vcpu_id: i as usize, vector: vector as u8 }]
        } else if mode == DELIVERY_NMI {
            seq![ApicAction::InjectNmi { vcpu_id: i as usize }]
        } else if mode == DELIVERY_INIT {
            seq![ApicAction::InitSipi { vcpu_id: i as usize, mode: InitSipiMode::Init, icr_low }]
        } else if mode == DELIVERY_STARTUP {
            seq![
                ApicAction::InitSipi { vcpu_id: i as usize, mode: InitSipiMode::StartUp, icr_low },
            ]
        } else {
            seq![]
        }
    } else {
        seq![]
    }
}

/// What delivering an IPI to the vCPUs of `dmask` below ID `n` asks of the
/// host, in vCPU order. SMI and lowest-priority IPIs deliver nothing.
pub open spec fn delivery_actions(dmask: u64, n: nat, mode: u32, vector: u32, icr_low: u32) -> Seq<
    ApicAction,
>
    decreases n,
{
    if n == 0 {
        seq![]
    } else {
        delivery_actions(dmask, (n - 1) as nat, mode, vector, icr_low) + delivery_step(
            dmask,
            (n - 1) as nat,
            mode,
            vector,
            icr_low,
        )
    }
}

/// The ICR low word with its delivery-status bit cleared.
pub open spec fn icr_low_of(m: ApicModel) -> u32 {
    m.reg(REG_ICR_LO as int) & !ICR_DELIVERY_STATUS
}

/// The destination field of the ICR: all of ICR_HI in x2APIC mode, its bits
/// 24 to 31 in xAPIC mode.
pub open spec fn icr_dest_of(m: ApicModel) -> u32 {
    if m.x2apic() {
        m.reg(REG_ICR_HI as int)
    } else {
        (m.reg(REG_ICR_HI as int) >> 24u32) & 0xFFu32
    }
}

/// The destination is the broadcast ID of the current mode.
pub open spec fn icr_broadcast_of(m: ApicModel) -> bool {
    if m.x2apic() {
        icr_dest_of(m) == 0xFFFF_FFFFu32
    } else {
        icr_dest_of(m) == 0xFFu32
    }
}

/// The ICR's delivery mode is a reserved encoding.
pub open spec fn icr_reserved_mode(icr: u32) -> bool {
    let mode = (icr >> 8u32) & 7u32;
    mode == DELIVERY_RESERVED_3 || mode == DELIVERY_RESERVED_7
}

/// The ICR asks for a fixed IPI with an illegal vector (below 16).
pub open spec fn icr_illegal_vector(icr: u32) -> bool {
    (icr >> 8u32) & 7u32 == DELIVERY_FIXED && icr & 0xFFu32 < 16
}

/// The ICR asks for an NMI, INIT or start-up IPI to a set including self.
pub open spec fn icr_invalid_self(icr: u32) -> bool {
    let mode = (icr >> 8u32) & 7u32;
    let shorthand = (icr >> 18u32) & 3u32;
    (shorthand == SHORTHAND_SELF || shorthand == SHORTHAND_ALL_INCLUDING_SELF) && (mode
        == DELIVERY_NMI || mode == DELIVERY_INIT || mode == DELIVERY_STARTUP)
}

/// The vCPU mask that the ICR of model `m` reaches.
pub open spec fn icr_dest_mask(m: ApicModel, ctx: HostContext) -> Result<u64, ApicError> {
    let icr = icr_low_of(m);
    spec_dest_mask(
        m,
        ctx,
        (icr >> 18u32) & 3u32,
        icr_broadcast_of(m),
        icr_dest_of(m),
        icr & ICR_DESTINATION_LOGICAL != 0,
    )
}

/// The result of sending the IPI in the ICR.
pub open spec fn ipi_result(m: ApicModel, ctx: HostContext) -> Result<(), ApicError> {
    let icr = icr_low_of(m);
    if icr_reserved_mode(icr) {
        Err(ApicError::InvalidData)
    } else if icr_illegal_vector(icr) || icr_invalid_self(icr) {
        Ok(())
    } else {
        match icr_dest_mask(m, ctx) {
            Ok(_) => Ok(()),
            Err(e) => Err(e),
        }
    }
}

/// The model after sending the IPI in the ICR: its delivery status is clear,
/// and an illegal vector is recorded among the pending errors.
pub open spec fn ipi_model(m: ApicModel) -> ApicModel {
    let icr = icr_low_of(m);
    let m1 = m.set_reg(REG_ICR_LO as int, icr);
    if !icr_reserved_mode(icr) && icr_illegal_vector(icr) {
        ApicModel { esr_pending: m.esr_pending | ESR_SEND_ILLEGAL_VECTOR, ..m1 }
    } else {
        m1
    }
}

/// What sending the IPI in the ICR asks of the host.
pub open spec fn ipi_actions(m: ApicModel, ctx: HostContext) -> Seq<ApicAction> {
    let icr = icr_low_of(m);
    if icr_reserved_mode(icr) || icr_illegal_vector(icr) || icr_invalid_self(icr) {
        seq![]
    } else {
        match icr_dest_mask(m, ctx) {
            Ok(dmask) => delivery_actions(
                dmask,
                vcpu_limit(ctx.vcpu_count),
                (icr >> 8u32) & 7u32,
                icr & 0xFFu32,
                icr,
            ),
            Err(_) => seq![],
        }
    }
}

/// The model after a Self IPI write of `data`.
pub open spec fn self_ipi_model(m: ApicModel, data: u32) -> ApicModel {
    let m1 = m.set_reg(REG_SELF_IPI as int, data);
    if data & 0xFFu32 < 16 {
        ApicModel { esr_pending: m.esr_pending | ESR_SEND_ILLEGAL_VECTOR, ..m1 }
    } else {
        m1
    }
}

/// What a Self IPI write of `data` asks of the host.
pub open spec fn self_ipi_actions(m: ApicModel, data: u32, ctx: HostContext) -> Seq<ApicAction> {
    if data & 0xFFu32 < 16 {
        seq![]
    } else {
        delivery_actions(
            spec_vcpu_bit(m.vapic_id),
            vcpu_limit(ctx.vcpu_count),
            DELIVERY_FIXED,
            data & 0xFFu32,
            data,
        )
    }
}

/// Every injection that IPI delivery asks for carries the IPI's vector and
/// comes from a fixed delivery.
pub proof fn lemma_delivery_injections(
    dmask: u64,
    n: nat,
    mode: u32,
    vector: u32,
    icr_low: u32,
)
    ensures
        forall|i: int|
            0 <= i < delivery_actions(dmask, n, mode, vector, icr_low).len() ==> match #[trigger] delivery_actions(
                dmask,
                n,
                mode,
                vector,
                icr_low,
            )[i] {
                ApicAction::InjectInterrupt { vector: v, .. } => mode == DELIVERY_FIXED && v
                    == vector as u8,
                _ => true,
            },
    decreases n,
{
    if n > 0 {
        lemma_delivery_injections(dmask, (n - 1) as nat, mode, vector, icr_low);
    }
}

} // verus!
