//! What the engine exchanges with its host: the width of a guest access, the
//! errors it reports, and the actions it asks the host to carry out.

use vstd::prelude::*;

verus! {

/// Width of a guest register access.
#[derive(Clone, Copy, Debug, PartialEq, Eq, Structural)]
pub enum AccessWidth {
    /// 1 byte.
    Byte,
    /// 2 bytes.
    Word,
    /// 4 bytes.
    Dword,
    /// 8 bytes.
    Qword,
}

/// Errors reported to the caller of the read and write handlers.
#[derive(Clone, Copy, Debug, PartialEq, Eq, Structural)]
pub enum ApicError {
    /// A width or mode mismatch, or a write to a register that takes none.
    InvalidInput,
    /// A register field that should hold an enumerated value holds a reserved
    /// encoding.
    InvalidData,
    /// Starting a timer that is already started.
    BadState,
}

/// An IPI delivery mode that reaches the INIT / start-up path of a vCPU.
#[derive(Clone, Copy, Debug, PartialEq, Eq, Structural)]
pub enum InitSipiMode {
    /// INIT.
    Init,
    /// Start-up (SIPI).
    StartUp,
}

/// An action that the engine asks its host to carry out, in order.
#[derive(Clone, Copy, Debug, PartialEq, Eq, Structural)]
pub enum ApicAction {
    /// Register a one-shot host timer at `deadline_ticks` whose callback
    /// injects `vector` into vCPU `vcpu_id` of VM `vm_id` and then reports the
    /// expiry to the engine. The host keeps the cancellation handle.
    ArmTimer { vm_id: usize, vcpu_id: usize, deadline_ticks: u64, vector: u8 },
    /// Cancel the host timer registered by the last `ArmTimer`.
    CancelTimer,
    /// Inject an edge-triggered fixed interrupt into a vCPU of the current VM.
    InjectInterrupt { vcpu_id: usize, vector: u8 },
    /// Inject an NMI into a vCPU of the current VM.
    InjectNmi { vcpu_id: usize },
    /// Deliver an INIT or start-up IPI to a vCPU of the current VM.
    InitSipi { vcpu_id: usize, mode: InitSipiMode, icr_low: u32 },
    /// Broadcast an EOI for a level-triggered vector to the I/O APICs.
    BroadcastEoi { vector: u8 },
}

} // verus!

verus! {

/// What the host tells the engine about the moment of a guest write.
#[derive(Clone, Debug)]
pub struct HostContext {
    /// The host's tick count now.
    pub now_ticks: u64,
    /// The active vCPUs of the current VM, one bit per vCPU ID.
    pub active_vcpus: u64,
    /// The number of vCPUs of the current VM.
    pub vcpu_count: usize,
    /// The Logical Destination Register of each vCPU of the current VM, by
    /// vCPU ID.
    pub vcpu_ldr: Vec<u32>,
    /// The Destination Format Register of each vCPU of the current VM, by
    /// vCPU ID.
    pub vcpu_dfr: Vec<u32>,
}

} // verus!
