//! An emulated x86 local APIC for a hypervisor: the virtual-APIC register
//! file, the register decoder, the interrupt-servicing engine and the APIC
//! timer, each with a machine-checked contract.
//!
//! The engine does not call into the hypervisor. It takes what it needs from
//! its host as plain values (the current tick count, the set of active vCPUs)
//! and hands back the actions that the host carries out (injections, timer
//! arming and cancelling, EOI broadcasts).

use vstd::prelude::*;

pub mod consts;
pub mod host;
pub mod lvt;
pub mod timer;
pub mod utils;
pub mod vlapic;

pub use consts::{
    ApicRegOffset, IRRIndex, ISRIndex, TMRIndex, x2apic_msr_access_reg,
    xapic_mmio_access_reg_offset,
};
pub use host::{AccessWidth, ApicAction, ApicError, HostContext, InitSipiMode};
pub use lvt::LocalVectorTable;
pub use timer::{ApicTimer, TimerMode};
pub use utils::fls32;
pub use vlapic::VirtualApicRegs;

verus! {

} // verus!
