//! Architecture core of a RISC-V (H extension) hypervisor: the guest register
//! file, the per-hart CSR set-up, and a virtual CPU whose VM-exit dispatcher
//! turns every guest trap into an exit reason for the VM manager.
//!
//! Hardware access (CSR reads and writes, the world switch, guest-memory
//! copies and firmware calls) is done by the embedding code; the library
//! decides what to do with the values it is handed and says so in its
//! contracts.
use vstd::prelude::*;

pub mod decode;
pub mod exit;
pub mod percpu;
pub mod regs;
pub mod sbi_console;
pub mod trap;
pub mod vcpu;
pub mod watchdog;

pub use percpu::RISCVPerCpu;
pub use sbi_console::join_u64;
pub use vcpu::{RISCVVCpu, RISCVVCpuCreateConfig};

verus! {

/// Extension ID for hypercalls, defined by this hypervisor:
/// `0x48`, `0x56`, `0x43` is "HVC" in ASCII.
pub const EID_HVC: u64 = 0x485643;

/// Recoverable errors of the vCPU and of the per-hart set-up.
#[derive(Clone, Copy, Debug, PartialEq, Eq, Structural)]
pub enum VCpuError {
    /// The hardware or the guest asked for something this core does not do:
    /// no H extension, an unsupported reset type, an instruction that could
    /// not be decoded.
    Unsupported,
    /// `scause` encodes no known trap.
    InvalidData,
}

} // verus!
