//! Per-hart set-up: the delegation, interrupt-enable and counter-enable
//! CSR values that make virtualization possible on a hart, and the
//! enable / disable protocol.
use vstd::prelude::*;

use crate::VCpuError;

verus! {

/// Exception bit: instruction address misaligned.
pub const INST_ADDR_MISALIGN: u64 = 1 << 0u64;
/// Exception bit: illegal instruction.
pub const ILLEGAL_INST: u64 = 1 << 2u64;
/// Exception bit: breakpoint.
pub const BREAKPOINT: u64 = 1 << 3u64;
/// Exception bit: environment call from U-mode or VU-mode.
pub const ENV_CALL_FROM_U_OR_VU: u64 = 1 << 8u64;
/// Exception bit: instruction page fault.
pub const INST_PAGE_FAULT: u64 = 1 << 12u64;
/// Exception bit: load page fault.
pub const LOAD_PAGE_FAULT: u64 = 1 << 13u64;
/// Exception bit: store page fault.
pub const STORE_PAGE_FAULT: u64 = 1 << 15u64;

/// Interrupt bit: supervisor software.
pub const SUPERVISOR_SOFT: u64 = 1 << 1u64;
/// Interrupt bit: virtual-supervisor software.
pub const VIRTUAL_SUPERVISOR_SOFT: u64 = 1 << 2u64;
/// Interrupt bit: supervisor timer.
pub const SUPERVISOR_TIMER: u64 = 1 << 5u64;
/// Interrupt bit: virtual-supervisor timer.
pub const VIRTUAL_SUPERVISOR_TIMER: u64 = 1 << 6u64;
/// Interrupt bit: supervisor external.
pub const SUPERVISOR_EXTERNAL: u64 = 1 << 9u64;
/// Interrupt bit: virtual-supervisor external.
pub const VIRTUAL_SUPERVISOR_EXTERNAL: u64 = 1 << 10u64;

/// `hstatus.SPV`, `hstatus.SPVP`: return to VS-mode, and hypervisor loads
/// and stores act as VS-mode.
pub const HSTATUS_SPV_SPVP: u64 = 0x180;

/// The CSR values that prepare a hart for guests.
#[derive(Clone, Copy, Debug, PartialEq, Eq, Structural)]
pub struct HartSetup {
    /// Synchronous exceptions delegated to VS-mode.
    pub hedeleg: u64,
    /// Interrupts delegated to VS-mode.
    pub hideleg: u64,
    /// Bits to clear in `hvip`.
    pub hvip_clear: u64,
    /// Counter-enable CSR (number 0x606): VS-mode may read every counter.
    pub hcounteren: u64,
    /// Interrupts the hypervisor takes.
    pub sie: u64,
}

/// The CSR values of a hart that a disable restores.
#[derive(Clone, Copy, Debug, PartialEq, Eq, Structural)]
pub struct HartTeardown {
    /// The trap vector saved when the hart was enabled.
    pub stvec: u64,
    /// No exception delegated any more.
    pub hedeleg: u64,
    /// No interrupt delegated any more.
    pub hideleg: u64,
}

/// The exceptions that guests handle themselves: misaligned fetch,
/// breakpoint, `ecall` from U or VU, the three page faults and illegal
/// instruction. `ecall` from VS and guest page faults stay with the
/// hypervisor.
pub open spec fn delegated_exceptions() -> u64 {
    (INST_ADDR_MISALIGN | BREAKPOINT | ENV_CALL_FROM_U_OR_VU | INST_PAGE_FAULT | LOAD_PAGE_FAULT
        | STORE_PAGE_FAULT | ILLEGAL_INST) as u64
}

/// The three virtual-supervisor interrupts.
pub open spec fn vs_interrupts() -> u64 {
    (VIRTUAL_SUPERVISOR_TIMER | VIRTUAL_SUPERVISOR_EXTERNAL | VIRTUAL_SUPERVISOR_SOFT) as u64
}

/// The interrupts the hypervisor itself enables: external and software.
/// Guests program their own timer (`vstimecmp`, Sstc), so the host timer
/// interrupt stays off here; it is enabled only while a guest runs.
pub open spec fn host_interrupts() -> u64 {
    (SUPERVISOR_EXTERNAL | SUPERVISOR_SOFT) as u64
}

/// The CSR values that initialise (H)S-level CSRs of a hart.
pub fn setup_csrs() -> (r: HartSetup)
    ensures
        r == (HartSetup {
            hedeleg: delegated_exceptions(),
            hideleg: vs_interrupts(),
            hvip_clear: vs_interrupts(),
            hcounteren: 0xffff_ffff,
            sie: host_interrupts(),
        }),
{
    let vs = VIRTUAL_SUPERVISOR_TIMER | VIRTUAL_SUPERVISOR_EXTERNAL | VIRTUAL_SUPERVISOR_SOFT;
    HartSetup {
        hedeleg: INST_ADDR_MISALIGN | BREAKPOINT | ENV_CALL_FROM_U_OR_VU | INST_PAGE_FAULT
            | LOAD_PAGE_FAULT | STORE_PAGE_FAULT | ILLEGAL_INST,
        hideleg: vs,
        hvip_clear: vs,
        hcounteren: 0xffff_ffff,
        sie: SUPERVISOR_EXTERNAL | SUPERVISOR_SOFT,
    }
}

/// RISC-V per-CPU state: the hart it stands for and, while it is enabled,
/// the trap vector that was in place before.
#[derive(Clone, Copy, Debug)]
pub struct RISCVPerCpu {
    /// The hart.
    pub cpu_id: usize,
    /// The trap vector saved by `hardware_enable`, until `hardware_disable`.
    pub saved_stvec: Option<u64>,
}

impl RISCVPerCpu {
    /// Per-CPU state for hart `cpu_id`, not enabled yet, on a hart that has
    /// the H extension (`has_h`); without it there is nothing to set up and
    /// the result is unsupported. On success the caller programs the hart
    /// with [`setup_csrs`].
    pub fn new(cpu_id: usize, has_h: bool) -> (r: Result<Self, VCpuError>)
        ensures
            r is Ok <==> has_h,
            !has_h ==> r == Err::<Self, VCpuError>(VCpuError::Unsupported),
            r matches Ok(p) ==> p.cpu_id == cpu_id && p.saved_stvec is None,
    {
        if has_h {
            Ok(RISCVPerCpu { cpu_id, saved_stvec: None })
        } else {
            Err(VCpuError::Unsupported)
        }
    }

    /// Whether virtualization is enabled on this hart.
    pub fn is_enabled(&self) -> (r: bool)
        ensures
            r <==> self.saved_stvec is Some,
    {
        self.saved_stvec.is_some()
    }

    /// Enables virtualization on a hart that has the H extension
    /// (`has_h`), whose `hstatus` and `stvec` are given: returns the
    /// `hstatus` to write, with SPV and SPVP set, and keeps `stvec` for
    /// `hardware_disable`. Without the H extension it is unsupported.
    pub fn hardware_enable(&mut self, has_h: bool, hstatus: u64, stvec: u64) -> (r: Result<u64, VCpuError>)
        ensures
            has_h ==> r == Ok::<u64, VCpuError>(hstatus | HSTATUS_SPV_SPVP),
            has_h ==> final(self).saved_stvec == Some(stvec),
            !has_h ==> r == Err::<u64, VCpuError>(VCpuError::Unsupported) && *final(self) == *old(self),
            final(self).cpu_id == old(self).cpu_id,
    {
        if has_h {
            self.saved_stvec = Some(stvec);
            Ok(hstatus | HSTATUS_SPV_SPVP)
        } else {
            Err(VCpuError::Unsupported)
        }
    }

    /// Disables virtualization: returns the CSR values to restore (the saved
    /// trap vector, no delegation). A hart that is not enabled is
    /// unsupported.
    pub fn hardware_disable(&mut self) -> (r: Result<HartTeardown, VCpuError>)
        ensures
            old(self).saved_stvec matches Some(v) ==> r == Ok::<HartTeardown, VCpuError>(
                HartTeardown { stvec: v, hedeleg: 0, hideleg: 0 },
            ) && final(self).saved_stvec is None,
            old(self).saved_stvec is None ==> r == Err::<HartTeardown, VCpuError>(VCpuError::Unsupported)
                && *final(self) == *old(self),
            final(self).cpu_id == old(self).cpu_id,
    {
        match self.saved_stvec {
            Some(v) => {
                self.saved_stvec = None;
                Ok(HartTeardown { stvec: v, hedeleg: 0, hideleg: 0 })
            },
            None => Err(VCpuError::Unsupported),
        }
    }
}

} // verus!
