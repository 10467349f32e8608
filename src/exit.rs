//! The VM-exit dispatcher of the vCPU: SBI calls, guest page faults and
//! interrupts become exit reasons. Work that only the hart can do (a
//! firmware call, a guest-memory copy, an instruction fetch, a CSR write) is
//! handed to the caller as a step, and its outcome handed back to one of the
//! completion methods here.
use vstd::prelude::*;

use crate::decode::{
    access_of, decode_instr_at, decoded, decoder_allows, instr_source, AccessWidth, GuestAccess,
};
use crate::regs::{fault_addr_of, GprIndex, TrapCsrs};
use crate::sbi_console::{
    join_halves, joined, EID_DBCN, EID_HSM, EID_SRST, FID_CONSOLE_READ, FID_CONSOLE_WRITE,
    FID_CONSOLE_WRITE_BYTE, HART_START, HART_STOP, HART_SUSPEND, LEGACY_CONSOLE_GETCHAR,
    LEGACY_CONSOLE_PUTCHAR, LEGACY_SET_TIMER, LEGACY_SHUTDOWN, RESET_TYPE_SHUTDOWN,
    RET_ERR_FAILED, RET_ERR_NOT_SUPPORTED, RET_SUCCESS, SYSTEM_RESET,
};
use crate::trap::{decode_scause, trap_of, Exception, Interrupt, Trap, S_EXT};
use crate::vcpu::{next_pc, RISCVVCpu};
use crate::{VCpuError, EID_HVC};

verus! {

broadcast use crate::regs::GeneralPurposeRegisters::lemma_len;

/// Why the vCPU left the guest, for the VM manager.
#[derive(Clone, Copy, Debug, PartialEq, Eq)]
pub enum ExitReason {
    /// Handled here; resume the guest.
    Nothing,
    /// A hypercall with number `nr` and arguments `a0` to `a5`.
    Hypercall { nr: u64, args: [u64; 6] },
    /// The guest asks to start hart `target_cpu` at `entry_point` with `arg`
    /// in `a1`.
    CpuUp { target_cpu: u64, entry_point: u64, arg: u64 },
    /// The guest stopped this hart.
    CpuDown { state: u64 },
    /// The guest suspended this hart.
    Halt,
    /// The guest asked to shut the system down.
    SystemDown,
    /// A load from an unmapped guest physical address, to be emulated.
    MmioRead { addr: u64, width: AccessWidth, reg: u32, reg_width: AccessWidth, signed_ext: bool },
    /// A store of `data` to an unmapped guest physical address.
    MmioWrite { addr: u64, width: AccessWidth, data: u64 },
    /// A stage-2 fault that is not an emulated load or store.
    NestedPageFault { addr: u64, access_flags: u64 },
    /// A host external interrupt arrived while the guest ran.
    ExternalInterrupt { vector: u64 },
    /// A timer tick.
    TimerTick,
}

/// What the dispatcher asks of its caller after a VM-exit.
#[derive(Clone, Copy, Debug, PartialEq, Eq)]
pub enum ExitStep {
    /// The exit is handled.
    Exit(ExitReason),
    /// Legacy SET_TIMER: write `value` to `vstimecmp`. The guest's `a0` and
    /// pc are done; the exit is `Nothing`.
    SetTimer { value: u64 },
    /// Legacy CONSOLE_PUTCHAR: forward `ch` to firmware. The pc is done; the
    /// exit is `Nothing`.
    LegacyPutchar { ch: u64 },
    /// Legacy CONSOLE_GETCHAR: call firmware and hand the result to
    /// `finish_legacy_getchar`.
    LegacyGetchar,
    /// DBCN write: copy `num_bytes` bytes from guest physical address `gpa`,
    /// hand the count copied to `console_write_copied`.
    ConsoleWrite { num_bytes: u64, gpa: u64 },
    /// DBCN read: read up to `num_bytes` bytes from the firmware console and
    /// hand its `(error, value)` to `console_read_received`.
    ConsoleRead { num_bytes: u64, gpa: u64 },
    /// DBCN write-byte: write `byte` to the firmware console. The guest's
    /// `a0`, `a1` and pc are done; the exit is `Nothing`.
    ConsoleWriteByte { byte: u8 },
    /// Any other SBI call: forward it to firmware and hand its
    /// `(error, value)` to `finish_sbi_call`.
    Forward { eid: u64, fid: u64, args: [u64; 6] },
    /// A guest page fault without a transformed instruction: fetch the
    /// instruction at guest virtual address `vaddr` and hand it to
    /// `handle_guest_page_fault`.
    FetchInstruction { vaddr: u64 },
    /// The host timer fired: re-arm it, run the watchdog; the exit is
    /// `Nothing`.
    TimerInterrupt,
    /// A trap that must not reach the hypervisor: abort.
    Fatal { scause: u64, sepc: u64, stval: u64 },
}

/// Argument register `a<k>` of `v`.
pub open spec fn arg(v: RISCVVCpu, k: int) -> u64 {
    v.gprs()[10 + k]
}

/// `n` is `o` after an SBI call returned `(error, value)` in `a0` and `a1`
/// and the pc moved past the `ecall`.
pub open spec fn sbi_returned(o: RISCVVCpu, n: RISCVVCpu, error: u64, value: u64) -> bool {
    o.guest_moved(n, o.gprs().update(10, error).update(11, value), next_pc(o.sepc(), 4))
}

/// `n` is `o` with the pc moved past the `ecall`.
pub open spec fn pc_stepped(o: RISCVVCpu, n: RISCVVCpu) -> bool {
    o.guest_moved(n, o.gprs(), next_pc(o.sepc(), 4))
}

/// An exit step that is the exit `e`.
pub open spec fn exits(r: Result<ExitStep, VCpuError>, e: ExitReason) -> bool {
    r == Ok::<ExitStep, VCpuError>(ExitStep::Exit(e))
}

/// What an SBI call from the guest (`ecall` from VS-mode) does: `o` before,
/// `n` after, `r` the result. Extension ID in `a7`, function ID in `a6`,
/// arguments in `a0` to `a5`.
pub open spec fn sbi_handled(o: RISCVVCpu, n: RISCVVCpu, r: Result<ExitStep, VCpuError>) -> bool {
    let eid = arg(o, 7);
    let fid = arg(o, 6);
    if eid == LEGACY_SET_TIMER {
        r == Ok::<ExitStep, VCpuError>(ExitStep::SetTimer { value: arg(o, 0) })
            && o.guest_moved(n, o.gprs().update(10, 0), next_pc(o.sepc(), 4))
    } else if eid == LEGACY_CONSOLE_PUTCHAR {
        r == Ok::<ExitStep, VCpuError>(ExitStep::LegacyPutchar { ch: arg(o, 0) }) && pc_stepped(o, n)
    } else if eid == LEGACY_CONSOLE_GETCHAR {
        r == Ok::<ExitStep, VCpuError>(ExitStep::LegacyGetchar) && n == o
    } else if eid < LEGACY_SHUTDOWN {
        exits(r, ExitReason::Nothing) && pc_stepped(o, n)
    } else if eid == LEGACY_SHUTDOWN {
        exits(r, ExitReason::SystemDown) && n == o
    } else if eid == EID_HSM {
        if fid == HART_START {
            exits(r, ExitReason::CpuUp { target_cpu: arg(o, 0), entry_point: arg(o, 1), arg: arg(o, 2) })
                && pc_stepped(o, n)
        } else if fid == HART_STOP {
            exits(r, ExitReason::CpuDown { state: 0 }) && n == o
        } else if fid == HART_SUSPEND {
            exits(r, ExitReason::Halt) && n == o
        } else {
            r == Err::<ExitStep, VCpuError>(VCpuError::Unsupported) && n == o
        }
    } else if eid == EID_HVC {
        &&& r matches Ok(ExitStep::Exit(ExitReason::Hypercall { nr, args })) && nr == fid && args@
            == o.gprs().subrange(10, 16)
        &&& pc_stepped(o, n)
    } else if eid == EID_DBCN {
        if fid == FID_CONSOLE_WRITE || fid == FID_CONSOLE_READ {
            if arg(o, 0) == 0 {
                exits(r, ExitReason::Nothing) && sbi_returned(o, n, RET_SUCCESS, 0)
            } else if fid == FID_CONSOLE_WRITE {
                r == Ok::<ExitStep, VCpuError>(
                    ExitStep::ConsoleWrite { num_bytes: arg(o, 0), gpa: joined(arg(o, 1), arg(o, 2)) },
                ) && n == o
            } else {
                r == Ok::<ExitStep, VCpuError>(
                    ExitStep::ConsoleRead { num_bytes: arg(o, 0), gpa: joined(arg(o, 1), arg(o, 2)) },
                ) && n == o
            }
        } else if fid == FID_CONSOLE_WRITE_BYTE {
            r == Ok::<ExitStep, VCpuError>(ExitStep::ConsoleWriteByte { byte: (arg(o, 0) & 0xff) as u8 })
                && sbi_returned(o, n, RET_SUCCESS, 0)
        } else {
            exits(r, ExitReason::Nothing) && sbi_returned(o, n, RET_ERR_NOT_SUPPORTED, 0)
        }
    } else if eid == EID_SRST {
        if fid == SYSTEM_RESET {
            if arg(o, 0) == RESET_TYPE_SHUTDOWN {
                exits(r, ExitReason::SystemDown) && n == o
            } else {
                r == Err::<ExitStep, VCpuError>(VCpuError::Unsupported) && n == o
            }
        } else {
            exits(r, ExitReason::Nothing) && sbi_returned(o, n, RET_ERR_NOT_SUPPORTED, 0)
        }
    } else {
        &&& r matches Ok(ExitStep::Forward { eid: e, fid: f, args }) && e == eid && f == fid && args@
            == o.gprs().subrange(10, 16)
        &&& n == o
    }
}

/// The exit for an access `a` that faulted at `addr`, with the guest's
/// registers `gprs` (a store's data comes from its source register).
pub open spec fn exit_of_access(a: Result<GuestAccess, VCpuError>, addr: u64, gprs: Seq<u64>) -> Result<
    ExitReason,
    VCpuError,
> {
    match a {
        Ok(GuestAccess::Read { width, reg, signed_ext, .. }) => Ok(
            ExitReason::MmioRead { addr, width, reg, reg_width: AccessWidth::Qword, signed_ext },
        ),
        Ok(GuestAccess::Write { width, reg, .. }) => Ok(ExitReason::MmioWrite { addr, width, data: gprs[reg as int] }),
        Ok(GuestAccess::Other) => Ok(ExitReason::NestedPageFault { addr, access_flags: 0 }),
        Err(e) => Err(e),
    }
}

/// What a guest page fault does, with `fetched` the instruction word read at
/// the guest pc (used only when `htinst` is zero): the exit is the one for
/// the access that the decoder makes of the selected word. A load or a
/// store becomes an MMIO exit and moves the pc past the instruction; any
/// other instruction is a nested page fault; a word that cannot be decoded
/// is unsupported. Only an MMIO exit changes the vCPU.
pub open spec fn page_fault_handled(
    o: RISCVVCpu,
    n: RISCVVCpu,
    fetched: u32,
    r: Result<ExitReason, VCpuError>,
) -> bool {
    let addr = fault_addr_of(o.regs.trap_csrs);
    match instr_source(o.regs.trap_csrs.htinst, fetched) {
        Err(_) => r == Err::<ExitReason, VCpuError>(VCpuError::Unsupported) && n == o,
        Ok((w, len)) => {
            &&& r == exit_of_access(access_of(decoded(w)), addr, o.gprs())
            &&& decoder_allows(w, decoded(w))
            &&& if r matches Ok(e) && (e is MmioRead || e is MmioWrite) {
                o.guest_moved(n, o.gprs(), next_pc(o.sepc(), len as u64))
            } else {
                n == o
            }
        },
    }
}

/// The exit reason inside a step that is an exit.
pub open spec fn exit_of_step(r: Result<ExitStep, VCpuError>) -> Result<ExitReason, VCpuError> {
    match r {
        Ok(ExitStep::Exit(e)) => Ok(e),
        Ok(_) => Err(VCpuError::InvalidData),
        Err(e) => Err(e),
    }
}

/// What a VM-exit with trap CSRs `t` does to the vCPU `o` (giving `n`) and
/// what it returns: the trap CSRs are recorded, then `scause` decides.
pub open spec fn exit_handled(o: RISCVVCpu, t: TrapCsrs, n: RISCVVCpu, r: Result<ExitStep, VCpuError>) -> bool {
    let m = o.with_trap(t);
    let tr = trap_of(t.scause);
    if tr is None {
        r == Err::<ExitStep, VCpuError>(VCpuError::InvalidData) && n == m
    } else if tr == Some(Trap::Exception(Exception::VirtualSupervisorEnvCall)) {
        sbi_handled(m, n, r)
    } else if tr == Some(Trap::Interrupt(Interrupt::SupervisorTimer)) {
        r == Ok::<ExitStep, VCpuError>(ExitStep::TimerInterrupt) && n == m
    } else if tr == Some(Trap::Interrupt(Interrupt::SupervisorExternal)) {
        exits(r, ExitReason::ExternalInterrupt { vector: S_EXT }) && n == m
    } else if tr == Some(Trap::Exception(Exception::LoadGuestPageFault)) || tr == Some(
        Trap::Exception(Exception::StoreGuestPageFault),
    ) {
        if t.htinst == 0 {
            r == Ok::<ExitStep, VCpuError>(ExitStep::FetchInstruction { vaddr: m.sepc() }) && n == m
        } else {
            &&& r matches Ok(s) ==> s is Exit
            &&& page_fault_handled(m, n, 0, exit_of_step(r))
        }
    } else {
        r == Ok::<ExitStep, VCpuError>(ExitStep::Fatal { scause: t.scause, sepc: m.sepc(), stval: t.stval })
            && n == m
    }
}

impl RISCVVCpu {
    /// Handles a VM-exit whose trap CSRs (read right after the exit, `htinst`
    /// included) are `trap`.
    pub fn vmexit_handler(&mut self, trap: TrapCsrs) -> (r: Result<ExitStep, VCpuError>)
        ensures
            exit_handled(*old(self), trap, *final(self), r),
    {
        self.regs.trap_csrs = trap;
        match decode_scause(trap.scause) {
            None => Err(VCpuError::InvalidData),
            Some(Trap::Exception(Exception::VirtualSupervisorEnvCall)) => self.handle_sbi_call(),
            Some(Trap::Interrupt(Interrupt::SupervisorTimer)) => Ok(ExitStep::TimerInterrupt),
            Some(Trap::Interrupt(Interrupt::SupervisorExternal)) => Ok(
                ExitStep::Exit(ExitReason::ExternalInterrupt { vector: S_EXT }),
            ),
            Some(Trap::Exception(Exception::LoadGuestPageFault))
            | Some(Trap::Exception(Exception::StoreGuestPageFault)) => {
                if trap.htinst == 0 {
                    Ok(ExitStep::FetchInstruction { vaddr: self.regs.guest_regs.sepc })
                } else {
                    match self.handle_guest_page_fault(0) {
                        Ok(e) => Ok(ExitStep::Exit(e)),
                        Err(e) => Err(e),
                    }
                }
            },
            Some(_) => Ok(
                ExitStep::Fatal { scause: trap.scause, sepc: self.regs.guest_regs.sepc, stval: trap.stval },
            ),
        }
    }

    /// Handles the guest page fault recorded in the trap CSRs. `fetched` is
    /// the instruction word at the guest pc, asked for by a
    /// `FetchInstruction` step; when `htinst` holds the instruction it is not
    /// read.
    pub fn handle_guest_page_fault(&mut self, fetched: u32) -> (r: Result<ExitReason, VCpuError>)
        ensures
            page_fault_handled(*old(self), *final(self), fetched, r),
    {
        let fault_addr = self.regs.trap_csrs.gpt_page_fault_addr();
        let (access, len) = match decode_instr_at(self.regs.trap_csrs.htinst, fetched) {
            Ok(p) => p,
            Err(e) => {
                return Err(e);
            },
        };
        match access {
            GuestAccess::Other => Ok(ExitReason::NestedPageFault { addr: fault_addr, access_flags: 0 }),
            GuestAccess::Read { width, reg, signed_ext, .. } => {
                self.advance_pc(len as u64);
                Ok(ExitReason::MmioRead { addr: fault_addr, width, reg, reg_width: AccessWidth::Qword, signed_ext })
            },
            GuestAccess::Write { width, reg, .. } => {
                let data = match GprIndex::from_raw(reg) {
                    Some(g) => self.get_gpr(g),
                    None => 0,
                };
                self.advance_pc(len as u64);
                Ok(ExitReason::MmioWrite { addr: fault_addr, width, data })
            },
        }
    }

    /// Ends a legacy CONSOLE_GETCHAR: the firmware's answer `c` goes to `a0`
    /// and the pc moves past the `ecall`.
    pub fn finish_legacy_getchar(&mut self, c: u64) -> (r: ExitReason)
        ensures
            r == ExitReason::Nothing,
            old(self).guest_moved(*final(self), old(self).gprs().update(10, c), next_pc(old(self).sepc(), 4)),
    {
        self.set_gpr_from_gpr_index(GprIndex::A0, c);
        self.advance_pc(4);
        ExitReason::Nothing
    }

    /// Ends an SBI call that the caller carried out: `(error, value)` goes
    /// to `a0` and `a1` and the pc moves past the `ecall`.
    pub fn finish_sbi_call(&mut self, error: u64, value: u64) -> (r: ExitReason)
        ensures
            r == ExitReason::Nothing,
            sbi_returned(*old(self), *final(self), error, value),
    {
        self.sbi_return(error, value);
        ExitReason::Nothing
    }

    /// A DBCN write copied `copied` of its `num_bytes` bytes out of the
    /// guest. Only a full copy may go to the console (returns `true`: write
    /// those bytes and hand the firmware's answer to `finish_sbi_call`); a
    /// short one fails the call and ends it.
    pub fn console_write_copied(&mut self, num_bytes: u64, copied: u64) -> (r: bool)
        ensures
            r <==> copied == num_bytes,
            r ==> *final(self) == *old(self),
            !r ==> sbi_returned(*old(self), *final(self), RET_ERR_FAILED, 0),
    {
        if copied == num_bytes {
            true
        } else {
            self.sbi_return(RET_ERR_FAILED, 0);
            false
        }
    }

    /// A DBCN read of up to `num_bytes` bytes got `(error, value)` from the
    /// firmware console. When it succeeded with at most `num_bytes` bytes,
    /// returns how many to copy into the guest (hand the count copied to
    /// `console_read_copied`). A success with more bytes than asked for
    /// fails the call; any other answer of the firmware ends it as it is.
    pub fn console_read_received(&mut self, num_bytes: u64, error: u64, value: u64) -> (r: Option<u64>)
        ensures
            error == RET_SUCCESS && value <= num_bytes ==> r == Some(value) && *final(self) == *old(self),
            error == RET_SUCCESS && value > num_bytes ==> r is None && sbi_returned(
                *old(self),
                *final(self),
                RET_ERR_FAILED,
                0,
            ),
            error != RET_SUCCESS ==> r is None && sbi_returned(*old(self), *final(self), error, value),
    {
        if error == RET_SUCCESS {
            if value <= num_bytes {
                Some(value)
            } else {
                self.sbi_return(RET_ERR_FAILED, 0);
                None
            }
        } else {
            self.sbi_return(error, value);
            None
        }
    }

    /// A DBCN read copied `copied` of the `value` bytes received into the
    /// guest: a full copy returns `value` to the guest, a short one fails.
    pub fn console_read_copied(&mut self, value: u64, copied: u64) -> (r: ExitReason)
        ensures
            r == ExitReason::Nothing,
            copied == value ==> sbi_returned(*old(self), *final(self), RET_SUCCESS, value),
            copied != value ==> sbi_returned(*old(self), *final(self), RET_ERR_FAILED, 0),
    {
        if copied == value {
            self.sbi_return(RET_SUCCESS, value);
        } else {
            self.sbi_return(RET_ERR_FAILED, 0);
        }
        ExitReason::Nothing
    }

    /// Dispatches an SBI call that the guest made with `ecall`.
    pub fn handle_sbi_call(&mut self) -> (r: Result<ExitStep, VCpuError>)
        ensures
            sbi_handled(*old(self), *final(self), r),
    {
        let a = self.regs.guest_regs.gprs.a_regs();
        let eid = a[7];
        let fid = a[6];
        if eid == LEGACY_SET_TIMER {
            self.set_gpr_from_gpr_index(GprIndex::A0, 0);
            self.advance_pc(4);
            Ok(ExitStep::SetTimer { value: a[0] })
        } else if eid == LEGACY_CONSOLE_PUTCHAR {
            self.advance_pc(4);
            Ok(ExitStep::LegacyPutchar { ch: a[0] })
        } else if eid == LEGACY_CONSOLE_GETCHAR {
            Ok(ExitStep::LegacyGetchar)
        } else if eid < LEGACY_SHUTDOWN {
            self.advance_pc(4);
            Ok(ExitStep::Exit(ExitReason::Nothing))
        } else if eid == LEGACY_SHUTDOWN {
            Ok(ExitStep::Exit(ExitReason::SystemDown))
        } else if eid == EID_HSM {
            if fid == HART_START {
                self.advance_pc(4);
                Ok(ExitStep::Exit(ExitReason::CpuUp { target_cpu: a[0], entry_point: a[1], arg: a[2] }))
            } else if fid == HART_STOP {
                Ok(ExitStep::Exit(ExitReason::CpuDown { state: 0 }))
            } else if fid == HART_SUSPEND {
                Ok(ExitStep::Exit(ExitReason::Halt))
            } else {
                Err(VCpuError::Unsupported)
            }
        } else if eid == EID_HVC {
            let args = [a[0], a[1], a[2], a[3], a[4], a[5]];
            assert(args@ =~= self.gprs().subrange(10, 16));
            self.advance_pc(4);
            Ok(ExitStep::Exit(ExitReason::Hypercall { nr: fid, args }))
        } else if eid == EID_DBCN {
            if fid == FID_CONSOLE_WRITE || fid == FID_CONSOLE_READ {
                if a[0] == 0 {
                    self.sbi_return(RET_SUCCESS, 0);
                    Ok(ExitStep::Exit(ExitReason::Nothing))
                } else if fid == FID_CONSOLE_WRITE {
                    Ok(ExitStep::ConsoleWrite { num_bytes: a[0], gpa: join_halves(a[1], a[2]) })
                } else {
                    Ok(ExitStep::ConsoleRead { num_bytes: a[0], gpa: join_halves(a[1], a[2]) })
                }
            } else if fid == FID_CONSOLE_WRITE_BYTE {
                let x = a[0];
                let low = x & 0xff;
                assert(low < 256) by (bit_vector)
                    requires
                        low == x & 0xff,
                ;
                let byte = low as u8;
                self.sbi_return(RET_SUCCESS, 0);
                Ok(ExitStep::ConsoleWriteByte { byte })
            } else {
                self.sbi_return(RET_ERR_NOT_SUPPORTED, 0);
                Ok(ExitStep::Exit(ExitReason::Nothing))
            }
        } else if eid == EID_SRST {
            if fid == SYSTEM_RESET {
                if a[0] == RESET_TYPE_SHUTDOWN {
                    Ok(ExitStep::Exit(ExitReason::SystemDown))
                } else {
                    Err(VCpuError::Unsupported)
                }
            } else {
                self.sbi_return(RET_ERR_NOT_SUPPORTED, 0);
                Ok(ExitStep::Exit(ExitReason::Nothing))
            }
        } else {
            let args = [a[0], a[1], a[2], a[3], a[4], a[5]];
            assert(args@ =~= self.gprs().subrange(10, 16));
            Ok(ExitStep::Forward { eid, fid, args })
        }
    }

    /// Returns `(error, value)` to the guest in `a0` and `a1` and moves its
    /// pc past the `ecall`.
    fn sbi_return(&mut self, error: u64, value: u64)
        ensures
            sbi_returned(*old(self), *final(self), error, value),
    {
        self.set_gpr_from_gpr_index(GprIndex::A0, error);
        self.set_gpr_from_gpr_index(GprIndex::A1, value);
        self.advance_pc(4);
    }
}

/// A supervisor external interrupt (`scause` 9 with the interrupt bit) ends
/// in `ExternalInterrupt { vector: S_EXT }`, and the guest pc and registers
/// stay as they were.
pub proof fn lemma_external_interrupt_exit(o: RISCVVCpu, t: TrapCsrs, n: RISCVVCpu, r: Result<ExitStep, VCpuError>)
    requires
        t.scause == S_EXT,
        exit_handled(o, t, n, r),
    ensures
        exits(r, ExitReason::ExternalInterrupt { vector: S_EXT }),
        n.sepc() == o.sepc(),
        n.gprs() == o.gprs(),
{
    assert(trap_of(t.scause) == Some(Trap::Interrupt(Interrupt::SupervisorExternal)));
}

/// A guest entered at `entry` (`set_entry(entry)`, then `bind`, which leaves
/// the vCPU as it is) whose first instruction faults with a transformed
/// instruction in `htinst`: if the exit is an MMIO read or write, the guest
/// pc is `entry` plus the length of that instruction.
pub proof fn lemma_mmio_exit_after_entry(
    v: RISCVVCpu,
    entry: usize,
    e: RISCVVCpu,
    t: TrapCsrs,
    n: RISCVVCpu,
    r: Result<ExitStep, VCpuError>,
)
    requires
        v.guest_moved(e, v.gprs(), entry as u64),
        t.htinst != 0,
        exit_handled(e, t, n, r),
        r matches Ok(ExitStep::Exit(x)) && (x is MmioRead || x is MmioWrite),
    ensures
        instr_source(t.htinst, 0) matches Ok((_, len)) && n.sepc() == next_pc(entry as u64, len as u64),
{
}

/// The same when the instruction had to be fetched from guest memory
/// (`htinst` zero): after `handle_guest_page_fault(fetched)` returns an MMIO
/// exit, the guest pc is `entry` plus the length of the fetched
/// instruction.
pub proof fn lemma_mmio_exit_after_fetch(
    v: RISCVVCpu,
    entry: usize,
    e: RISCVVCpu,
    t: TrapCsrs,
    fetched: u32,
    n: RISCVVCpu,
    r: Result<ExitReason, VCpuError>,
)
    requires
        v.guest_moved(e, v.gprs(), entry as u64),
        page_fault_handled(e.with_trap(t), n, fetched, r),
        r matches Ok(x) && (x is MmioRead || x is MmioWrite),
    ensures
        instr_source(t.htinst, fetched) matches Ok((_, len)) && n.sepc() == next_pc(entry as u64, len as u64),
{
}

/// A DBCN write of zero bytes returns `(SUCCESS, 0)` to the guest at once
/// and asks for no copy out of guest memory.
pub proof fn lemma_dbcn_empty_write(o: RISCVVCpu, n: RISCVVCpu, r: Result<ExitStep, VCpuError>)
    requires
        arg(o, 7) == EID_DBCN,
        arg(o, 6) == FID_CONSOLE_WRITE,
        arg(o, 0) == 0,
        sbi_handled(o, n, r),
    ensures
        exits(r, ExitReason::Nothing),
        n.gprs()[10] == RET_SUCCESS,
        n.gprs()[11] == 0,
        n.sepc() == next_pc(o.sepc(), 4),
{
}

} // verus!
