use riscv_vcpu::decode::AccessWidth;
use riscv_vcpu::exit::{ExitReason, ExitStep};
use riscv_vcpu::regs::{GprIndex, TrapCsrs};
use riscv_vcpu::sbi_console::{RET_ERR_FAILED, RET_ERR_NOT_SUPPORTED};
use riscv_vcpu::trap::S_EXT;
use riscv_vcpu::vcpu::{RISCVVCpu, RISCVVCpuCreateConfig};
use riscv_vcpu::VCpuError;

const SATP_SV39: u64 = 8 << 60;
const SCAUSE_VS_ECALL: u64 = 10;
const SCAUSE_LOAD_GPF: u64 = 21;
const SCAUSE_STORE_GPF: u64 = 23;

fn booted_vcpu(entry: usize) -> RISCVVCpu {
    let mut v = RISCVVCpu::new(RISCVVCpuCreateConfig::default(), SATP_SV39).unwrap();
    v.setup(0, 0);
    v.set_entry(entry);
    v.set_ept_root(0x8800_0000);
    let _installed = v.bind();
    v
}

fn trap(scause: u64) -> TrapCsrs {
    TrapCsrs { stval: 0, htval: 0, htinst: 0, scause }
}

fn sbi_call(v: &mut RISCVVCpu, eid: u64, fid: u64, args: &[u64]) -> Result<ExitStep, VCpuError> {
    v.set_gpr(17, eid);
    v.set_gpr(16, fid);
    for (k, a) in args.iter().enumerate() {
        v.set_gpr(10 + k, *a);
    }
    v.vmexit_handler(trap(SCAUSE_VS_ECALL))
}

fn a0(v: &RISCVVCpu) -> u64 {
    v.get_gpr(GprIndex::A0)
}

fn a1(v: &RISCVVCpu) -> u64 {
    v.get_gpr(GprIndex::A1)
}

fn fault_trap(scause: u64, gpa: u64, htinst: u64) -> TrapCsrs {
    TrapCsrs { stval: gpa, htval: gpa >> 2, htinst, scause }
}

#[test]
fn hsm_cold_boot_starts_hart() {
    let mut v = booted_vcpu(0x8020_0000);
    let r = sbi_call(&mut v, 0x48534D, 0, &[1, 0x8020_1000, 0xDEAD]);
    assert_eq!(
        r,
        Ok(ExitStep::Exit(ExitReason::CpuUp { target_cpu: 1, entry_point: 0x8020_1000, arg: 0xDEAD }))
    );
    assert_eq!(v.regs.guest_regs.sepc, 0x8020_0004);
}

#[test]
fn hsm_stop_and_suspend_leave_pc() {
    let mut v = booted_vcpu(0x8020_0000);
    assert_eq!(sbi_call(&mut v, 0x48534D, 1, &[]), Ok(ExitStep::Exit(ExitReason::CpuDown { state: 0 })));
    assert_eq!(sbi_call(&mut v, 0x48534D, 3, &[]), Ok(ExitStep::Exit(ExitReason::Halt)));
    assert_eq!(v.regs.guest_regs.sepc, 0x8020_0000);
    assert_eq!(sbi_call(&mut v, 0x48534D, 2, &[]), Err(VCpuError::Unsupported));
}

#[test]
fn mmio_store_doubleword() {
    let mut v = booted_vcpu(0x8020_0000);
    v.set_gpr(5, 0x1122334455667788);
    v.set_gpr(6, 0x1000_0000);
    // sd x5, 0(x6)
    let sd = 0x0053_3023u64;
    let r = v.vmexit_handler(fault_trap(SCAUSE_STORE_GPF, 0x1000_0000, sd));
    assert_eq!(
        r,
        Ok(ExitStep::Exit(ExitReason::MmioWrite {
            addr: 0x1000_0000,
            width: AccessWidth::Qword,
            data: 0x1122334455667788
        }))
    );
    assert_eq!(v.regs.guest_regs.sepc, 0x8020_0004);
}

#[test]
fn mmio_load_halfword_sign_extended() {
    let mut v = booted_vcpu(0x8020_0000);
    v.set_gpr(6, 0x1000_0000);
    // lh x7, 0(x6)
    let lh = 0x0003_1383u64;
    let r = v.vmexit_handler(fault_trap(SCAUSE_LOAD_GPF, 0x1000_0000, lh));
    assert_eq!(
        r,
        Ok(ExitStep::Exit(ExitReason::MmioRead {
            addr: 0x1000_0000,
            width: AccessWidth::Word,
            reg: 7,
            reg_width: AccessWidth::Qword,
            signed_ext: true
        }))
    );
    assert_eq!(v.regs.guest_regs.sepc, 0x8020_0004);
}

#[test]
fn mmio_load_unsigned_byte() {
    let mut v = booted_vcpu(0x8020_0000);
    // lbu x9, 4(x6)
    let lbu = 0x0043_4483u64;
    let r = v.vmexit_handler(fault_trap(SCAUSE_LOAD_GPF, 0x1000_0006, lbu));
    assert_eq!(
        r,
        Ok(ExitStep::Exit(ExitReason::MmioRead {
            addr: 0x1000_0006,
            width: AccessWidth::Byte,
            reg: 9,
            reg_width: AccessWidth::Qword,
            signed_ext: false
        }))
    );
}

#[test]
fn fault_address_joins_htval_and_stval() {
    let mut v = booted_vcpu(0);
    let t = TrapCsrs { stval: 0xffff_0003, htval: 0x0400_0000, htinst: 0x0003_1383, scause: SCAUSE_LOAD_GPF };
    match v.vmexit_handler(t) {
        Ok(ExitStep::Exit(ExitReason::MmioRead { addr, .. })) => assert_eq!(addr, 0x1000_0003),
        other => panic!("unexpected {:?}", other),
    }
}

#[test]
fn page_fault_without_htinst_fetches_instruction() {
    let mut v = booted_vcpu(0x8020_0000);
    let r = v.vmexit_handler(fault_trap(SCAUSE_LOAD_GPF, 0x1000_0000, 0));
    assert_eq!(r, Ok(ExitStep::FetchInstruction { vaddr: 0x8020_0000 }));
    assert_eq!(v.regs.guest_regs.sepc, 0x8020_0000);
    let r = v.handle_guest_page_fault(0x0003_1383);
    assert_eq!(
        r,
        Ok(ExitReason::MmioRead {
            addr: 0x1000_0000,
            width: AccessWidth::Word,
            reg: 7,
            reg_width: AccessWidth::Qword,
            signed_ext: true
        })
    );
    assert_eq!(v.regs.guest_regs.sepc, 0x8020_0004);
}

#[test]
fn fetched_compressed_load_advances_two_bytes() {
    let mut v = booted_vcpu(0x8020_0000);
    let _ = v.vmexit_handler(fault_trap(SCAUSE_LOAD_GPF, 0x1000_0040, 0));
    // c.lw a2, 64(a5), with unrelated upper half
    let r = v.handle_guest_page_fault(0xabcd_43b0);
    assert_eq!(
        r,
        Ok(ExitReason::MmioRead {
            addr: 0x1000_0040,
            width: AccessWidth::Dword,
            reg: 12,
            reg_width: AccessWidth::Qword,
            signed_ext: true
        })
    );
    assert_eq!(v.regs.guest_regs.sepc, 0x8020_0002);
}

#[test]
fn transformed_compressed_store_advances_two_bytes() {
    let mut v = booted_vcpu(0x8020_0000);
    v.set_gpr(5, 77);
    // sd x5 as a transformed compressed instruction: bits [1:0] = 01
    let htinst = 0x0053_3021u64;
    let r = v.vmexit_handler(fault_trap(SCAUSE_STORE_GPF, 0x1000_0000, htinst));
    assert_eq!(
        r,
        Ok(ExitStep::Exit(ExitReason::MmioWrite { addr: 0x1000_0000, width: AccessWidth::Qword, data: 77 }))
    );
    assert_eq!(v.regs.guest_regs.sepc, 0x8020_0002);
}

#[test]
fn non_memory_instruction_is_nested_page_fault() {
    let mut v = booted_vcpu(0x8020_0000);
    // addi x1, x1, 1
    let r = v.vmexit_handler(fault_trap(SCAUSE_LOAD_GPF, 0x2000, 0x0010_8093));
    assert_eq!(r, Ok(ExitStep::Exit(ExitReason::NestedPageFault { addr: 0x2000, access_flags: 0 })));
    assert_eq!(v.regs.guest_regs.sepc, 0x8020_0000);
}

#[test]
fn pseudo_instruction_is_unsupported() {
    let mut v = booted_vcpu(0x8020_0000);
    assert_eq!(v.vmexit_handler(fault_trap(SCAUSE_LOAD_GPF, 0x2000, 0x3000)), Err(VCpuError::Unsupported));
    assert_eq!(v.vmexit_handler(fault_trap(SCAUSE_STORE_GPF, 0x2000, 0x3020)), Err(VCpuError::Unsupported));
    assert_eq!(v.regs.guest_regs.sepc, 0x8020_0000);
}

#[test]
fn undecodable_instruction_is_unsupported() {
    let mut v = booted_vcpu(0x8020_0000);
    // load opcode with the reserved funct3 7
    assert_eq!(v.vmexit_handler(fault_trap(SCAUSE_LOAD_GPF, 0x2000, 0x0000_7003)), Err(VCpuError::Unsupported));
    // htinst with bits [1:0] = 00 names no instruction length
    assert_eq!(v.vmexit_handler(fault_trap(SCAUSE_LOAD_GPF, 0x2000, 0x0000_7000)), Err(VCpuError::Unsupported));
}

#[test]
fn dbcn_write_of_hi() {
    let mut v = booted_vcpu(0x8020_0000);
    let r = sbi_call(&mut v, 0x4442434E, 0, &[2, 0xA000_0000, 0]);
    assert_eq!(r, Ok(ExitStep::ConsoleWrite { num_bytes: 2, gpa: 0xA000_0000 }));
    assert!(v.console_write_copied(2, 2));
    assert_eq!(v.finish_sbi_call(0, 0), ExitReason::Nothing);
    assert_eq!((a0(&v), a1(&v)), (0, 0));
    assert_eq!(v.regs.guest_regs.sepc, 0x8020_0004);
}

#[test]
fn dbcn_write_relays_firmware_count() {
    let mut v = booted_vcpu(0x8020_0000);
    let _ = sbi_call(&mut v, 0x4442434E, 0, &[2, 0xA000_0000, 0]);
    assert!(v.console_write_copied(2, 2));
    v.finish_sbi_call(0, 2);
    assert_eq!((a0(&v), a1(&v)), (0, 2));
}

#[test]
fn dbcn_write_high_address_half() {
    let mut v = booted_vcpu(0);
    let r = sbi_call(&mut v, 0x4442434E, 0, &[8, 0x1000, 0x2]);
    assert_eq!(r, Ok(ExitStep::ConsoleWrite { num_bytes: 8, gpa: 0x2_0000_1000 }));
}

#[test]
fn dbcn_short_copy_fails() {
    let mut v = booted_vcpu(0x8020_0000);
    let _ = sbi_call(&mut v, 0x4442434E, 0, &[2, 0xA000_0000, 0]);
    assert!(!v.console_write_copied(2, 1));
    assert_eq!((a0(&v), a1(&v)), (RET_ERR_FAILED, 0));
    assert_eq!(v.regs.guest_regs.sepc, 0x8020_0004);
}

#[test]
fn dbcn_zero_length_write_is_immediate_success() {
    let mut v = booted_vcpu(0x8020_0000);
    v.set_gpr(11, 5);
    let r = sbi_call(&mut v, 0x4442434E, 0, &[0, 0xA000_0000, 0]);
    assert_eq!(r, Ok(ExitStep::Exit(ExitReason::Nothing)));
    assert_eq!((a0(&v), a1(&v)), (0, 0));
    assert_eq!(v.regs.guest_regs.sepc, 0x8020_0004);
}

#[test]
fn dbcn_read_paths() {
    let mut v = booted_vcpu(0x8020_0000);
    let r = sbi_call(&mut v, 0x4442434E, 1, &[16, 0xA000_0000, 0]);
    assert_eq!(r, Ok(ExitStep::ConsoleRead { num_bytes: 16, gpa: 0xA000_0000 }));
    assert_eq!(v.console_read_received(16, 0, 3), Some(3));
    assert_eq!(v.regs.guest_regs.sepc, 0x8020_0000);
    assert_eq!(v.console_read_copied(3, 3), ExitReason::Nothing);
    assert_eq!((a0(&v), a1(&v)), (0, 3));
    assert_eq!(v.regs.guest_regs.sepc, 0x8020_0004);

    let _ = sbi_call(&mut v, 0x4442434E, 1, &[16, 0xA000_0000, 0]);
    assert_eq!(v.console_read_received(16, 0, 3), Some(3));
    v.console_read_copied(3, 2);
    assert_eq!((a0(&v), a1(&v)), (RET_ERR_FAILED, 0));

    let _ = sbi_call(&mut v, 0x4442434E, 1, &[16, 0xA000_0000, 0]);
    assert_eq!(v.console_read_received(16, RET_ERR_FAILED, 7), None);
    assert_eq!((a0(&v), a1(&v)), (RET_ERR_FAILED, 7));

    let _ = sbi_call(&mut v, 0x4442434E, 1, &[16, 0xA000_0000, 0]);
    assert_eq!(v.console_read_received(16, 0, 17), None);
    assert_eq!((a0(&v), a1(&v)), (RET_ERR_FAILED, 0));
}

#[test]
fn dbcn_write_byte_and_unknown_function() {
    let mut v = booted_vcpu(0x8020_0000);
    assert_eq!(sbi_call(&mut v, 0x4442434E, 2, &[0x1_41]), Ok(ExitStep::ConsoleWriteByte { byte: 0x41 }));
    assert_eq!((a0(&v), a1(&v)), (0, 0));
    assert_eq!(sbi_call(&mut v, 0x4442434E, 9, &[]), Ok(ExitStep::Exit(ExitReason::Nothing)));
    assert_eq!((a0(&v), a1(&v)), (RET_ERR_NOT_SUPPORTED, 0));
    assert_eq!(v.regs.guest_regs.sepc, 0x8020_0008);
}

#[test]
fn legacy_shutdown() {
    let mut v = booted_vcpu(0x8020_0000);
    assert_eq!(sbi_call(&mut v, 0x08, 0, &[]), Ok(ExitStep::Exit(ExitReason::SystemDown)));
    assert_eq!(v.regs.guest_regs.sepc, 0x8020_0000);
}

#[test]
fn legacy_timer_console_and_others() {
    let mut v = booted_vcpu(0x1000);
    assert_eq!(sbi_call(&mut v, 0, 0, &[12345]), Ok(ExitStep::SetTimer { value: 12345 }));
    assert_eq!(a0(&v), 0);
    assert_eq!(v.regs.guest_regs.sepc, 0x1004);
    assert_eq!(sbi_call(&mut v, 1, 0, &[0x41]), Ok(ExitStep::LegacyPutchar { ch: 0x41 }));
    assert_eq!(v.regs.guest_regs.sepc, 0x1008);
    assert_eq!(sbi_call(&mut v, 2, 0, &[]), Ok(ExitStep::LegacyGetchar));
    assert_eq!(v.regs.guest_regs.sepc, 0x1008);
    assert_eq!(v.finish_legacy_getchar(0x62), ExitReason::Nothing);
    assert_eq!(a0(&v), 0x62);
    assert_eq!(v.regs.guest_regs.sepc, 0x100c);
    assert_eq!(sbi_call(&mut v, 4, 0, &[1]), Ok(ExitStep::Exit(ExitReason::Nothing)));
    assert_eq!(v.regs.guest_regs.sepc, 0x1010);
}

#[test]
fn srst_reset() {
    let mut v = booted_vcpu(0x1000);
    assert_eq!(sbi_call(&mut v, 0x53525354, 0, &[0]), Ok(ExitStep::Exit(ExitReason::SystemDown)));
    assert_eq!(sbi_call(&mut v, 0x53525354, 0, &[1]), Err(VCpuError::Unsupported));
    assert_eq!(v.regs.guest_regs.sepc, 0x1000);
    assert_eq!(sbi_call(&mut v, 0x53525354, 1, &[0]), Ok(ExitStep::Exit(ExitReason::Nothing)));
    assert_eq!(a0(&v), RET_ERR_NOT_SUPPORTED);
    assert_eq!(v.regs.guest_regs.sepc, 0x1004);
}

#[test]
fn hypercall_carries_arguments() {
    let mut v = booted_vcpu(0x1000);
    let r = sbi_call(&mut v, 0x485643, 7, &[1, 2, 3, 4, 5, 6]);
    assert_eq!(r, Ok(ExitStep::Exit(ExitReason::Hypercall { nr: 7, args: [1, 2, 3, 4, 5, 6] })));
    assert_eq!(v.regs.guest_regs.sepc, 0x1004);
}

#[test]
fn other_extensions_are_forwarded() {
    let mut v = booted_vcpu(0x1000);
    let r = sbi_call(&mut v, 0x10, 3, &[9, 8, 7, 6, 5, 4]);
    assert_eq!(r, Ok(ExitStep::Forward { eid: 0x10, fid: 3, args: [9, 8, 7, 6, 5, 4] }));
    assert_eq!(v.regs.guest_regs.sepc, 0x1000);
    assert_eq!(v.finish_sbi_call(RET_ERR_NOT_SUPPORTED, 11), ExitReason::Nothing);
    assert_eq!((a0(&v), a1(&v)), (RET_ERR_NOT_SUPPORTED, 11));
    assert_eq!(v.regs.guest_regs.sepc, 0x1004);
}

#[test]
fn external_interrupt_does_not_move_pc() {
    let mut v = booted_vcpu(0x1000);
    let r = v.vmexit_handler(trap(0x8000_0000_0000_0009));
    assert_eq!(r, Ok(ExitStep::Exit(ExitReason::ExternalInterrupt { vector: S_EXT })));
    assert_eq!(v.regs.guest_regs.sepc, 0x1000);
}

#[test]
fn timer_interrupt_asks_for_watchdog() {
    let mut v = booted_vcpu(0x1000);
    assert_eq!(v.vmexit_handler(trap(0x8000_0000_0000_0005)), Ok(ExitStep::TimerInterrupt));
}

#[test]
fn unknown_trap_is_invalid_data() {
    let mut v = booted_vcpu(0x1000);
    assert_eq!(v.vmexit_handler(trap(14)), Err(VCpuError::InvalidData));
    assert_eq!(v.vmexit_handler(trap(0x8000_0000_0000_0003)), Err(VCpuError::InvalidData));
    assert_eq!(v.vmexit_handler(trap(64)), Err(VCpuError::InvalidData));
}

#[test]
fn unhandled_trap_is_fatal() {
    let mut v = booted_vcpu(0x1000);
    let t = TrapCsrs { stval: 0x55, htval: 0, htinst: 0, scause: 2 };
    assert_eq!(v.vmexit_handler(t), Ok(ExitStep::Fatal { scause: 2, sepc: 0x1000, stval: 0x55 }));
    assert_eq!(v.regs.trap_csrs, t);
}

#[test]
fn pc_wraps_at_top_of_address_space() {
    let mut v = booted_vcpu(0);
    v.regs.guest_regs.sepc = u64::MAX - 1;
    v.advance_pc(4);
    assert_eq!(v.regs.guest_regs.sepc, 2);
}
