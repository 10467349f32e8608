use riscv_vcpu::decode::{decode_instr_at, instr_is_pseudo, AccessWidth, GuestAccess};
use riscv_vcpu::percpu::{setup_csrs, HartTeardown, RISCVPerCpu};
use riscv_vcpu::trap::{decode_scause, Exception, Interrupt, Trap};
use riscv_vcpu::watchdog::Watchdog;
use riscv_vcpu::VCpuError;

#[test]
fn hart_setup_values() {
    let s = setup_csrs();
    assert_eq!(s.hedeleg, (1 << 0) | (1 << 2) | (1 << 3) | (1 << 8) | (1 << 12) | (1 << 13) | (1 << 15));
    assert_eq!(s.hedeleg & (1 << 10), 0);
    assert_eq!(s.hedeleg & (1 << 21), 0);
    assert_eq!(s.hideleg, (1 << 2) | (1 << 6) | (1 << 10));
    assert_eq!(s.hvip_clear, (1 << 2) | (1 << 6) | (1 << 10));
    assert_eq!(s.hcounteren, 0xffff_ffff);
    assert_eq!(s.sie, (1 << 1) | (1 << 9));
    assert_eq!(s.sie & (1 << 5), 0);
}

#[test]
fn hardware_enable_and_disable() {
    assert_eq!(RISCVPerCpu::new(2, false).err(), Some(VCpuError::Unsupported));
    let mut p = RISCVPerCpu::new(2, true).unwrap();
    assert!(!p.is_enabled());
    assert_eq!(p.hardware_disable(), Err(VCpuError::Unsupported));
    assert_eq!(p.hardware_enable(false, 0, 0x8000), Err(VCpuError::Unsupported));
    assert!(!p.is_enabled());
    assert_eq!(p.hardware_enable(true, 0x2_0000_0000, 0x8000), Ok(0x2_0000_0180));
    assert!(p.is_enabled());
    assert_eq!(p.hardware_disable(), Ok(HartTeardown { stvec: 0x8000, hedeleg: 0, hideleg: 0 }));
    assert!(!p.is_enabled());
    assert_eq!(p.cpu_id, 2);
}

#[test]
fn scause_classification() {
    assert_eq!(decode_scause(10), Some(Trap::Exception(Exception::VirtualSupervisorEnvCall)));
    assert_eq!(decode_scause(21), Some(Trap::Exception(Exception::LoadGuestPageFault)));
    assert_eq!(decode_scause(23), Some(Trap::Exception(Exception::StoreGuestPageFault)));
    assert_eq!(decode_scause(0x8000_0000_0000_0005), Some(Trap::Interrupt(Interrupt::SupervisorTimer)));
    assert_eq!(decode_scause(0x8000_0000_0000_0009), Some(Trap::Interrupt(Interrupt::SupervisorExternal)));
    assert_eq!(decode_scause(9), Some(Trap::Exception(Exception::SupervisorEnvCall)));
    assert_eq!(decode_scause(11), None);
    assert_eq!(decode_scause(0x8000_0000_0000_000a), None);
}

#[test]
fn pseudo_instruction_markers() {
    assert!(instr_is_pseudo(0x3000));
    assert!(instr_is_pseudo(0x3020));
    assert!(!instr_is_pseudo(0x3023));
}

#[test]
fn decode_every_load_and_store() {
    let loads = [
        (0u32, AccessWidth::Byte, true),
        (1, AccessWidth::Word, true),
        (2, AccessWidth::Dword, true),
        (3, AccessWidth::Qword, true),
        (4, AccessWidth::Byte, false),
        (5, AccessWidth::Word, false),
        (6, AccessWidth::Dword, false),
    ];
    for (f, width, signed_ext) in loads {
        for (rd, rs1, imm) in [(1u32, 2u32, 0u32), (31, 0, 0xfff), (7, 6, 0x800)] {
            let w = (imm << 20) | (rs1 << 15) | (f << 12) | (rd << 7) | 0x03;
            assert_eq!(
                decode_instr_at(w as u64, 0),
                Ok((GuestAccess::Read { width, reg: rd, signed_ext, base: rs1, offset: imm }, 4))
            );
        }
    }
    let stores = [(0u32, AccessWidth::Byte), (1, AccessWidth::Word), (2, AccessWidth::Dword), (3, AccessWidth::Qword)];
    for (f, width) in stores {
        for (rs1, rs2, imm) in [(1u32, 2u32, 0u32), (31, 30, 0xfff), (0, 5, 0x7e1)] {
            let w = ((imm >> 5) << 25) | (rs2 << 20) | (rs1 << 15) | (f << 12) | ((imm & 0x1f) << 7) | 0x23;
            assert_eq!(
                decode_instr_at(w as u64, 0),
                Ok((GuestAccess::Write { width, reg: rs2, base: rs1, offset: imm }, 4))
            );
        }
    }
}

#[test]
fn decode_fetched_instruction_lengths() {
    // c.sd a0, 0(a1)
    assert_eq!(
        decode_instr_at(0, 0xe188),
        Ok((GuestAccess::Write { width: AccessWidth::Qword, reg: 10, base: 11, offset: 0 }, 2))
    );
    // c.lw a2, 64(a5)
    assert_eq!(
        decode_instr_at(0, 0x43b0),
        Ok((GuestAccess::Read { width: AccessWidth::Dword, reg: 12, signed_ext: true, base: 15, offset: 64 }, 2))
    );
    // lengths 6 and 10 are not supported either
    assert_eq!(decode_instr_at(0, 0x003f), Err(VCpuError::Unsupported));
    assert_eq!(decode_instr_at(0, 0x007f), Err(VCpuError::Unsupported));
    // a 48-bit instruction length is not supported
    assert_eq!(decode_instr_at(0, 0x001f), Err(VCpuError::Unsupported));
    // jal is neither a load nor a store
    assert_eq!(decode_instr_at(0, 0x0000_006f), Ok((GuestAccess::Other, 4)));
}

#[test]
fn watchdog_forces_interrupts_after_three_stuck_exits() {
    let mut w = Watchdog::new();
    let (vsstatus, vsie, hip) = (0x0u64, 0x0u64, 0x400u64);
    assert_eq!(w.observe(0x1000, vsstatus, vsie, hip), None);
    assert_eq!(w.observe(0x1000, vsstatus, vsie, hip), None);
    assert_eq!(w.observe(0x1000, vsstatus, vsie, hip), None);
    assert_eq!(w.observe(0x1000, vsstatus, vsie, hip), Some((0x2, 0x200)));
    assert_eq!(w.stuck_count, 0);
}

#[test]
fn watchdog_resets_when_guest_moves_or_nothing_pending() {
    let mut w = Watchdog::new();
    assert_eq!(w.observe(0x1000, 0, 0, 0x400), None);
    assert_eq!(w.observe(0x1000, 0, 0, 0x400), None);
    assert_eq!(w.stuck_count, 1);
    assert_eq!(w.observe(0x1004, 0, 0, 0x400), None);
    assert_eq!(w.stuck_count, 0);
    assert_eq!(w.observe(0x1004, 0, 0, 0), None);
    assert_eq!(w.stuck_count, 0);
    assert_eq!(w.observe(0x1004, 0x2, 0x200, 0x400), None);
    assert_eq!(w.stuck_count, 0);
    assert_eq!(w.last_sepc, 0x1004);
}
