use riscv_vcpu::regs::{GprIndex, VsCsrs};
use riscv_vcpu::sbi_console::join_u64;
use riscv_vcpu::trap::{S_EXT, S_SOFT, S_TIMER};
use riscv_vcpu::vcpu::{max_gpt_level, stage2_supported, HartCsrs, RISCVVCpu, RISCVVCpuCreateConfig};
use riscv_vcpu::VCpuError;

const SATP_SV39: u64 = 8 << 60;
const SATP_SV48: u64 = 9 << 60;
const SATP_SV57: u64 = 10 << 60;

fn vcpu() -> RISCVVCpu {
    RISCVVCpu::new(RISCVVCpuCreateConfig::default(), SATP_SV48).unwrap()
}

#[test]
fn join_u64_puts_high_half_on_top() {
    assert_eq!(join_u64(0xA000_0000, 0), 0xA000_0000);
    assert_eq!(join_u64(0x1234_5678, 0x9abc_def0), 0x9abc_def0_1234_5678);
    assert_eq!(join_u64(0, 1), 0x1_0000_0000);
    assert_eq!(join_u64(0xffff_ffff, 0xffff_ffff), u64::MAX);
}

#[test]
fn default_config_and_create() {
    let c = RISCVVCpuCreateConfig::default();
    assert_eq!(c.hart_id, 0);
    assert_eq!(c.dtb_addr, 0x9000_0000);
    let v = RISCVVCpu::new(RISCVVCpuCreateConfig { hart_id: 3, dtb_addr: 0x8f00_0000 }, SATP_SV39).unwrap();
    assert_eq!(v.get_gpr(GprIndex::A0), 3);
    assert_eq!(v.get_gpr(GprIndex::A1), 0x8f00_0000);
    assert_eq!(v.get_gpr(GprIndex::A2), 0);
    assert_eq!(v.pt_level, 3);
    assert_eq!(v.pa_bits, 56);
    assert_eq!(v.regs.guest_regs.sepc, 0);
}

#[test]
fn create_needs_paging_host() {
    let bare = RISCVVCpu::new(RISCVVCpuCreateConfig::default(), 0);
    assert_eq!(bare.err(), Some(VCpuError::Unsupported));
    assert_eq!(RISCVVCpu::new(RISCVVCpuCreateConfig::default(), SATP_SV57).unwrap().pt_level, 5);
}

#[test]
fn gpr_write_then_read() {
    let mut v = vcpu();
    for i in 1..32usize {
        v.set_gpr(i, 0x1000 + i as u64);
    }
    for i in 1..32u32 {
        assert_eq!(v.get_gpr(GprIndex::from_raw(i).unwrap()), 0x1000 + i as u64);
    }
}

#[test]
fn zero_register_ignores_writes() {
    let mut v = vcpu();
    v.set_gpr(0, 42);
    assert_eq!(v.get_gpr(GprIndex::Zero), 0);
    v.set_gpr_from_gpr_index(GprIndex::Zero, 7);
    assert_eq!(v.get_gpr(GprIndex::Zero), 0);
    v.set_gpr(32, 9);
    v.set_gpr(usize::MAX, 9);
    for i in 1..32u32 {
        let expected = if i == 11 { 0x9000_0000 } else { 0 };
        assert_eq!(v.get_gpr(GprIndex::from_raw(i).unwrap()), expected);
    }
}

#[test]
fn gpr_index_numbers() {
    assert_eq!(GprIndex::A0.raw(), 10);
    assert_eq!(GprIndex::A7.raw(), 17);
    assert_eq!(GprIndex::T6.raw(), 31);
    assert_eq!(GprIndex::from_raw(8), Some(GprIndex::S0));
    assert_eq!(GprIndex::from_raw(32), None);
}

#[test]
fn set_hart_dtb_and_return_value() {
    let mut v = vcpu();
    v.set_hart_id(5);
    v.set_dtb_addr(0x8200_0000);
    assert_eq!(v.get_gpr(GprIndex::A0), 5);
    assert_eq!(v.get_gpr(GprIndex::A1), 0x8200_0000);
    v.set_return_value(99);
    assert_eq!(v.get_gpr(GprIndex::A0), 99);
}

#[test]
fn setup_sets_guest_status() {
    let mut v = vcpu();
    v.setup(0x0000_0000_0000_0122, 0x0000_0001_0000_0040);
    assert_eq!(v.regs.guest_regs.sstatus, 0x100);
    assert_eq!(v.regs.guest_regs.hstatus, 0x0000_0002_0000_01c0);
}

#[test]
fn ept_root_mode_per_level() {
    let mut v = RISCVVCpu::new(RISCVVCpuCreateConfig::default(), SATP_SV39).unwrap();
    v.set_ept_root(0x8020_0000);
    assert_eq!(v.regs.virtual_hs_csrs.hgatp, (8u64 << 60) | 0x80200);
    let mut v = vcpu();
    v.set_ept_root(0x8020_0000);
    assert_eq!(v.regs.virtual_hs_csrs.hgatp >> 60, 9);
    let mut v = RISCVVCpu::new(RISCVVCpuCreateConfig::default(), SATP_SV57).unwrap();
    v.set_ept_root(0x8020_0000);
    assert_eq!(v.regs.virtual_hs_csrs.hgatp >> 60, 10);
    v.pt_level = 7;
    v.set_ept_root(0x8020_0000);
    assert_eq!(v.regs.virtual_hs_csrs.hgatp >> 60, 9);
}

#[test]
fn ept_root_ppn_round_trips() {
    let mut v = vcpu();
    let root: usize = 0x00ab_cdef_1234_5000;
    v.set_ept_root(root);
    let h = v.regs.virtual_hs_csrs.hgatp;
    assert_eq!((h & ((1 << 44) - 1)) << 12, root as u64 & ((1 << 56) - 1));
    assert_eq!((h >> 44) & 0xffff, 0);
}

#[test]
fn vmid_installed_in_hgatp() {
    let mut v = vcpu();
    v.set_ept_root(0x8020_0000);
    let h = v.setup_current_cpu(0x1_2345);
    assert_eq!((h >> 44) & 0xffff, 0x2345);
    assert_eq!(h >> 60, 9);
    assert_eq!(h & ((1 << 44) - 1), 0x80200);
    assert_eq!(v.regs.virtual_hs_csrs.hgatp, h);
    let h2 = v.setup_current_cpu(7);
    assert_eq!((h2 >> 44) & 0xffff, 7);
}

#[test]
fn bind_then_unbind_keeps_csrs() {
    let mut v = vcpu();
    v.regs.vs_csrs = VsCsrs {
        vsatp: 1,
        vstvec: 2,
        vsepc: 3,
        vstval: 4,
        vscause: 5,
        vsscratch: 6,
        vsstatus: 7,
        vsie: 8,
        htimedelta: 9,
    };
    v.set_ept_root(0x8020_0000);
    let before = v.regs.vs_csrs;
    let hw = v.bind();
    assert_eq!(hw.vs_csrs, before);
    assert_eq!(hw.hgatp, v.regs.virtual_hs_csrs.hgatp);
    let hgatp = hw.hgatp;
    v.unbind(hw);
    assert_eq!(v.regs.vs_csrs, before);
    assert_eq!(v.regs.virtual_hs_csrs.hgatp, hgatp);
}

#[test]
fn unbind_keeps_what_guest_wrote() {
    let mut v = vcpu();
    let mut hw = v.bind();
    hw.vs_csrs.vsepc = 0xdead;
    hw.vs_csrs.vsstatus = 0x22;
    v.unbind(HartCsrs { vs_csrs: hw.vs_csrs, hgatp: 0x9000_0000_0000_0001 });
    assert_eq!(v.regs.vs_csrs.vsepc, 0xdead);
    assert_eq!(v.regs.vs_csrs.vsstatus, 0x22);
    assert_eq!(v.bind().hgatp, 0x9000_0000_0000_0001);
}

#[test]
fn inject_interrupt_bits() {
    let v = vcpu();
    assert_eq!(v.inject_interrupt(S_SOFT), Ok(1 << 2));
    assert_eq!(v.inject_interrupt(S_TIMER), Ok(1 << 6));
    assert_eq!(v.inject_interrupt(S_EXT), Ok(1 << 10));
    assert_eq!(v.inject_interrupt(9), Err(VCpuError::Unsupported));
}

#[test]
fn regs_gives_mutable_register_file() {
    let mut v = vcpu();
    v.regs().guest_regs.sepc = 0x4000;
    v.regs().guest_regs.gprs.set_reg(GprIndex::T0, 3);
    assert_eq!(v.regs.guest_regs.sepc, 0x4000);
    assert_eq!(v.get_gpr(GprIndex::T0), 3);
}

#[test]
fn stage2_levels_follow_host_mode() {
    assert!(!stage2_supported(0));
    assert!(!stage2_supported(11 << 60));
    assert!(stage2_supported(SATP_SV39 | 0x1234));
    assert_eq!(max_gpt_level(SATP_SV39), 3);
    assert_eq!(max_gpt_level(SATP_SV48), 4);
    assert_eq!(max_gpt_level(SATP_SV57), 5);
}
