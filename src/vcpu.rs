//! The virtual CPU: the guest's register file, the stage-2 root, bind and
//! unbind, and the VM-exit dispatcher.
use vstd::prelude::*;

use crate::regs::{GprIndex, TrapCsrs, VmCpuRegisters, VsCsrs};
use crate::trap::{S_EXT, S_SOFT, S_TIMER};
use crate::VCpuError;

verus! {

broadcast use crate::regs::GeneralPurposeRegisters::lemma_len;

/// Default guest physical address of the device tree blob.
pub const DEFAULT_DTB_ADDR: usize = 0x9000_0000;
/// Physical address width of the platform, in bits.
pub const PA_BITS: usize = 56;

/// `sstatus.SIE`.
pub const SSTATUS_SIE: u64 = 0x2;
/// `sstatus.SPIE`.
pub const SSTATUS_SPIE: u64 = 0x20;
/// `sstatus.SPP`: set means the previous privilege was Supervisor.
pub const SSTATUS_SPP: u64 = 0x100;
/// `hstatus.SPV`: `sret` enters virtualization mode.
pub const HSTATUS_SPV: u64 = 0x80;
/// `hstatus.SPVP`: hypervisor loads and stores act as VS-mode.
pub const HSTATUS_SPVP: u64 = 0x100;
/// `hstatus.VSXL` field, bits `[33:32]`.
pub const HSTATUS_VSXL_MASK: u64 = 0x3_0000_0000;
/// `hstatus.VSXL` = 2: VS-mode is 64-bit.
pub const HSTATUS_VSXL_64: u64 = 0x2_0000_0000;

/// `hvip.VSSIP`: virtual-supervisor software interrupt pending.
pub const HVIP_VSSIP: u64 = 1 << 2u64;
/// `hvip.VSTIP`: virtual-supervisor timer interrupt pending.
pub const HVIP_VSTIP: u64 = 1 << 6u64;
/// `hvip.VSEIP`: virtual-supervisor external interrupt pending.
pub const HVIP_VSEIP: u64 = 1 << 10u64;

/// Mask of the PPN field of `hgatp`, bits `[43:0]`.
pub const HGATP_PPN_MASK: u64 = 0xfff_ffff_ffff;

/// Configuration for creating a new [`RISCVVCpu`].
#[derive(Clone, Copy, Debug)]
pub struct RISCVVCpuCreateConfig {
    /// The ID of the vCPU, default `0`.
    pub hart_id: usize,
    /// The guest physical address of the device tree blob, default
    /// `0x9000_0000`.
    pub dtb_addr: usize,
}

impl Default for RISCVVCpuCreateConfig {
    fn default() -> (r: Self)
        ensures
            r.hart_id == 0,
            r.dtb_addr == DEFAULT_DTB_ADDR,
    {
        RISCVVCpuCreateConfig { hart_id: 0, dtb_addr: DEFAULT_DTB_ADDR }
    }
}

/// The virtual-supervisor CSRs and `hgatp` of a vCPU as they stand in a
/// hart's hardware while it is bound there.
#[derive(Clone, Copy, Debug, PartialEq, Eq, Structural)]
pub struct HartCsrs {
    pub vs_csrs: VsCsrs,
    pub hgatp: u64,
}

/// A virtual CPU within a guest.
#[derive(Clone, Copy, Debug)]
pub struct RISCVVCpu {
    /// The register file.
    pub regs: VmCpuRegisters,
    /// Number of levels of the stage-2 page table.
    pub pt_level: usize,
    /// Physical address width, in bits.
    pub pa_bits: usize,
}

/// `pc + len`, wrapping around like the hardware pc.
pub open spec fn next_pc(pc: u64, len: u64) -> u64 {
    ((pc as int + len as int) % 0x1_0000_0000_0000_0000) as u64
}

/// The stage-2 page-table level that the host's `satp` mode (`satp[63:60]`)
/// allows: Sv39 gives 3, Sv48 gives 4, Sv57 gives 5.
pub open spec fn level_of_satp(satp: u64) -> Option<usize> {
    let mode = satp >> 60u64;
    if mode == 8 {
        Some(3usize)
    } else if mode == 9 {
        Some(4usize)
    } else if mode == 10 {
        Some(5usize)
    } else {
        None
    }
}

/// The `hgatp` MODE for a stage-2 table of `level` levels: Sv39x4 is 8,
/// Sv48x4 is 9, Sv57x4 is 10; any other level gets Sv48x4.
pub open spec fn hgatp_mode_of(level: usize) -> u64 {
    if level == 3 {
        8
    } else if level == 5 {
        10
    } else {
        9
    }
}

/// `hgatp` with the given MODE and the PPN of `root`, VMID zero.
pub open spec fn hgatp_for_root(level: usize, root: u64) -> u64 {
    ((hgatp_mode_of(level) << 60u64) | ((root >> 12u64) & HGATP_PPN_MASK)) as u64
}

/// `hgatp` with its MODE and PPN kept and its VMID field (bits `[59:44]`)
/// set to the low 16 bits of `vmid`.
pub open spec fn hgatp_with_vmid(hgatp: u64, vmid: u64) -> u64 {
    ((((hgatp >> 60u64) & 0xfu64) << 60u64) | ((vmid & 0xffffu64) << 44u64) | (hgatp & HGATP_PPN_MASK)) as u64
}

/// The guest `sstatus` that `setup` makes of the host's: SIE and SPIE clear,
/// SPP Supervisor.
pub open spec fn guest_sstatus_of(sstatus: u64) -> u64 {
    ((sstatus & !(SSTATUS_SIE | SSTATUS_SPIE)) | SSTATUS_SPP) as u64
}

/// The guest `hstatus` that `setup` makes of the host's: SPV and SPVP set,
/// VSXL 64-bit.
pub open spec fn guest_hstatus_of(hstatus: u64) -> u64 {
    (((hstatus | HSTATUS_SPV | HSTATUS_SPVP) & !HSTATUS_VSXL_MASK) | HSTATUS_VSXL_64) as u64
}

/// The registers `g` after `x<index>` is set to `val`: only `x1` to `x31`
/// can be written.
pub open spec fn gprs_after_set(g: Seq<u64>, index: usize, val: u64) -> Seq<u64> {
    if 1 <= index < 32 {
        g.update(index as int, val)
    } else {
        g
    }
}

/// The physical address width of the platform, in bits.
pub fn pa_bits() -> (r: usize)
    ensures
        r == PA_BITS,
{
    PA_BITS
}

/// Whether the host's stage-1 mode (`satp[63:60]`) is one that a stage-2
/// table can match: Sv39, Sv48 or Sv57.
pub fn stage2_supported(satp: u64) -> (r: bool)
    ensures
        r <==> level_of_satp(satp) is Some,
{
    let mode = satp >> 60u64;
    mode == 8 || mode == 9 || mode == 10
}

/// The number of levels of the stage-2 page table, which must match the
/// host's stage-1 mode as `satp` gives it. A host without paging or with
/// another mode has none: callers test [`stage2_supported`] first.
pub fn max_gpt_level(satp: u64) -> (r: usize)
    requires
        level_of_satp(satp) is Some,
    ensures
        Some(r) == level_of_satp(satp),
{
    let mode = satp >> 60u64;
    if mode == 8 {
        3
    } else if mode == 9 {
        4
    } else {
        5
    }
}

impl RISCVVCpu {
    /// The guest's general-purpose registers.
    pub open spec fn gprs(&self) -> Seq<u64> {
        self.regs.guest_regs.gprs@
    }

    /// The pc at which the guest resumes.
    pub open spec fn sepc(&self) -> u64 {
        self.regs.guest_regs.sepc
    }

    /// `n` is `self` with the guest's registers set to `gprs` and its pc to
    /// `sepc`, and nothing else changed.
    pub open spec fn guest_moved(&self, n: Self, gprs: Seq<u64>, sepc: u64) -> bool {
        &&& n.regs.guest_regs.gprs@ == gprs
        &&& n.regs.guest_regs.sepc == sepc
        &&& n.regs.guest_regs.sstatus == self.regs.guest_regs.sstatus
        &&& n.regs.guest_regs.hstatus == self.regs.guest_regs.hstatus
        &&& n.regs.host_regs == self.regs.host_regs
        &&& n.regs.vs_csrs == self.regs.vs_csrs
        &&& n.regs.virtual_hs_csrs == self.regs.virtual_hs_csrs
        &&& n.regs.trap_csrs == self.regs.trap_csrs
        &&& n.pt_level == self.pt_level
        &&& n.pa_bits == self.pa_bits
    }

    /// `self` with the trap CSRs of a new VM-exit recorded.
    pub open spec fn with_trap(self, t: TrapCsrs) -> Self {
        RISCVVCpu { regs: VmCpuRegisters { trap_csrs: t, ..self.regs }, ..self }
    }

    /// The values that binding installs into the hart.
    pub open spec fn bound_csrs(&self) -> HartCsrs {
        HartCsrs { vs_csrs: self.regs.vs_csrs, hgatp: self.regs.virtual_hs_csrs.hgatp }
    }

    /// `self` after unbinding from a hart that held `hw`.
    pub open spec fn unbound_from(self, hw: HartCsrs) -> Self {
        RISCVVCpu {
            regs: VmCpuRegisters {
                vs_csrs: hw.vs_csrs,
                virtual_hs_csrs: crate::regs::HypervisorCsrs { hgatp: hw.hgatp },
                ..self.regs
            },
            ..self
        }
    }

    /// Creates a vCPU whose `a0` holds the hart id and `a1` the device tree
    /// address, every other register zero. `satp` is the host's `satp`: its
    /// mode fixes the stage-2 level; a mode without paging (or an unknown one)
    /// is unsupported.
    pub fn new(config: RISCVVCpuCreateConfig, satp: u64) -> (r: Result<Self, VCpuError>)
        ensures
            level_of_satp(satp) is None <==> r is Err,
            r is Err ==> r == Err::<Self, VCpuError>(VCpuError::Unsupported),
            r matches Ok(v) ==> {
                &&& v.gprs() == Seq::new(32, |_i: int| 0u64).update(10, config.hart_id as u64).update(
                    11,
                    config.dtb_addr as u64,
                )
                &&& v.sepc() == 0
                &&& v.regs.guest_regs.sstatus == 0
                &&& v.regs.guest_regs.hstatus == 0
                &&& v.regs.vs_csrs == VsCsrs::zeroed()
                &&& v.regs.virtual_hs_csrs.hgatp == 0
                &&& v.regs.trap_csrs == (TrapCsrs { stval: 0, htval: 0, htinst: 0, scause: 0 })
                &&& Some(v.pt_level) == level_of_satp(satp)
                &&& v.pa_bits == PA_BITS
            },
    {
        if !stage2_supported(satp) {
            return Err(VCpuError::Unsupported);
        }
        let pt_level = max_gpt_level(satp);
        let mut regs = VmCpuRegisters::new();
        regs.guest_regs.gprs.set_reg(GprIndex::A0, config.hart_id as u64);
        regs.guest_regs.gprs.set_reg(GprIndex::A1, config.dtb_addr as u64);
        Ok(RISCVVCpu { regs, pt_level, pa_bits: pa_bits() })
    }

    /// Prepares the guest's status registers from the host's `sstatus` and
    /// `hstatus`: the guest starts in Supervisor mode with interrupts off,
    /// `sret` enters VS-mode, and VS-mode is 64-bit.
    pub fn setup(&mut self, sstatus: u64, hstatus: u64)
        ensures
            final(self).regs.guest_regs.sstatus == guest_sstatus_of(sstatus),
            final(self).regs.guest_regs.hstatus == guest_hstatus_of(hstatus),
            final(self).regs.guest_regs.gprs == old(self).regs.guest_regs.gprs,
            final(self).regs.guest_regs.sepc == old(self).regs.guest_regs.sepc,
            final(self).regs.host_regs == old(self).regs.host_regs,
            final(self).regs.vs_csrs == old(self).regs.vs_csrs,
            final(self).regs.virtual_hs_csrs == old(self).regs.virtual_hs_csrs,
            final(self).regs.trap_csrs == old(self).regs.trap_csrs,
            final(self).pt_level == old(self).pt_level,
            final(self).pa_bits == old(self).pa_bits,
    {
        self.regs.guest_regs.sstatus = (sstatus & !(SSTATUS_SIE | SSTATUS_SPIE)) | SSTATUS_SPP;
        self.regs.guest_regs.hstatus = ((hstatus | HSTATUS_SPV | HSTATUS_SPVP) & !HSTATUS_VSXL_MASK)
            | HSTATUS_VSXL_64;
    }

    /// Sets the guest's entry point: the pc it starts at.
    pub fn set_entry(&mut self, entry: usize)
        ensures
            old(self).guest_moved(*final(self), old(self).gprs(), entry as u64),
    {
        self.regs.guest_regs.sepc = entry as u64;
    }

    /// Sets the device tree address that the guest finds in `a1`.
    pub fn set_dtb_addr(&mut self, dtb_addr: usize)
        ensures
            old(self).guest_moved(*final(self), old(self).gprs().update(11, dtb_addr as u64), old(self).sepc()),
    {
        self.regs.guest_regs.gprs.set_reg(GprIndex::A1, dtb_addr as u64);
    }

    /// Sets the hart id that the guest finds in `a0`.
    pub fn set_hart_id(&mut self, hart_id: usize)
        ensures
            old(self).guest_moved(*final(self), old(self).gprs().update(10, hart_id as u64), old(self).sepc()),
    {
        self.regs.guest_regs.gprs.set_reg(GprIndex::A0, hart_id as u64);
    }
    /// Sets the stage-2 page-table root: `hgatp` gets the MODE that the
    /// vCPU's page-table level calls for and the PPN of `ept_root`
    /// (bits `[55:12]`), with VMID zero.
    pub fn set_ept_root(&mut self, ept_root: usize)
        ensures
            final(self).regs.virtual_hs_csrs.hgatp == hgatp_for_root(old(self).pt_level, ept_root as u64),
            final(self).regs.guest_regs == old(self).regs.guest_regs,
            final(self).regs.host_regs == old(self).regs.host_regs,
            final(self).regs.vs_csrs == old(self).regs.vs_csrs,
            final(self).regs.trap_csrs == old(self).regs.trap_csrs,
            final(self).pt_level == old(self).pt_level,
            final(self).pa_bits == old(self).pa_bits,
    {
        let mode: u64 = if self.pt_level == 3 {
            8
        } else if self.pt_level == 5 {
            10
        } else {
            9
        };
        let ppn = ((ept_root as u64) >> 12u64) & HGATP_PPN_MASK;
        self.regs.virtual_hs_csrs.hgatp = (mode << 60u64) | ppn;
    }

    /// Gives the vCPU the VMID `vmid` (its low 16 bits) in `hgatp`, keeping
    /// MODE and PPN. Returns the new `hgatp`, which the caller installs on
    /// the hart before fencing the G-stage and stage-1 TLBs.
    pub fn setup_current_cpu(&mut self, vmid: u64) -> (r: u64)
        ensures
            r == hgatp_with_vmid(old(self).regs.virtual_hs_csrs.hgatp, vmid),
            final(self).regs.virtual_hs_csrs.hgatp == r,
            final(self).regs.guest_regs == old(self).regs.guest_regs,
            final(self).regs.host_regs == old(self).regs.host_regs,
            final(self).regs.vs_csrs == old(self).regs.vs_csrs,
            final(self).regs.trap_csrs == old(self).regs.trap_csrs,
            final(self).pt_level == old(self).pt_level,
            final(self).pa_bits == old(self).pa_bits,
    {
        let current = self.regs.virtual_hs_csrs.hgatp;
        let mode = (current >> 60u64) & 0xf;
        let ppn = current & HGATP_PPN_MASK;
        let vmid_field = (vmid & 0xffff) << 44u64;
        let hgatp = (mode << 60u64) | vmid_field | ppn;
        self.regs.virtual_hs_csrs.hgatp = hgatp;
        hgatp
    }

    /// The values to install into the hart when binding: all the
    /// virtual-supervisor CSRs and `hgatp`. The caller writes them, then
    /// fences the G-stage TLB.
    pub fn bind(&self) -> (r: HartCsrs)
        ensures
            r == self.bound_csrs(),
    {
        HartCsrs { vs_csrs: self.regs.vs_csrs, hgatp: self.regs.virtual_hs_csrs.hgatp }
    }

    /// Stores what the hart held when unbinding: `hw` is read from it before
    /// the caller clears `hgatp` and fences.
    pub fn unbind(&mut self, hw: HartCsrs)
        ensures
            *final(self) == old(self).unbound_from(hw),
    {
        self.regs.vs_csrs = hw.vs_csrs;
        self.regs.virtual_hs_csrs.hgatp = hw.hgatp;
    }

    /// Sets general-purpose register `x<index>` to `val`; index 0 (the zero
    /// register) and indices past 31 leave the vCPU as it is.
    pub fn set_gpr(&mut self, index: usize, val: u64)
        ensures
            old(self).guest_moved(*final(self), gprs_after_set(old(self).gprs(), index, val), old(self).sepc()),
    {
        if 1 <= index && index < 32 {
            match GprIndex::from_raw(index as u32) {
                Some(g) => self.set_gpr_from_gpr_index(g, val),
                None => {},
            }
        }
    }

    /// The value of general-purpose register `index`; the zero register
    /// reads as 0.
    pub fn get_gpr(&self, index: GprIndex) -> (r: u64)
        ensures
            r == self.gprs()[index.spec_raw() as int],
            index == GprIndex::Zero ==> r == 0,
    {
        self.regs.guest_regs.gprs.reg(index)
    }

    /// Sets general-purpose register `index` to `val`; a write to the zero
    /// register is ignored.
    pub fn set_gpr_from_gpr_index(&mut self, index: GprIndex, val: u64)
        ensures
            old(self).guest_moved(
                *final(self),
                if index == GprIndex::Zero {
                    old(self).gprs()
                } else {
                    old(self).gprs().update(index.spec_raw() as int, val)
                },
                old(self).sepc(),
            ),
    {
        self.regs.guest_regs.gprs.set_reg(index, val);
    }

    /// Advances the guest pc by `instr_len` bytes.
    pub fn advance_pc(&mut self, instr_len: u64)
        ensures
            old(self).guest_moved(*final(self), old(self).gprs(), next_pc(old(self).sepc(), instr_len)),
    {
        self.regs.guest_regs.sepc = self.regs.guest_regs.sepc.wrapping_add(instr_len);
    }

    /// Puts `val` in `a0`, where the guest finds the result of a call.
    pub fn set_return_value(&mut self, val: u64)
        ensures
            old(self).guest_moved(*final(self), old(self).gprs().update(10, val), old(self).sepc()),
    {
        self.set_gpr_from_gpr_index(GprIndex::A0, val);
    }

    /// The `hvip` bit that injects interrupt `vector` into the guest:
    /// VSSIP for a software interrupt (an IPI), VSTIP for a timer one, VSEIP
    /// for an external one. The caller sets it on the hart the vCPU is bound
    /// to; any other vector is unsupported.
    pub fn inject_interrupt(&self, vector: u64) -> (r: Result<u64, VCpuError>)
        ensures
            vector == S_SOFT ==> r == Ok::<u64, VCpuError>(HVIP_VSSIP),
            vector == S_TIMER ==> r == Ok::<u64, VCpuError>(HVIP_VSTIP),
            vector == S_EXT ==> r == Ok::<u64, VCpuError>(HVIP_VSEIP),
            vector != S_SOFT && vector != S_TIMER && vector != S_EXT ==> r == Err::<u64, VCpuError>(
                VCpuError::Unsupported,
            ),
    {
        if vector == S_SOFT {
            Ok(HVIP_VSSIP)
        } else if vector == S_TIMER {
            Ok(HVIP_VSTIP)
        } else if vector == S_EXT {
            Ok(HVIP_VSEIP)
        } else {
            Err(VCpuError::Unsupported)
        }
    }

    /// The vCPU's register file, for the world switch.
    pub fn regs(&mut self) -> (r: &mut VmCpuRegisters)
        ensures
            *r == old(self).regs,
            *final(self) == (RISCVVCpu { regs: *final(r), ..*old(self) }),
    {
        &mut self.regs
    }
}

/// Setting register `x<i>` to `x` and reading it back gives `x` for
/// `1 <= i <= 31`; the zero register reads 0 whatever was written to it; no
/// other register changes.
pub proof fn lemma_set_gpr_get_gpr(v: RISCVVCpu, n: RISCVVCpu, i: usize, x: u64)
    requires
        v.guest_moved(n, gprs_after_set(v.gprs(), i, x), v.sepc()),
    ensures
        1 <= i < 32 ==> n.gprs()[i as int] == x,
        n.gprs()[0] == 0,
        forall|j: int| 0 <= j < 32 && j != i ==> n.gprs()[j] == v.gprs()[j],
{
    crate::regs::GeneralPurposeRegisters::lemma_len(n.regs.guest_regs.gprs);
}

/// Unbinding right after binding, with the guest not run in between (the
/// hart still holds what `bind` installed), gives back the vCPU unchanged.
pub proof fn lemma_bind_unbind_round_trip(v: RISCVVCpu)
    ensures
        v.unbound_from(v.bound_csrs()) == v,
{
    assert(v.unbound_from(v.bound_csrs()).regs == v.regs);
}

/// Whatever the hart holds at unbind (the guest may have written its CSRs),
/// the vCPU keeps exactly that, and the next bind installs it again;
/// nothing else in the vCPU changes.
pub proof fn lemma_unbind_then_bind(v: RISCVVCpu, hw: HartCsrs)
    ensures
        v.unbound_from(hw).bound_csrs() == hw,
        v.unbound_from(hw).regs.guest_regs == v.regs.guest_regs,
        v.unbound_from(hw).regs.trap_csrs == v.regs.trap_csrs,
        v.unbound_from(hw).pt_level == v.pt_level,
{
}

/// After `set_ept_root`, `hgatp`'s MODE is 8, 9 or 10, its VMID is zero,
/// and for a page-aligned root its PPN shifted back by 12 bits is the root
/// within the 56-bit physical address space.
pub proof fn lemma_hgatp_for_root(level: usize, root: u64)
    requires
        root & 0xfffu64 == 0,
    ensures
        hgatp_for_root(level, root) >> 60u64 == 8 || hgatp_for_root(level, root) >> 60u64 == 9
            || hgatp_for_root(level, root) >> 60u64 == 10,
        (hgatp_for_root(level, root) & HGATP_PPN_MASK) << 12u64 == root & 0xff_ffff_ffff_ffffu64,
        (hgatp_for_root(level, root) >> 44u64) & 0xffffu64 == 0,
{
    let m = hgatp_mode_of(level);
    assert(m == 8 || m == 9 || m == 10);
    assert((m == 8 || m == 9 || m == 10) && root & 0xfffu64 == 0 ==> {
        let h = (m << 60u64) | ((root >> 12u64) & 0xfff_ffff_ffffu64);
        &&& (h >> 60u64 == 8 || h >> 60u64 == 9 || h >> 60u64 == 10)
        &&& (h & 0xfff_ffff_ffffu64) << 12u64 == root & 0xff_ffff_ffff_ffffu64
        &&& (h >> 44u64) & 0xffffu64 == 0
    }) by (bit_vector);
}

/// After `setup_current_cpu(vmid)`, `hgatp`'s VMID is the low 16 bits of
/// `vmid`, and its MODE and PPN are as before.
pub proof fn lemma_hgatp_with_vmid(hgatp: u64, vmid: u64)
    ensures
        (hgatp_with_vmid(hgatp, vmid) >> 44u64) & 0xffffu64 == vmid & 0xffffu64,
        hgatp_with_vmid(hgatp, vmid) >> 60u64 == hgatp >> 60u64,
        hgatp_with_vmid(hgatp, vmid) & HGATP_PPN_MASK == hgatp & HGATP_PPN_MASK,
{
    assert({
        let h = (((hgatp >> 60u64) & 0xfu64) << 60u64) | ((vmid & 0xffffu64) << 44u64) | (hgatp
            & 0xfff_ffff_ffffu64);
        &&& (h >> 44u64) & 0xffffu64 == vmid & 0xffffu64
        &&& h >> 60u64 == hgatp >> 60u64
        &&& h & 0xfff_ffff_ffffu64 == hgatp & 0xfff_ffff_ffffu64
    }) by (bit_vector);
}

} // verus!
