//! The guest register file: general-purpose registers, the host and guest
//! supervisor state, the virtual-supervisor CSRs, the shadowed hypervisor CSRs
//! and the trap CSRs captured at a VM-exit.
use vstd::prelude::*;

verus! {

/// Index of a general-purpose register, by its ABI name (`x0` to `x31`).
#[derive(Clone, Copy, Debug, PartialEq, Eq, Structural)]
pub enum GprIndex {
    Zero,
    RA,
    SP,
    GP,
    TP,
    T0,
    T1,
    T2,
    S0,
    S1,
    A0,
    A1,
    A2,
    A3,
    A4,
    A5,
    A6,
    A7,
    S2,
    S3,
    S4,
    S5,
    S6,
    S7,
    S8,
    S9,
    S10,
    S11,
    T3,
    T4,
    T5,
    T6,
}

impl GprIndex {
    /// The register number `n` of `xn`.
    pub open spec fn spec_raw(self) -> u32 {
        match self {
            GprIndex::Zero => 0,
            GprIndex::RA => 1,
            GprIndex::SP => 2,
            GprIndex::GP => 3,
            GprIndex::TP => 4,
            GprIndex::T0 => 5,
            GprIndex::T1 => 6,
            GprIndex::T2 => 7,
            GprIndex::S0 => 8,
            GprIndex::S1 => 9,
            GprIndex::A0 => 10,
            GprIndex::A1 => 11,
            GprIndex::A2 => 12,
            GprIndex::A3 => 13,
            GprIndex::A4 => 14,
            GprIndex::A5 => 15,
            GprIndex::A6 => 16,
            GprIndex::A7 => 17,
            GprIndex::S2 => 18,
            GprIndex::S3 => 19,
            GprIndex::S4 => 20,
            GprIndex::S5 => 21,
            GprIndex::S6 => 22,
            GprIndex::S7 => 23,
            GprIndex::S8 => 24,
            GprIndex::S9 => 25,
            GprIndex::S10 => 26,
            GprIndex::S11 => 27,
            GprIndex::T3 => 28,
            GprIndex::T4 => 29,
            GprIndex::T5 => 30,
            GprIndex::T6 => 31,
        }
    }

    /// The register number `n` of `xn`.
    pub fn raw(self) -> (r: u32)
        ensures
            r == self.spec_raw(),
            r < 32,
    {
        match self {
            GprIndex::Zero => 0,
            GprIndex::RA => 1,
            GprIndex::SP => 2,
            GprIndex::GP => 3,
            GprIndex::TP => 4,
            GprIndex::T0 => 5,
            GprIndex::T1 => 6,
            GprIndex::T2 => 7,
            GprIndex::S0 => 8,
            GprIndex::S1 => 9,
            GprIndex::A0 => 10,
            GprIndex::A1 => 11,
            GprIndex::A2 => 12,
            GprIndex::A3 => 13,
            GprIndex::A4 => 14,
            GprIndex::A5 => 15,
            GprIndex::A6 => 16,
            GprIndex::A7 => 17,
            GprIndex::S2 => 18,
            GprIndex::S3 => 19,
            GprIndex::S4 => 20,
            GprIndex::S5 => 21,
            GprIndex::S6 => 22,
            GprIndex::S7 => 23,
            GprIndex::S8 => 24,
            GprIndex::S9 => 25,
            GprIndex::S10 => 26,
            GprIndex::S11 => 27,
            GprIndex::T3 => 28,
            GprIndex::T4 => 29,
            GprIndex::T5 => 30,
            GprIndex::T6 => 31,
        }
    }

    /// The register `x<raw>`, if `raw` names one.
    pub fn from_raw(raw: u32) -> (r: Option<GprIndex>)
        ensures
            r.is_some() <==> raw < 32,
            r matches Some(g) ==> g.spec_raw() == raw,
    {
        match raw {
            0 => Some(GprIndex::Zero),
            1 => Some(GprIndex::RA),
            2 => Some(GprIndex::SP),
            3 => Some(GprIndex::GP),
            4 => Some(GprIndex::TP),
            5 => Some(GprIndex::T0),
            6 => Some(GprIndex::T1),
            7 => Some(GprIndex::T2),
            8 => Some(GprIndex::S0),
            9 => Some(GprIndex::S1),
            10 => Some(GprIndex::A0),
            11 => Some(GprIndex::A1),
            12 => Some(GprIndex::A2),
            13 => Some(GprIndex::A3),
            14 => Some(GprIndex::A4),
            15 => Some(GprIndex::A5),
            16 => Some(GprIndex::A6),
            17 => Some(GprIndex::A7),
            18 => Some(GprIndex::S2),
            19 => Some(GprIndex::S3),
            20 => Some(GprIndex::S4),
            21 => Some(GprIndex::S5),
            22 => Some(GprIndex::S6),
            23 => Some(GprIndex::S7),
            24 => Some(GprIndex::S8),
            25 => Some(GprIndex::S9),
            26 => Some(GprIndex::S10),
            27 => Some(GprIndex::S11),
            28 => Some(GprIndex::T3),
            29 => Some(GprIndex::T4),
            30 => Some(GprIndex::T5),
            31 => Some(GprIndex::T6),
            _ => None,
        }
    }
}

/// The 32 general-purpose registers; `x0` always reads as zero.
#[derive(Clone, Copy, Debug)]
pub struct GeneralPurposeRegisters {
    regs: [u64; 32],
}

impl GeneralPurposeRegisters {
    #[verifier::type_invariant]
    spec fn inv(&self) -> bool {
        self.regs@[0] == 0
    }

    /// The register values, `x0` first; `x0` is zero.
    pub closed spec fn view(&self) -> Seq<u64> {
        self.regs@.update(0, 0)
    }

    /// There are 32 registers and `x0` is zero.
    pub broadcast proof fn lemma_len(g: GeneralPurposeRegisters)
        ensures
            #[trigger] g@.len() == 32,
            g@[0] == 0,
    {
    }

    /// All registers zero.
    pub fn new() -> (r: Self)
        ensures
            r@.len() == 32,
            r@ == Seq::new(32, |_i: int| 0u64),
    {
        let r = GeneralPurposeRegisters { regs: [0u64; 32] };
        assert(r.regs@.update(0, 0) =~= Seq::new(32, |_i: int| 0u64));
        r
    }

    /// The value of register `index`.
    pub fn reg(&self, index: GprIndex) -> (r: u64)
        ensures
            r == self@[index.spec_raw() as int],
            index == GprIndex::Zero ==> r == 0,
    {
        proof { use_type_invariant(self); }
        let i = index.raw() as usize;
        self.regs[i]
    }

    /// Sets register `index` to `val`; a write to `x0` is ignored.
    pub fn set_reg(&mut self, index: GprIndex, val: u64)
        ensures
            final(self)@.len() == old(self)@.len(),
            final(self)@ == if index == GprIndex::Zero {
                old(self)@
            } else {
                old(self)@.update(index.spec_raw() as int, val)
            },
    {
        proof { use_type_invariant(&*self); }
        let i = index.raw() as usize;
        if i != 0 {
            self.regs[i] = val;
            assert(self.regs@.update(0, 0) =~= old(self)@.update(index.spec_raw() as int, val));
        }
    }

    /// The argument registers `a0` to `a7`.
    pub fn a_regs(&self) -> (r: [u64; 8])
        ensures
            r@ == self@.subrange(10, 18),
    {
        let r = [
            self.regs[10],
            self.regs[11],
            self.regs[12],
            self.regs[13],
            self.regs[14],
            self.regs[15],
            self.regs[16],
            self.regs[17],
        ];
        proof { use_type_invariant(self); }
        assert(r@ =~= self@.subrange(10, 18));
        r
    }
}

impl Default for GeneralPurposeRegisters {
    fn default() -> (r: Self)
        ensures
            r@ == Seq::new(32, |_i: int| 0u64),
    {
        Self::new()
    }
}

/// Guest or host hart state that the world switch saves and restores.
#[derive(Clone, Copy, Debug)]
pub struct CpuState {
    /// General-purpose registers.
    pub gprs: GeneralPurposeRegisters,
    /// `sstatus` at the last switch.
    pub sstatus: u64,
    /// `hstatus` at the last switch.
    pub hstatus: u64,
    /// `sepc` at the last switch: for the guest, the pc it resumes at.
    pub sepc: u64,
}

impl CpuState {
    /// All registers zero.
    pub fn new() -> (r: Self)
        ensures
            r.gprs@ == Seq::new(32, |_i: int| 0u64),
            r.sstatus == 0,
            r.hstatus == 0,
            r.sepc == 0,
    {
        CpuState { gprs: GeneralPurposeRegisters::new(), sstatus: 0, hstatus: 0, sepc: 0 }
    }
}

/// The virtual-supervisor CSRs of a guest hart, kept in memory while the
/// vCPU is unbound and installed into hardware when it is bound.
#[derive(Clone, Copy, Debug, PartialEq, Eq, Structural)]
pub struct VsCsrs {
    pub vsatp: u64,
    pub vstvec: u64,
    pub vsepc: u64,
    pub vstval: u64,
    pub vscause: u64,
    pub vsscratch: u64,
    pub vsstatus: u64,
    pub vsie: u64,
    pub htimedelta: u64,
}

impl VsCsrs {
    /// Every CSR zero.
    pub open spec fn zeroed() -> VsCsrs {
        VsCsrs {
            vsatp: 0,
            vstvec: 0,
            vsepc: 0,
            vstval: 0,
            vscause: 0,
            vsscratch: 0,
            vsstatus: 0,
            vsie: 0,
            htimedelta: 0,
        }
    }

    /// All CSRs zero.
    pub fn new() -> (r: Self)
        ensures
            r == VsCsrs::zeroed(),
    {
        VsCsrs {
            vsatp: 0,
            vstvec: 0,
            vsepc: 0,
            vstval: 0,
            vscause: 0,
            vsscratch: 0,
            vsstatus: 0,
            vsie: 0,
            htimedelta: 0,
        }
    }
}

/// Hypervisor CSRs that belong to one vCPU: written to hardware when it is
/// bound, read back when it is unbound.
#[derive(Clone, Copy, Debug, PartialEq, Eq, Structural)]
pub struct HypervisorCsrs {
    /// The G-stage root: `[63:60]` MODE, `[59:44]` VMID, `[43:0]` PPN.
    pub hgatp: u64,
}

/// The trap CSRs, captured right after a VM-exit.
#[derive(Clone, Copy, Debug, PartialEq, Eq, Structural)]
pub struct TrapCsrs {
    pub stval: u64,
    pub htval: u64,
    pub htinst: u64,
    pub scause: u64,
}

/// The guest physical address of a guest page fault:
/// `htval` holds it shifted right by two, `stval` its low two bits.
pub open spec fn fault_addr_of(t: TrapCsrs) -> u64 {
    ((t.htval << 2u64) | (t.stval & 3u64)) as u64
}

impl TrapCsrs {
    /// All CSRs zero.
    pub fn new() -> (r: Self)
        ensures
            r == (TrapCsrs { stval: 0, htval: 0, htinst: 0, scause: 0 }),
    {
        TrapCsrs { stval: 0, htval: 0, htinst: 0, scause: 0 }
    }

    /// The guest physical address that faulted.
    pub fn gpt_page_fault_addr(&self) -> (r: u64)
        ensures
            r == fault_addr_of(*self),
    {
        (self.htval << 2u64) | (self.stval & 3u64)
    }
}

/// The whole register file of a vCPU.
#[derive(Clone, Copy, Debug)]
pub struct VmCpuRegisters {
    /// Host state saved while the guest runs.
    pub host_regs: CpuState,
    /// Guest state at the last VM-exit.
    pub guest_regs: CpuState,
    /// Virtual-supervisor CSRs while the vCPU is unbound.
    pub vs_csrs: VsCsrs,
    /// Hypervisor CSRs of this vCPU.
    pub virtual_hs_csrs: HypervisorCsrs,
    /// Trap CSRs of the last VM-exit.
    pub trap_csrs: TrapCsrs,
}

impl VmCpuRegisters {
    /// Every register zero.
    pub fn new() -> (r: Self)
        ensures
            r.host_regs.gprs@ == Seq::new(32, |_i: int| 0u64),
            r.guest_regs.gprs@ == Seq::new(32, |_i: int| 0u64),
            r.host_regs.sstatus == 0 && r.host_regs.hstatus == 0 && r.host_regs.sepc == 0,
            r.guest_regs.sstatus == 0 && r.guest_regs.hstatus == 0 && r.guest_regs.sepc == 0,
            r.vs_csrs == VsCsrs::zeroed(),
            r.virtual_hs_csrs.hgatp == 0,
            r.trap_csrs == (TrapCsrs { stval: 0, htval: 0, htinst: 0, scause: 0 }),
    {
        VmCpuRegisters {
            host_regs: CpuState::new(),
            guest_regs: CpuState::new(),
            vs_csrs: VsCsrs::new(),
            virtual_hs_csrs: HypervisorCsrs { hgatp: 0 },
            trap_csrs: TrapCsrs::new(),
        }
    }
}

} // verus!
