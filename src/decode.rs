//! Reconstruction of the memory access behind a guest page fault, from the
//! transformed instruction in `htinst` or from the instruction fetched at
//! the guest's pc.
use vstd::prelude::*;

use crate::VCpuError;
use riscv_decode::Instruction as Ins;

verus! {

/// `htinst` value of a fault on an implicit store of a stage-1 page-table walk.
pub const TINST_PSEUDO_STORE: u32 = 0x3020;
/// `htinst` value of a fault on an implicit load of a stage-1 page-table walk.
pub const TINST_PSEUDO_LOAD: u32 = 0x3000;

/// The width of a memory access.
#[derive(Clone, Copy, Debug, PartialEq, Eq, Structural)]
pub enum AccessWidth {
    /// 8 bits.
    Byte,
    /// 16 bits.
    Word,
    /// 32 bits.
    Dword,
    /// 64 bits.
    Qword,
}

/// What the instruction decoder made of a word, as far as loads and stores go.
/// A load or a store carries its 32-bit encoding (a compressed instruction
/// carries the standard one it expands to).
#[derive(Clone, Copy, Debug, PartialEq, Eq, Structural)]
pub enum RawDecode {
    Load(u32),
    Store(u32),
    /// A valid instruction that is neither a load nor a store.
    Other,
    /// A word that does not decode.
    Invalid,
}

/// The memory access that a faulting instruction makes.
#[derive(Clone, Copy, Debug, PartialEq, Eq, Structural)]
pub enum GuestAccess {
    /// A load into register `reg`, sign-extended or not.
    /// The address is register `base` plus the I-type immediate `offset`.
    Read { width: AccessWidth, reg: u32, signed_ext: bool, base: u32, offset: u32 },
    /// A store of register `reg`; the address is register `base` plus the
    /// S-type immediate `offset`.
    Write { width: AccessWidth, reg: u32, base: u32, offset: u32 },
    /// Not a load or a store.
    Other,
}

/// Bits `[14:12]` of an instruction.
pub open spec fn funct3(w: u32) -> u32 {
    (w >> 12u32) & 7u32
}

/// Destination register of an I-type instruction.
pub open spec fn rd_of(w: u32) -> u32 {
    (w >> 7u32) & 0x1fu32
}

/// First source register.
pub open spec fn rs1_of(w: u32) -> u32 {
    (w >> 15u32) & 0x1fu32
}

/// Second source register of an S-type instruction.
pub open spec fn rs2_of(w: u32) -> u32 {
    (w >> 20u32) & 0x1fu32
}

/// Immediate of an I-type instruction.
pub open spec fn itype_imm(w: u32) -> u32 {
    w >> 20u32
}

/// Immediate of an S-type instruction.
pub open spec fn stype_imm(w: u32) -> u32 {
    ((w >> 20u32) & 0xfe0u32) | ((w >> 7u32) & 0x1fu32)
}

/// A standard (32-bit) load: opcode `0000011` and a defined funct3.
pub open spec fn is_load_word(w: u32) -> bool {
    w & 0x7fu32 == 0x03u32 && funct3(w) != 7
}

/// A standard (32-bit) store: opcode `0100011` and a defined funct3.
pub open spec fn is_store_word(w: u32) -> bool {
    w & 0x7fu32 == 0x23u32 && funct3(w) < 4
}

/// Relies on `riscv_decode::instruction_length`: it returns 2 exactly when
/// bits `[1:0]` of the low half-word are not `11`, and 4 exactly when they
/// are `11` and bits `[4:2]` are not `111`; any other half-word gives a
/// length of 6 or more.
#[verifier::external_body]
fn instruction_length(h: u16) -> (r: usize)
    ensures
        r == 2 <==> h & 3u16 != 3u16,
        r == 4 <==> (h & 3u16 == 3u16 && h & 0x1cu16 != 0x1cu16),
{
    riscv_decode::instruction_length(h)
}

/// What the decoder may return for the word `i`: a standard load or store
/// word decodes to that load or store; any other standard word to something
/// else; a compressed word that decodes to a load or a store gives its
/// standard expansion.
pub open spec fn decoder_allows(i: u32, r: RawDecode) -> bool {
    &&& i & 3u32 == 3u32 && is_load_word(i) ==> r == RawDecode::Load(i)
    &&& i & 3u32 == 3u32 && is_store_word(i) ==> r == RawDecode::Store(i)
    &&& i & 3u32 == 3u32 && !is_load_word(i) && !is_store_word(i) ==> (r == RawDecode::Other || r
        == RawDecode::Invalid)
    &&& r matches RawDecode::Load(w) ==> is_load_word(w)
    &&& r matches RawDecode::Store(w) ==> is_store_word(w)
}

/// What `riscv_decode::decode` makes of the word `i`, as far as loads and
/// stores go; it depends on `i` alone.
pub uninterp spec fn decoded(i: u32) -> RawDecode;

/// Relies on `riscv_decode::decode`: a standard load or store word decodes
/// to that load or store; any other standard word to something else; a
/// compressed word that decodes to a load or a store gives its standard
/// expansion (C.LW, C.LD, C.SW, C.SD, C.SWSP, C.SDSP).
#[verifier::external_body]
fn decode_raw(i: u32) -> (r: RawDecode)
    ensures
        r == decoded(i),
        decoder_allows(i, r),
{
    match riscv_decode::decode(i) {
        Ok(Ins::Lb(t) | Ins::Lh(t) | Ins::Lw(t) | Ins::Ld(t) | Ins::Lbu(t) | Ins::Lhu(t) | Ins::Lwu(t)) => {
            RawDecode::Load(t.0)
        },
        Ok(Ins::Sb(t) | Ins::Sh(t) | Ins::Sw(t) | Ins::Sd(t)) => RawDecode::Store(t.0),
        Ok(_) => RawDecode::Other,
        Err(_) => RawDecode::Invalid,
    }
}

/// Whether `ins` marks a fault on an implicit access of a stage-1 walk.
pub fn instr_is_pseudo(ins: u32) -> (r: bool)
    ensures
        r <==> (ins == TINST_PSEUDO_STORE || ins == TINST_PSEUDO_LOAD),
{
    ins == TINST_PSEUDO_STORE || ins == TINST_PSEUDO_LOAD
}

/// Width of a load or store with the given funct3.
pub open spec fn width_of(f: u32) -> AccessWidth {
    if f & 3 == 0 {
        AccessWidth::Byte
    } else if f & 3 == 1 {
        AccessWidth::Word
    } else if f & 3 == 2 {
        AccessWidth::Dword
    } else {
        AccessWidth::Qword
    }
}

/// The access that a decoded word makes; a word that does not decode is an
/// error.
pub open spec fn access_of(d: RawDecode) -> Result<GuestAccess, VCpuError> {
    match d {
        RawDecode::Load(w) => Ok(
            GuestAccess::Read {
                width: width_of(funct3(w)),
                reg: rd_of(w),
                signed_ext: funct3(w) < 4,
                base: rs1_of(w),
                offset: itype_imm(w),
            },
        ),
        RawDecode::Store(w) => Ok(
            GuestAccess::Write { width: width_of(funct3(w)), reg: rs2_of(w), base: rs1_of(w), offset: stype_imm(w) },
        ),
        RawDecode::Other => Ok(GuestAccess::Other),
        RawDecode::Invalid => Err(VCpuError::Unsupported),
    }
}

fn width_from_funct3(f: u32) -> (r: AccessWidth)
    ensures
        r == width_of(f),
{
    let b = f & 3;
    if b == 0 {
        AccessWidth::Byte
    } else if b == 1 {
        AccessWidth::Word
    } else if b == 2 {
        AccessWidth::Dword
    } else {
        AccessWidth::Qword
    }
}

/// The access that the decoder's result `d` stands for.
pub fn access_of_decoded(d: RawDecode) -> (r: Result<GuestAccess, VCpuError>)
    ensures
        r == access_of(d),
        r matches Ok(GuestAccess::Read { reg, .. }) ==> reg < 32,
        r matches Ok(GuestAccess::Write { reg, .. }) ==> reg < 32,
{
    match d {
        RawDecode::Load(w) => {
            assert((w >> 7u32) & 0x1fu32 < 32) by (bit_vector);
            let f = (w >> 12u32) & 7u32;
            Ok(
                GuestAccess::Read {
                    width: width_from_funct3(f),
                    reg: (w >> 7u32) & 0x1fu32,
                    signed_ext: f < 4,
                    base: (w >> 15u32) & 0x1fu32,
                    offset: w >> 20u32,
                },
            )
        },
        RawDecode::Store(w) => {
            assert((w >> 20u32) & 0x1fu32 < 32) by (bit_vector);
            let f = (w >> 12u32) & 7u32;
            Ok(
                GuestAccess::Write {
                    width: width_from_funct3(f),
                    reg: (w >> 20u32) & 0x1fu32,
                    base: (w >> 15u32) & 0x1fu32,
                    offset: ((w >> 20u32) & 0xfe0u32) | ((w >> 7u32) & 0x1fu32),
                },
            )
        },
        RawDecode::Other => Ok(GuestAccess::Other),
        RawDecode::Invalid => Err(VCpuError::Unsupported),
    }
}

/// The instruction to decode and its length in bytes, when `htinst` holds a
/// transformed instruction (not zero, not a pseudo-instruction): bits `[1:0]`
/// are `01` for a compressed instruction and `11` for a standard one, and bit
/// 1 is set to make it a well-formed standard instruction.
pub open spec fn transformed_of(htinst: u64) -> Option<(u32, usize)> {
    let w = htinst as u32;
    if w & 3 == 1 {
        Some(((w | 2u32) as u32, 2usize))
    } else if w & 3 == 3 {
        Some(((w | 2u32) as u32, 4usize))
    } else {
        None
    }
}

/// The instruction to decode and its length, when it was fetched from guest
/// memory as `raw`.
pub open spec fn fetched_of(raw: u32) -> Option<(u32, usize)> {
    let h = raw as u16;
    if h & 3u16 != 3u16 {
        Some(((raw & 0xffffu32) as u32, 2usize))
    } else if h & 0x1cu16 != 0x1cu16 {
        Some((raw, 4usize))
    } else {
        None
    }
}

/// Where the faulting instruction comes from: `htinst` when it holds one,
/// else the word fetched at the guest pc (`htinst == 0`). A pseudo-instruction
/// (a fault on a stage-1 walk) or a length other than 2 or 4 is unsupported.
pub open spec fn instr_source(htinst: u64, fetched: u32) -> Result<(u32, usize), VCpuError> {
    if htinst == 0 {
        match fetched_of(fetched) {
            Some(p) => Ok(p),
            None => Err(VCpuError::Unsupported),
        }
    } else if htinst as u32 == TINST_PSEUDO_STORE || htinst as u32 == TINST_PSEUDO_LOAD {
        Err(VCpuError::Unsupported)
    } else {
        match transformed_of(htinst) {
            Some(p) => Ok(p),
            None => Err(VCpuError::Unsupported),
        }
    }
}

/// Picks the instruction to decode and its length, as [`instr_source`] says.
/// `fetched` is only read when `htinst` is zero.
pub fn select_instr(htinst: u64, fetched: u32) -> (r: Result<(u32, usize), VCpuError>)
    ensures
        r == instr_source(htinst, fetched),
{
    if htinst == 0 {
        let len = instruction_length(fetched as u16);
        if len == 2 {
            Ok((fetched & 0xffff, 2))
        } else if len == 4 {
            Ok((fetched, 4))
        } else {
            Err(VCpuError::Unsupported)
        }
    } else if instr_is_pseudo(htinst as u32) {
        Err(VCpuError::Unsupported)
    } else {
        let w = htinst as u32;
        if w & 3 == 1 {
            Ok((w | 2, 2))
        } else if w & 3 == 3 {
            Ok((w | 2, 4))
        } else {
            Err(VCpuError::Unsupported)
        }
    }
}

/// The access of a decoded word, paired with the instruction's length.
pub open spec fn with_len(a: Result<GuestAccess, VCpuError>, len: usize) -> Result<(GuestAccess, usize), VCpuError> {
    match a {
        Ok(x) => Ok((x, len)),
        Err(e) => Err(e),
    }
}

/// Decodes the faulting instruction: the access it makes and its length.
/// The result is the access of what the decoder makes of the selected
/// word; for a standard load or store word that is the word itself.
pub fn decode_instr_at(htinst: u64, fetched: u32) -> (r: Result<(GuestAccess, usize), VCpuError>)
    ensures
        instr_source(htinst, fetched) is Err ==> r == Err::<(GuestAccess, usize), VCpuError>(
            VCpuError::Unsupported,
        ),
        instr_source(htinst, fetched) matches Ok((w, len)) ==> r == with_len(access_of(decoded(w)), len),
        instr_source(htinst, fetched) matches Ok((w, _)) ==> decoder_allows(w, decoded(w)),
        r is Err ==> r == Err::<(GuestAccess, usize), VCpuError>(VCpuError::Unsupported),
        r matches Ok((GuestAccess::Read { reg, .. }, _)) ==> reg < 32,
        r matches Ok((GuestAccess::Write { reg, .. }, _)) ==> reg < 32,
{
    let (w, len) = match select_instr(htinst, fetched) {
        Ok(p) => p,
        Err(e) => {
            return Err(e);
        },
    };
    let d = decode_raw(w);
    let r = match access_of_decoded(d) {
        Ok(a) => Ok((a, len)),
        Err(e) => Err(e),
    };
    r
}

/// The standard encoding of a load with funct3 `f`: I-type, opcode
/// `0000011`.
pub open spec fn encode_load(f: u32, rd: u32, rs1: u32, imm: u32) -> u32 {
    ((imm << 20u32) | (rs1 << 15u32) | (f << 12u32) | (rd << 7u32) | 0x03u32) as u32
}

/// The standard encoding of a store with funct3 `f`: S-type, opcode
/// `0100011`, the immediate split into bits `[31:25]` and `[11:7]`.
pub open spec fn encode_store(f: u32, rs1: u32, rs2: u32, imm: u32) -> u32 {
    (((imm >> 5u32) << 25u32) | (rs2 << 20u32) | (rs1 << 15u32) | (f << 12u32) | ((imm & 0x1fu32) << 7u32)
        | 0x23u32) as u32
}

/// Any load (LB, LH, LW, LD, LBU, LHU, LWU: funct3 0 to 6) with any
/// registers and 12-bit immediate decodes back to itself: the same
/// operation, destination, base and immediate. As a transformed
/// instruction in `htinst` it is taken whole, 4 bytes long.
pub proof fn lemma_load_round_trip(f: u32, rd: u32, rs1: u32, imm: u32)
    requires
        f < 7,
        rd < 32,
        rs1 < 32,
        imm < 4096,
    ensures
        encode_load(f, rd, rs1, imm) & 3 == 3,
        is_load_word(encode_load(f, rd, rs1, imm)),
        funct3(encode_load(f, rd, rs1, imm)) == f,
        rd_of(encode_load(f, rd, rs1, imm)) == rd,
        rs1_of(encode_load(f, rd, rs1, imm)) == rs1,
        itype_imm(encode_load(f, rd, rs1, imm)) == imm,
        transformed_of(encode_load(f, rd, rs1, imm) as u64) == Some((encode_load(f, rd, rs1, imm), 4usize)),
        access_of(RawDecode::Load(encode_load(f, rd, rs1, imm))) == Ok::<GuestAccess, VCpuError>(
            GuestAccess::Read { width: width_of(f), reg: rd, signed_ext: f < 4, base: rs1, offset: imm },
        ),
{
    let w = encode_load(f, rd, rs1, imm);
    assert(f < 7 && rd < 32 && rs1 < 32 && imm < 4096 ==> {
        let x = (imm << 20u32) | (rs1 << 15u32) | (f << 12u32) | (rd << 7u32) | 0x03u32;
        &&& x & 3 == 3
        &&& x & 0x7f == 0x03
        &&& (x >> 12u32) & 7 == f
        &&& (x >> 7u32) & 0x1f == rd
        &&& (x >> 15u32) & 0x1f == rs1
        &&& x >> 20u32 == imm
        &&& x | 2 == x
    }) by (bit_vector);
    assert((w as u64) as u32 == w);
}

/// Any store (SB, SH, SW, SD: funct3 0 to 3) with any registers and 12-bit
/// immediate decodes back to itself: the same operation, base, source and
/// immediate. As a transformed instruction it is taken whole, 4 bytes long.
pub proof fn lemma_store_round_trip(f: u32, rs1: u32, rs2: u32, imm: u32)
    requires
        f < 4,
        rs1 < 32,
        rs2 < 32,
        imm < 4096,
    ensures
        encode_store(f, rs1, rs2, imm) & 3 == 3,
        is_store_word(encode_store(f, rs1, rs2, imm)),
        funct3(encode_store(f, rs1, rs2, imm)) == f,
        rs1_of(encode_store(f, rs1, rs2, imm)) == rs1,
        rs2_of(encode_store(f, rs1, rs2, imm)) == rs2,
        stype_imm(encode_store(f, rs1, rs2, imm)) == imm,
        transformed_of(encode_store(f, rs1, rs2, imm) as u64) == Some((encode_store(f, rs1, rs2, imm), 4usize)),
        access_of(RawDecode::Store(encode_store(f, rs1, rs2, imm))) == Ok::<GuestAccess, VCpuError>(
            GuestAccess::Write { width: width_of(f), reg: rs2, base: rs1, offset: imm },
        ),
{
    let w = encode_store(f, rs1, rs2, imm);
    assert(f < 4 && rs1 < 32 && rs2 < 32 && imm < 4096 ==> {
        let x = ((imm >> 5u32) << 25u32) | (rs2 << 20u32) | (rs1 << 15u32) | (f << 12u32) | ((imm
            & 0x1fu32) << 7u32) | 0x23u32;
        &&& x & 3 == 3
        &&& x & 0x7f == 0x23
        &&& (x >> 12u32) & 7 == f
        &&& (x >> 15u32) & 0x1f == rs1
        &&& (x >> 20u32) & 0x1f == rs2
        &&& ((x >> 20u32) & 0xfe0u32) | ((x >> 7u32) & 0x1fu32) == imm
        &&& x | 2 == x
    }) by (bit_vector);
    assert((w as u64) as u32 == w);
}

} // verus!
