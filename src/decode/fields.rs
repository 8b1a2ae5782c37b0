//! Field extraction for 32-bit words: each field and each immediate layout
//! stated arithmetically, with the format records that carry them.
use vstd::prelude::*;
use vstd::arithmetic::power2::lemma2_to64;
use crate::imm::{Imm, Uimm};
use crate::model::{BType, CsrIType, CsrRType, IType, JType, R4Type, RType, SType, UType};

verus! {

pub open spec fn opcode_of(w: u32) -> u32 {
    w % 128
}

pub open spec fn rd_of(w: u32) -> u8 {
    ((w / 128) % 32) as u8
}

pub open spec fn funct3_of(w: u32) -> u8 {
    ((w / 4096) % 8) as u8
}

pub open spec fn rs1_of(w: u32) -> u8 {
    ((w / 32768) % 32) as u8
}

pub open spec fn rs2_of(w: u32) -> u8 {
    ((w / 1048576) % 32) as u8
}

pub open spec fn funct7_of(w: u32) -> u8 {
    (w / 33554432) as u8
}

/// Bits 31..27: the atomic sub-operation, or the floating-point operation group.
pub open spec fn funct5_of(w: u32) -> u8 {
    (w / 134217728) as u8
}

/// Bits 26..25: the floating-point format.
pub open spec fn funct2_of(w: u32) -> u8 {
    ((w / 33554432) % 4) as u8
}

pub open spec fn funct12_of(w: u32) -> u32 {
    w / 1048576
}

/// I immediate: bits 31..20.
pub open spec fn imm_i_bits(w: u32) -> u32 {
    w / 1048576
}

/// S immediate: bits 31..25 above bits 11..7.
pub open spec fn imm_s_bits(w: u32) -> u32 {
    ((w / 33554432) * 32 + (w / 128) % 32) as u32
}

/// B immediate: bit 31 to imm[12], bit 7 to imm[11], bits 30..25 to imm[10:5],
/// bits 11..8 to imm[4:1]; imm[0] is zero.
pub open spec fn imm_b_bits(w: u32) -> u32 {
    ((w / 2147483648) * 4096 + ((w / 128) % 2) * 2048 + ((w / 33554432) % 64) * 32 + ((w / 256)
        % 16) * 2) as u32
}

/// U immediate: bits 31..12 in place, low twelve bits zero.
pub open spec fn imm_u_bits(w: u32) -> u32 {
    ((w / 4096) * 4096) as u32
}

/// J immediate: bit 31 to imm[20], bits 19..12 to imm[19:12], bit 20 to imm[11],
/// bits 30..21 to imm[10:1]; imm[0] is zero.
pub open spec fn imm_j_bits(w: u32) -> u32 {
    ((w / 2147483648) * 1048576 + ((w / 4096) % 256) * 4096 + ((w / 1048576) % 2) * 2048 + ((w
        / 2097152) % 1024) * 2) as u32
}

pub open spec fn r_fields(w: u32) -> RType {
    RType { rd: rd_of(w), rs1: rs1_of(w), rs2: rs2_of(w), funct3: funct3_of(w),
        funct7: funct7_of(w) }
}

pub open spec fn i_fields(w: u32) -> IType {
    IType { rd: rd_of(w), rs1: rs1_of(w), funct3: funct3_of(w), imm: Imm { bits: imm_i_bits(w),
        width: 12 } }
}

/// An immediate shift: the shift amount alone, 5 or 6 bits wide.
pub open spec fn shift_fields(w: u32, width: u8) -> IType {
    IType {
        rd: rd_of(w),
        rs1: rs1_of(w),
        funct3: funct3_of(w),
        imm: Imm { bits: if width == 5 { (w / 1048576) % 32 } else { (w / 1048576) % 64 }, width },
    }
}

pub open spec fn s_fields(w: u32) -> SType {
    SType { rs1: rs1_of(w), rs2: rs2_of(w), funct3: funct3_of(w), imm: Imm { bits: imm_s_bits(w),
        width: 12 } }
}

pub open spec fn b_fields(w: u32) -> BType {
    BType { rs1: rs1_of(w), rs2: rs2_of(w), funct3: funct3_of(w), imm: Imm { bits: imm_b_bits(w),
        width: 13 } }
}

pub open spec fn u_fields(w: u32) -> UType {
    UType { rd: rd_of(w), imm: Imm { bits: imm_u_bits(w), width: 32 } }
}

pub open spec fn j_fields(w: u32) -> JType {
    JType { rd: rd_of(w), imm: Imm { bits: imm_j_bits(w), width: 21 } }
}

pub open spec fn csr_r_fields(w: u32) -> CsrRType {
    CsrRType { rd: rd_of(w), rs1: rs1_of(w), funct3: funct3_of(w), csr: (w / 1048576) as u16 }
}

pub open spec fn csr_i_fields(w: u32) -> CsrIType {
    CsrIType {
        rd: rd_of(w),
        uimm: Uimm { bits: rs1_of(w) as u32, width: 5 },
        funct3: funct3_of(w),
        csr: (w / 1048576) as u16,
    }
}

pub open spec fn r4_fields(w: u32) -> R4Type {
    R4Type {
        rd: rd_of(w),
        rs1: rs1_of(w),
        rs2: rs2_of(w),
        rs3: funct5_of(w),
        funct3: funct3_of(w),
        funct2: funct2_of(w),
    }
}

pub fn get_r(w: u32) -> (r: RType)
    ensures
        r == r_fields(w),
        r.wf(),
{
    RType {
        rd: ((w / 128) % 32) as u8,
        rs1: ((w / 32768) % 32) as u8,
        rs2: ((w / 1048576) % 32) as u8,
        funct3: ((w / 4096) % 8) as u8,
        funct7: (w / 33554432) as u8,
    }
}

pub fn get_i(w: u32) -> (r: IType)
    ensures
        r == i_fields(w),
        r.wf(),
{
    proof {
        lemma2_to64();
    }
    IType {
        rd: ((w / 128) % 32) as u8,
        rs1: ((w / 32768) % 32) as u8,
        funct3: ((w / 4096) % 8) as u8,
        imm: Imm { bits: w / 1048576, width: 12 },
    }
}

pub fn get_shift(w: u32, width: u8) -> (r: IType)
    requires
        width == 5 || width == 6,
    ensures
        r == shift_fields(w, width),
        r.wf(),
{
    proof {
        lemma2_to64();
    }
    let bits = if width == 5 {
        (w / 1048576) % 32
    } else {
        (w / 1048576) % 64
    };
    IType {
        rd: ((w / 128) % 32) as u8,
        rs1: ((w / 32768) % 32) as u8,
        funct3: ((w / 4096) % 8) as u8,
        imm: Imm { bits, width },
    }
}

pub fn get_s(w: u32) -> (r: SType)
    ensures
        r == s_fields(w),
        r.wf(),
{
    proof {
        lemma2_to64();
    }
    SType {
        rs1: ((w / 32768) % 32) as u8,
        rs2: ((w / 1048576) % 32) as u8,
        funct3: ((w / 4096) % 8) as u8,
        imm: Imm { bits: (w / 33554432) * 32 + (w / 128) % 32, width: 12 },
    }
}

pub fn get_b(w: u32) -> (r: BType)
    ensures
        r == b_fields(w),
        r.wf(),
{
    proof {
        lemma2_to64();
    }
    let bits = (w / 2147483648) * 4096 + ((w / 128) % 2) * 2048 + ((w / 33554432) % 64) * 32 + ((w
        / 256) % 16) * 2;
    BType {
        rs1: ((w / 32768) % 32) as u8,
        rs2: ((w / 1048576) % 32) as u8,
        funct3: ((w / 4096) % 8) as u8,
        imm: Imm { bits, width: 13 },
    }
}

pub fn get_u(w: u32) -> (r: UType)
    ensures
        r == u_fields(w),
        r.wf(),
{
    proof {
        lemma2_to64();
    }
    UType { rd: ((w / 128) % 32) as u8, imm: Imm { bits: (w / 4096) * 4096, width: 32 } }
}

pub fn get_j(w: u32) -> (r: JType)
    ensures
        r == j_fields(w),
        r.wf(),
{
    proof {
        lemma2_to64();
    }
    let bits = (w / 2147483648) * 1048576 + ((w / 4096) % 256) * 4096 + ((w / 1048576) % 2) * 2048
        + ((w / 2097152) % 1024) * 2;
    JType { rd: ((w / 128) % 32) as u8, imm: Imm { bits, width: 21 } }
}

pub fn get_csr_r(w: u32) -> (r: CsrRType)
    ensures
        r == csr_r_fields(w),
        r.wf(),
{
    CsrRType {
        rd: ((w / 128) % 32) as u8,
        rs1: ((w / 32768) % 32) as u8,
        funct3: ((w / 4096) % 8) as u8,
        csr: (w / 1048576) as u16,
    }
}

pub fn get_csr_i(w: u32) -> (r: CsrIType)
    ensures
        r == csr_i_fields(w),
        r.wf(),
{
    proof {
        lemma2_to64();
    }
    CsrIType {
        rd: ((w / 128) % 32) as u8,
        uimm: Uimm { bits: ((w / 32768) % 32) as u8 as u32, width: 5 },
        funct3: ((w / 4096) % 8) as u8,
        csr: (w / 1048576) as u16,
    }
}

pub fn get_r4(w: u32) -> (r: R4Type)
    ensures
        r == r4_fields(w),
        r.wf(),
{
    R4Type {
        rd: ((w / 128) % 32) as u8,
        rs1: ((w / 32768) % 32) as u8,
        rs2: ((w / 1048576) % 32) as u8,
        rs3: (w / 134217728) as u8,
        funct3: ((w / 4096) % 8) as u8,
        funct2: ((w / 33554432) % 4) as u8,
    }
}

} // verus!
