//! The operand shapes of the assembler's instructions, one reader per shape.
use vstd::prelude::*;
use vstd::arithmetic::power2::lemma2_to64;
use crate::imm::{Imm, Uimm};
use crate::model::{
    register_of, BType, CAType, CBType, CIType, CIWType, CJType, CLType, CRType, CSSType, CSType,
    CsrIType, CsrRType, IType, JType, RType, SType, UType,
};
use super::common::{
    imm_signed_bits, int_of, mem_of, parse_int, parse_mem_operand, parse_register, signed_bits,
};
use crate::text::views;

verus! {

/// Two operands: a register and a 20-bit upper immediate (signed or unsigned reading).
#[verifier::opaque]
pub open spec fn form_u(ops: Seq<Seq<char>>) -> Option<UType> {
    if ops.len() != 2 {
        None
    } else {
        match register_of(ops[0]) {
            Some(rd) => match int_of(ops[1]) {
                Some(v) => if -524288 <= v < 1048576 {
                    Some(UType { rd, imm: Imm { bits: ((v % 1048576) * 4096) as u32, width: 32 } })
                } else {
                    None
                },
                None => None,
            },
            None => None,
        }
    }
}

pub fn parse_u(ops: &Vec<Vec<char>>) -> (r: Result<UType, String>)
    ensures
        r matches Ok(t) ==> form_u(views(ops@)) == Some(t) && t.wf(),
        r is Err <==> form_u(views(ops@)) is None,
{
    proof {
        reveal(form_u);
        lemma2_to64();
    }
    if ops.len() != 2 {
        return Err("expected two operands".to_owned());
    }
    let rd = parse_register(&ops[0])?;
    let v = parse_int(&ops[1])?;
    if !(-524288 <= v && v < 1048576) {
        return Err("upper immediate out of range (20 bits)".to_owned());
    }
    Ok(UType { rd, imm: Imm { bits: (((v + 1048576) % 1048576) as u32) * 4096, width: 32 } })
}

/// Two operands: a register and an even 21-bit signed offset.
#[verifier::opaque]
pub open spec fn form_j(ops: Seq<Seq<char>>) -> Option<JType> {
    if ops.len() != 2 {
        None
    } else {
        match register_of(ops[0]) {
            Some(rd) => match int_of(ops[1]) {
                Some(v) => match signed_bits(v, 21) {
                    Some(b) => if b % 2 == 0 {
                        Some(JType { rd, imm: Imm { bits: b, width: 21 } })
                    } else {
                        None
                    },
                    None => None,
                },
                None => None,
            },
            None => None,
        }
    }
}

pub fn parse_j(ops: &Vec<Vec<char>>) -> (r: Result<JType, String>)
    ensures
        r matches Ok(t) ==> form_j(views(ops@)) == Some(t) && t.wf(),
        r is Err <==> form_j(views(ops@)) is None,
{
    proof {
        reveal(form_j);
        lemma2_to64();
    }
    if ops.len() != 2 {
        return Err("expected two operands".to_owned());
    }
    let rd = parse_register(&ops[0])?;
    let v = parse_int(&ops[1])?;
    let b = imm_signed_bits(v, 21)?;
    if !(b % 2 == 0) {
        return Err("jump offset must be 2-byte aligned".to_owned());
    }
    Ok(JType { rd, imm: Imm { bits: b, width: 21 } })
}

/// Three operands: two registers and an even 13-bit signed offset.
#[verifier::opaque]
pub open spec fn form_b(ops: Seq<Seq<char>>) -> Option<BType> {
    if ops.len() != 3 {
        None
    } else {
        match register_of(ops[0]) {
            Some(rs1) => match register_of(ops[1]) {
                Some(rs2) => match int_of(ops[2]) {
                    Some(v) => match signed_bits(v, 13) {
                        Some(b) => if b % 2 == 0 {
                            Some(BType { rs1, rs2, funct3: 0, imm: Imm { bits: b, width: 13 } })
                        } else {
                            None
                        },
                        None => None,
                    },
                    None => None,
                },
                None => None,
            },
            None => None,
        }
    }
}

pub fn parse_b(ops: &Vec<Vec<char>>) -> (r: Result<BType, String>)
    ensures
        r matches Ok(t) ==> form_b(views(ops@)) == Some(t) && t.wf(),
        r is Err <==> form_b(views(ops@)) is None,
{
    proof {
        reveal(form_b);
        lemma2_to64();
    }
    if ops.len() != 3 {
        return Err("expected three operands".to_owned());
    }
    let rs1 = parse_register(&ops[0])?;
    let rs2 = parse_register(&ops[1])?;
    let v = parse_int(&ops[2])?;
    let b = imm_signed_bits(v, 13)?;
    if !(b % 2 == 0) {
        return Err("branch offset must be 2-byte aligned".to_owned());
    }
    Ok(BType { rs1, rs2, funct3: 0, imm: Imm { bits: b, width: 13 } })
}

/// Two operands: a destination and a memory operand.
#[verifier::opaque]
pub open spec fn form_load(ops: Seq<Seq<char>>) -> Option<IType> {
    if ops.len() != 2 {
        None
    } else {
        match register_of(ops[0]) {
            Some(rd) => match mem_of(ops[1]) {
                Some((b, rs1)) => Some(IType { rd, rs1, funct3: 0, imm: Imm { bits: b,
                    width: 12 } }),
                None => None,
            },
            None => None,
        }
    }
}

pub fn parse_load(ops: &Vec<Vec<char>>) -> (r: Result<IType, String>)
    ensures
        r matches Ok(t) ==> form_load(views(ops@)) == Some(t) && t.wf(),
        r is Err <==> form_load(views(ops@)) is None,
{
    proof {
        reveal(form_load);
        lemma2_to64();
    }
    if ops.len() != 2 {
        return Err("expected two operands".to_owned());
    }
    let rd = parse_register(&ops[0])?;
    let (b, rs1) = parse_mem_operand(&ops[1])?;
    Ok(IType { rd, rs1, funct3: 0, imm: Imm { bits: b, width: 12 } })
}

/// Two operands: a source and a memory operand.
#[verifier::opaque]
pub open spec fn form_store(ops: Seq<Seq<char>>) -> Option<SType> {
    if ops.len() != 2 {
        None
    } else {
        match register_of(ops[0]) {
            Some(rs2) => match mem_of(ops[1]) {
                Some((b, rs1)) => Some(SType { rs1, rs2, funct3: 0, imm: Imm { bits: b,
                    width: 12 } }),
                None => None,
            },
            None => None,
        }
    }
}

pub fn parse_store(ops: &Vec<Vec<char>>) -> (r: Result<SType, String>)
    ensures
        r matches Ok(t) ==> form_store(views(ops@)) == Some(t) && t.wf(),
        r is Err <==> form_store(views(ops@)) is None,
{
    proof {
        reveal(form_store);
        lemma2_to64();
    }
    if ops.len() != 2 {
        return Err("expected two operands".to_owned());
    }
    let rs2 = parse_register(&ops[0])?;
    let (b, rs1) = parse_mem_operand(&ops[1])?;
    Ok(SType { rs1, rs2, funct3: 0, imm: Imm { bits: b, width: 12 } })
}

/// Three operands: two registers and a 12-bit signed immediate.
#[verifier::opaque]
pub open spec fn form_rri(ops: Seq<Seq<char>>) -> Option<IType> {
    if ops.len() != 3 {
        None
    } else {
        match register_of(ops[0]) {
            Some(rd) => match register_of(ops[1]) {
                Some(rs1) => match int_of(ops[2]) {
                    Some(v) => match signed_bits(v, 12) {
                        Some(b) => Some(IType { rd, rs1, funct3: 0, imm: Imm { bits: b,
                            width: 12 } }),
                        None => None,
                    },
                    None => None,
                },
                None => None,
            },
            None => None,
        }
    }
}

pub fn parse_rri(ops: &Vec<Vec<char>>) -> (r: Result<IType, String>)
    ensures
        r matches Ok(t) ==> form_rri(views(ops@)) == Some(t) && t.wf(),
        r is Err <==> form_rri(views(ops@)) is None,
{
    proof {
        reveal(form_rri);
        lemma2_to64();
    }
    if ops.len() != 3 {
        return Err("expected three operands".to_owned());
    }
    let rd = parse_register(&ops[0])?;
    let rs1 = parse_register(&ops[1])?;
    let v = parse_int(&ops[2])?;
    let b = imm_signed_bits(v, 12)?;
    Ok(IType { rd, rs1, funct3: 0, imm: Imm { bits: b, width: 12 } })
}

/// Three register operands.
#[verifier::opaque]
pub open spec fn form_rrr(ops: Seq<Seq<char>>) -> Option<RType> {
    if ops.len() != 3 {
        None
    } else {
        match register_of(ops[0]) {
            Some(rd) => match register_of(ops[1]) {
                Some(rs1) => match register_of(ops[2]) {
                    Some(rs2) => Some(RType { rd, rs1, rs2, funct3: 0, funct7: 0 }),
                    None => None,
                },
                None => None,
            },
            None => None,
        }
    }
}

pub fn parse_rrr(ops: &Vec<Vec<char>>) -> (r: Result<RType, String>)
    ensures
        r matches Ok(t) ==> form_rrr(views(ops@)) == Some(t) && t.wf(),
        r is Err <==> form_rrr(views(ops@)) is None,
{
    proof {
        reveal(form_rrr);
        lemma2_to64();
    }
    if ops.len() != 3 {
        return Err("expected three operands".to_owned());
    }
    let rd = parse_register(&ops[0])?;
    let rs1 = parse_register(&ops[1])?;
    let rs2 = parse_register(&ops[2])?;
    Ok(RType { rd, rs1, rs2, funct3: 0, funct7: 0 })
}

/// Three operands: a destination, a 12-bit CSR number and a source register.
#[verifier::opaque]
pub open spec fn form_csrr(ops: Seq<Seq<char>>) -> Option<CsrRType> {
    if ops.len() != 3 {
        None
    } else {
        match register_of(ops[0]) {
            Some(rd) => match int_of(ops[1]) {
                Some(c) => if 0 <= c <= 4095 {
                    match register_of(ops[2]) {
                        Some(rs1) => Some(CsrRType { rd, rs1, funct3: 0, csr: c as u16 }),
                        None => None,
                    }
                } else {
                    None
                },
                None => None,
            },
            None => None,
        }
    }
}

pub fn parse_csrr(ops: &Vec<Vec<char>>) -> (r: Result<CsrRType, String>)
    ensures
        r matches Ok(t) ==> form_csrr(views(ops@)) == Some(t) && t.wf(),
        r is Err <==> form_csrr(views(ops@)) is None,
{
    proof {
        reveal(form_csrr);
        lemma2_to64();
    }
    if ops.len() != 3 {
        return Err("expected three operands".to_owned());
    }
    let rd = parse_register(&ops[0])?;
    let c = parse_int(&ops[1])?;
    if !(0 <= c && c <= 4095) {
        return Err("CSR number must lie in 0..0xfff".to_owned());
    }
    let rs1 = parse_register(&ops[2])?;
    Ok(CsrRType { rd, rs1, funct3: 0, csr: c as u16 })
}

/// Three operands: a destination, a 12-bit CSR number and a 5-bit unsigned immediate.
#[verifier::opaque]
pub open spec fn form_csri(ops: Seq<Seq<char>>) -> Option<CsrIType> {
    if ops.len() != 3 {
        None
    } else {
        match register_of(ops[0]) {
            Some(rd) => match int_of(ops[1]) {
                Some(c) => if 0 <= c <= 4095 {
                    match int_of(ops[2]) {
                        Some(u) => if 0 <= u <= 31 {
                            Some(CsrIType { rd, uimm: Uimm { bits: u as u32, width: 5 },
                                funct3: 0, csr: c as u16 })
                        } else {
                            None
                        },
                        None => None,
                    }
                } else {
                    None
                },
                None => None,
            },
            None => None,
        }
    }
}

pub fn parse_csri(ops: &Vec<Vec<char>>) -> (r: Result<CsrIType, String>)
    ensures
        r matches Ok(t) ==> form_csri(views(ops@)) == Some(t) && t.wf(),
        r is Err <==> form_csri(views(ops@)) is None,
{
    proof {
        reveal(form_csri);
        lemma2_to64();
    }
    if ops.len() != 3 {
        return Err("expected three operands".to_owned());
    }
    let rd = parse_register(&ops[0])?;
    let c = parse_int(&ops[1])?;
    if !(0 <= c && c <= 4095) {
        return Err("CSR number must lie in 0..0xfff".to_owned());
    }
    let u = parse_int(&ops[2])?;
    if !(0 <= u && u <= 31) {
        return Err("immediate must lie in 0..31".to_owned());
    }
    Ok(CsrIType { rd, uimm: Uimm { bits: u as u32, width: 5 }, funct3: 0, csr: c as u16 })
}

/// Two operands: a register and a non-zero, 4-aligned immediate below 1024.
#[verifier::opaque]
pub open spec fn form_ciw(ops: Seq<Seq<char>>) -> Option<CIWType> {
    if ops.len() != 2 {
        None
    } else {
        match register_of(ops[0]) {
            Some(rd) => match int_of(ops[1]) {
                Some(u) => if 0 < u < 1024 && u % 4 == 0 {
                    Some(CIWType { rd, funct3: 0, uimm: Uimm { bits: u as u32, width: 10 } })
                } else {
                    None
                },
                None => None,
            },
            None => None,
        }
    }
}

pub fn parse_ciw(ops: &Vec<Vec<char>>) -> (r: Result<CIWType, String>)
    ensures
        r matches Ok(t) ==> form_ciw(views(ops@)) == Some(t) && t.wf(),
        r is Err <==> form_ciw(views(ops@)) is None,
{
    proof {
        reveal(form_ciw);
        lemma2_to64();
    }
    if ops.len() != 2 {
        return Err("expected two operands".to_owned());
    }
    let rd = parse_register(&ops[0])?;
    let u = parse_int(&ops[1])?;
    if !(0 < u && u < 1024 && (u as u32) % 4 == 0) {
        return Err("immediate must be non-zero, 4-aligned and below 1024".to_owned());
    }
    Ok(CIWType { rd, funct3: 0, uimm: Uimm { bits: u as u32, width: 10 } })
}

/// One operand: a 12-bit signed offset.
#[verifier::opaque]
pub open spec fn form_cj(ops: Seq<Seq<char>>) -> Option<CJType> {
    if ops.len() != 1 {
        None
    } else {
        match int_of(ops[0]) {
            Some(v) => match signed_bits(v, 12) {
                Some(b) => Some(CJType { funct3: 0, target: Imm { bits: b, width: 12 } }),
                None => None,
            },
            None => None,
        }
    }
}

pub fn parse_cj(ops: &Vec<Vec<char>>) -> (r: Result<CJType, String>)
    ensures
        r matches Ok(t) ==> form_cj(views(ops@)) == Some(t) && t.wf(),
        r is Err <==> form_cj(views(ops@)) is None,
{
    proof {
        reveal(form_cj);
        lemma2_to64();
    }
    if ops.len() != 1 {
        return Err("expected one operand".to_owned());
    }
    let v = parse_int(&ops[0])?;
    let b = imm_signed_bits(v, 12)?;
    Ok(CJType { funct3: 0, target: Imm { bits: b, width: 12 } })
}

/// Two operands: a register and a 9-bit signed offset.
#[verifier::opaque]
pub open spec fn form_cb(ops: Seq<Seq<char>>) -> Option<CBType> {
    if ops.len() != 2 {
        None
    } else {
        match register_of(ops[0]) {
            Some(rs1) => match int_of(ops[1]) {
                Some(v) => match signed_bits(v, 9) {
                    Some(b) => Some(CBType { rs1, funct3: 0, off: Imm { bits: b, width: 9 } }),
                    None => None,
                },
                None => None,
            },
            None => None,
        }
    }
}

pub fn parse_cb(ops: &Vec<Vec<char>>) -> (r: Result<CBType, String>)
    ensures
        r matches Ok(t) ==> form_cb(views(ops@)) == Some(t) && t.wf(),
        r is Err <==> form_cb(views(ops@)) is None,
{
    proof {
        reveal(form_cb);
        lemma2_to64();
    }
    if ops.len() != 2 {
        return Err("expected two operands".to_owned());
    }
    let rs1 = parse_register(&ops[0])?;
    let v = parse_int(&ops[1])?;
    let b = imm_signed_bits(v, 9)?;
    Ok(CBType { rs1, funct3: 0, off: Imm { bits: b, width: 9 } })
}

/// Two operands: a register and a 6-bit signed immediate.
#[verifier::opaque]
pub open spec fn form_ci(ops: Seq<Seq<char>>) -> Option<CIType> {
    if ops.len() != 2 {
        None
    } else {
        match register_of(ops[0]) {
            Some(rd) => match int_of(ops[1]) {
                Some(v) => match signed_bits(v, 6) {
                    Some(b) => Some(CIType { rdrs1: rd, funct3: 0, imm: Imm { bits: b,
                        width: 6 } }),
                    None => None,
                },
                None => None,
            },
            None => None,
        }
    }
}

pub fn parse_ci(ops: &Vec<Vec<char>>) -> (r: Result<CIType, String>)
    ensures
        r matches Ok(t) ==> form_ci(views(ops@)) == Some(t) && t.wf(),
        r is Err <==> form_ci(views(ops@)) is None,
{
    proof {
        reveal(form_ci);
        lemma2_to64();
    }
    if ops.len() != 2 {
        return Err("expected two operands".to_owned());
    }
    let rd = parse_register(&ops[0])?;
    let v = parse_int(&ops[1])?;
    let b = imm_signed_bits(v, 6)?;
    Ok(CIType { rdrs1: rd, funct3: 0, imm: Imm { bits: b, width: 6 } })
}

/// One operand: a 10-bit signed immediate added to sp.
#[verifier::opaque]
pub open spec fn form_ci16(ops: Seq<Seq<char>>) -> Option<CIType> {
    if ops.len() != 1 {
        None
    } else {
        match int_of(ops[0]) {
            Some(v) => match signed_bits(v, 10) {
                Some(b) => Some(CIType { rdrs1: 2, funct3: 0, imm: Imm { bits: b, width: 10 } }),
                None => None,
            },
            None => None,
        }
    }
}

pub fn parse_ci16(ops: &Vec<Vec<char>>) -> (r: Result<CIType, String>)
    ensures
        r matches Ok(t) ==> form_ci16(views(ops@)) == Some(t) && t.wf(),
        r is Err <==> form_ci16(views(ops@)) is None,
{
    proof {
        reveal(form_ci16);
        lemma2_to64();
    }
    if ops.len() != 1 {
        return Err("expected one operand".to_owned());
    }
    let v = parse_int(&ops[0])?;
    let b = imm_signed_bits(v, 10)?;
    Ok(CIType { rdrs1: 2, funct3: 0, imm: Imm { bits: b, width: 10 } })
}

/// Two operands: a register and a shift amount below 64.
#[verifier::opaque]
pub open spec fn form_cshift(ops: Seq<Seq<char>>) -> Option<CIType> {
    if ops.len() != 2 {
        None
    } else {
        match register_of(ops[0]) {
            Some(rd) => match int_of(ops[1]) {
                Some(v) => if 0 <= v < 64 {
                    Some(CIType { rdrs1: rd, funct3: 0, imm: Imm { bits: v as u32, width: 6 } })
                } else {
                    None
                },
                None => None,
            },
            None => None,
        }
    }
}

pub fn parse_cshift(ops: &Vec<Vec<char>>) -> (r: Result<CIType, String>)
    ensures
        r matches Ok(t) ==> form_cshift(views(ops@)) == Some(t) && t.wf(),
        r is Err <==> form_cshift(views(ops@)) is None,
{
    proof {
        reveal(form_cshift);
        lemma2_to64();
    }
    if ops.len() != 2 {
        return Err("expected two operands".to_owned());
    }
    let rd = parse_register(&ops[0])?;
    let v = parse_int(&ops[1])?;
    if !(0 <= v && v < 64) {
        return Err("shift amount must lie in 0..63".to_owned());
    }
    Ok(CIType { rdrs1: rd, funct3: 0, imm: Imm { bits: v as u32, width: 6 } })
}

/// Two register operands.
#[verifier::opaque]
pub open spec fn form_ca(ops: Seq<Seq<char>>) -> Option<CAType> {
    if ops.len() != 2 {
        None
    } else {
        match register_of(ops[0]) {
            Some(rd) => match register_of(ops[1]) {
                Some(rs2) => Some(CAType { rdrs1: rd, rs2, funct2: 0, funct6: 0 }),
                None => None,
            },
            None => None,
        }
    }
}

pub fn parse_ca(ops: &Vec<Vec<char>>) -> (r: Result<CAType, String>)
    ensures
        r matches Ok(t) ==> form_ca(views(ops@)) == Some(t) && t.wf(),
        r is Err <==> form_ca(views(ops@)) is None,
{
    proof {
        reveal(form_ca);
        lemma2_to64();
    }
    if ops.len() != 2 {
        return Err("expected two operands".to_owned());
    }
    let rd = parse_register(&ops[0])?;
    let rs2 = parse_register(&ops[1])?;
    Ok(CAType { rdrs1: rd, rs2, funct2: 0, funct6: 0 })
}

/// Two register operands.
#[verifier::opaque]
pub open spec fn form_cr2(ops: Seq<Seq<char>>) -> Option<CRType> {
    if ops.len() != 2 {
        None
    } else {
        match register_of(ops[0]) {
            Some(rd) => match register_of(ops[1]) {
                Some(rs2) => Some(CRType { rdrs1: rd, rs2, funct4: 0 }),
                None => None,
            },
            None => None,
        }
    }
}

pub fn parse_cr2(ops: &Vec<Vec<char>>) -> (r: Result<CRType, String>)
    ensures
        r matches Ok(t) ==> form_cr2(views(ops@)) == Some(t) && t.wf(),
        r is Err <==> form_cr2(views(ops@)) is None,
{
    proof {
        reveal(form_cr2);
        lemma2_to64();
    }
    if ops.len() != 2 {
        return Err("expected two operands".to_owned());
    }
    let rd = parse_register(&ops[0])?;
    let rs2 = parse_register(&ops[1])?;
    Ok(CRType { rdrs1: rd, rs2, funct4: 0 })
}

/// One register operand.
#[verifier::opaque]
pub open spec fn form_cr1(ops: Seq<Seq<char>>) -> Option<CRType> {
    if ops.len() != 1 {
        None
    } else {
        match register_of(ops[0]) {
            Some(rs1) => Some(CRType { rdrs1: rs1, rs2: 0, funct4: 0 }),
            None => None,
        }
    }
}

pub fn parse_cr1(ops: &Vec<Vec<char>>) -> (r: Result<CRType, String>)
    ensures
        r matches Ok(t) ==> form_cr1(views(ops@)) == Some(t) && t.wf(),
        r is Err <==> form_cr1(views(ops@)) is None,
{
    proof {
        reveal(form_cr1);
        lemma2_to64();
    }
    if ops.len() != 1 {
        return Err("expected one operand".to_owned());
    }
    let rs1 = parse_register(&ops[0])?;
    Ok(CRType { rdrs1: rs1, rs2: 0, funct4: 0 })
}

/// Two operands: a destination and a memory operand.
#[verifier::opaque]
pub open spec fn form_cl(ops: Seq<Seq<char>>) -> Option<CLType> {
    if ops.len() != 2 {
        None
    } else {
        match register_of(ops[0]) {
            Some(rd) => match mem_of(ops[1]) {
                Some((b, rs1)) => Some(CLType { rd, rs1, funct3: 0, imm: Imm { bits: b,
                    width: 12 } }),
                None => None,
            },
            None => None,
        }
    }
}

pub fn parse_cl(ops: &Vec<Vec<char>>) -> (r: Result<CLType, String>)
    ensures
        r matches Ok(t) ==> form_cl(views(ops@)) == Some(t) && t.wf(),
        r is Err <==> form_cl(views(ops@)) is None,
{
    proof {
        reveal(form_cl);
        lemma2_to64();
    }
    if ops.len() != 2 {
        return Err("expected two operands".to_owned());
    }
    let rd = parse_register(&ops[0])?;
    let (b, rs1) = parse_mem_operand(&ops[1])?;
    Ok(CLType { rd, rs1, funct3: 0, imm: Imm { bits: b, width: 12 } })
}

/// Two operands: a source and a memory operand.
#[verifier::opaque]
pub open spec fn form_cs(ops: Seq<Seq<char>>) -> Option<CSType> {
    if ops.len() != 2 {
        None
    } else {
        match register_of(ops[0]) {
            Some(rs2) => match mem_of(ops[1]) {
                Some((b, rs1)) => Some(CSType { rs1, rs2, funct3: 0, imm: Imm { bits: b,
                    width: 12 } }),
                None => None,
            },
            None => None,
        }
    }
}

pub fn parse_cs(ops: &Vec<Vec<char>>) -> (r: Result<CSType, String>)
    ensures
        r matches Ok(t) ==> form_cs(views(ops@)) == Some(t) && t.wf(),
        r is Err <==> form_cs(views(ops@)) is None,
{
    proof {
        reveal(form_cs);
        lemma2_to64();
    }
    if ops.len() != 2 {
        return Err("expected two operands".to_owned());
    }
    let rs2 = parse_register(&ops[0])?;
    let (b, rs1) = parse_mem_operand(&ops[1])?;
    Ok(CSType { rs1, rs2, funct3: 0, imm: Imm { bits: b, width: 12 } })
}

/// Two operands: a destination and a memory operand based on sp.
#[verifier::opaque]
pub open spec fn form_cisp(ops: Seq<Seq<char>>) -> Option<CIType> {
    if ops.len() != 2 {
        None
    } else {
        match register_of(ops[0]) {
            Some(rd) => match mem_of(ops[1]) {
                Some((b, base)) => if base == 2 {
                    Some(CIType { rdrs1: rd, funct3: 0, imm: Imm { bits: b, width: 12 } })
                } else {
                    None
                },
                None => None,
            },
            None => None,
        }
    }
}

pub fn parse_cisp(ops: &Vec<Vec<char>>) -> (r: Result<CIType, String>)
    ensures
        r matches Ok(t) ==> form_cisp(views(ops@)) == Some(t) && t.wf(),
        r is Err <==> form_cisp(views(ops@)) is None,
{
    proof {
        reveal(form_cisp);
        lemma2_to64();
    }
    if ops.len() != 2 {
        return Err("expected two operands".to_owned());
    }
    let rd = parse_register(&ops[0])?;
    let (b, base) = parse_mem_operand(&ops[1])?;
    if !(base == 2) {
        return Err("the base register must be sp".to_owned());
    }
    Ok(CIType { rdrs1: rd, funct3: 0, imm: Imm { bits: b, width: 12 } })
}

/// Two operands: a source and a memory operand based on sp.
#[verifier::opaque]
pub open spec fn form_css(ops: Seq<Seq<char>>) -> Option<CSSType> {
    if ops.len() != 2 {
        None
    } else {
        match register_of(ops[0]) {
            Some(rs2) => match mem_of(ops[1]) {
                Some((b, base)) => if base == 2 {
                    Some(CSSType { rs2, funct3: 0, imm: Imm { bits: b, width: 12 } })
                } else {
                    None
                },
                None => None,
            },
            None => None,
        }
    }
}

pub fn parse_css(ops: &Vec<Vec<char>>) -> (r: Result<CSSType, String>)
    ensures
        r matches Ok(t) ==> form_css(views(ops@)) == Some(t) && t.wf(),
        r is Err <==> form_css(views(ops@)) is None,
{
    proof {
        reveal(form_css);
        lemma2_to64();
    }
    if ops.len() != 2 {
        return Err("expected two operands".to_owned());
    }
    let rs2 = parse_register(&ops[0])?;
    let (b, base) = parse_mem_operand(&ops[1])?;
    if !(base == 2) {
        return Err("the base register must be sp".to_owned());
    }
    Ok(CSSType { rs2, funct3: 0, imm: Imm { bits: b, width: 12 } })
}

/// Three operands: two registers and a shift amount below 32.
#[verifier::opaque]
pub open spec fn form_sh5(ops: Seq<Seq<char>>) -> Option<IType> {
    if ops.len() != 3 {
        None
    } else {
        match register_of(ops[0]) {
            Some(rd) => match register_of(ops[1]) {
                Some(rs1) => match int_of(ops[2]) {
                    Some(v) => if 0 <= v < 32 {
                        Some(IType { rd, rs1, funct3: 0, imm: Imm { bits: v as u32, width: 5 } })
                    } else {
                        None
                    },
                    None => None,
                },
                None => None,
            },
            None => None,
        }
    }
}

pub fn parse_sh5(ops: &Vec<Vec<char>>) -> (r: Result<IType, String>)
    ensures
        r matches Ok(t) ==> form_sh5(views(ops@)) == Some(t) && t.wf(),
        r is Err <==> form_sh5(views(ops@)) is None,
{
    proof {
        reveal(form_sh5);
        lemma2_to64();
    }
    if ops.len() != 3 {
        return Err("expected three operands".to_owned());
    }
    let rd = parse_register(&ops[0])?;
    let rs1 = parse_register(&ops[1])?;
    let v = parse_int(&ops[2])?;
    if !(0 <= v && v < 32) {
        return Err("shift amount must lie in 0..31".to_owned());
    }
    Ok(IType { rd, rs1, funct3: 0, imm: Imm { bits: v as u32, width: 5 } })
}

/// Three operands: two registers and a shift amount below 64.
#[verifier::opaque]
pub open spec fn form_sh6(ops: Seq<Seq<char>>) -> Option<IType> {
    if ops.len() != 3 {
        None
    } else {
        match register_of(ops[0]) {
            Some(rd) => match register_of(ops[1]) {
                Some(rs1) => match int_of(ops[2]) {
                    Some(v) => if 0 <= v < 64 {
                        Some(IType { rd, rs1, funct3: 0, imm: Imm { bits: v as u32, width: 6 } })
                    } else {
                        None
                    },
                    None => None,
                },
                None => None,
            },
            None => None,
        }
    }
}

pub fn parse_sh6(ops: &Vec<Vec<char>>) -> (r: Result<IType, String>)
    ensures
        r matches Ok(t) ==> form_sh6(views(ops@)) == Some(t) && t.wf(),
        r is Err <==> form_sh6(views(ops@)) is None,
{
    proof {
        reveal(form_sh6);
        lemma2_to64();
    }
    if ops.len() != 3 {
        return Err("expected three operands".to_owned());
    }
    let rd = parse_register(&ops[0])?;
    let rs1 = parse_register(&ops[1])?;
    let v = parse_int(&ops[2])?;
    if !(0 <= v && v < 64) {
        return Err("shift amount must lie in 0..63".to_owned());
    }
    Ok(IType { rd, rs1, funct3: 0, imm: Imm { bits: v as u32, width: 6 } })
}

/// The two shapes of JALR: `rd, imm(rs1)` or `rd, rs1, imm`.
pub open spec fn form_jalr(ops: Seq<Seq<char>>) -> Option<IType> {
    if ops.len() == 2 {
        form_load(ops)
    } else {
        form_rri(ops)
    }
}

pub fn parse_jalr(ops: &Vec<Vec<char>>) -> (r: Result<IType, String>)
    ensures
        r matches Ok(t) ==> form_jalr(views(ops@)) == Some(t) && t.wf(),
        r is Err <==> form_jalr(views(ops@)) is None,
{
    if ops.len() == 2 {
        parse_load(ops)
    } else {
        parse_rri(ops)
    }
}

/// No operands.
#[verifier::opaque]
pub open spec fn form_none(ops: Seq<Seq<char>>) -> Option<CIType> {
    if ops.len() != 0 {
        None
    } else {
        Some(CIType { rdrs1: 0, funct3: 0, imm: Imm { bits: 0, width: 6 } })
    }
}

pub fn parse_none(ops: &Vec<Vec<char>>) -> (r: Result<CIType, String>)
    ensures
        r matches Ok(t) ==> form_none(views(ops@)) == Some(t) && t.wf(),
        r is Err <==> form_none(views(ops@)) is None,
{
    proof {
        reveal(form_none);
        lemma2_to64();
    }
    if ops.len() != 0 {
        return Err("expected no operands".to_owned());
    }
    Ok(CIType { rdrs1: 0, funct3: 0, imm: Imm { bits: 0, width: 6 } })
}

} // verus!
