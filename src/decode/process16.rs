//! The 16-bit (compressed) decoder: quadrant and funct3 select the form; each
//! form unscrambles its immediate and widens its 3-bit register fields to x8..x15.
use vstd::prelude::*;
use vstd::arithmetic::power2::lemma2_to64;
use crate::imm::{Imm, Uimm, Xlen};
use crate::model::{
    CAType, CBType, CIType, CIWType, CJType, CLType, CRType, CSSType, CSType, Instruction, RVC,
};

verus! {

/// Bits 15..13.
pub open spec fn c_funct3(w: u16) -> u8 {
    (w / 8192) as u8
}

/// Bits 11..7: a full register.
pub open spec fn c_rd(w: u16) -> u8 {
    ((w / 128) % 32) as u8
}

/// Bits 6..2: a full register.
pub open spec fn c_rs2(w: u16) -> u8 {
    ((w / 4) % 32) as u8
}

/// Bits 9..7 as a register of x8..x15.
pub open spec fn c_rs1p(w: u16) -> u8 {
    ((w / 128) % 8 + 8) as u8
}

/// Bits 4..2 as a register of x8..x15.
pub open spec fn c_rdp(w: u16) -> u8 {
    ((w / 4) % 8 + 8) as u8
}

pub open spec fn c_bit12(w: u16) -> u16 {
    (w / 4096) % 2
}

/// CI immediate: bit 12 to imm[5], bits 6..2 to imm[4:0].
pub open spec fn ci_imm6(w: u16) -> u32 {
    (c_bit12(w) * 32 + (w / 4) % 32) as u32
}

/// C.ADDI4SPN: bits 12..11 to [5:4], bits 10..7 to [9:6], bit 6 to [2], bit 5 to [3].
pub open spec fn ciw_uimm(w: u16) -> u32 {
    (((w / 2048) % 4) * 16 + ((w / 128) % 16) * 64 + ((w / 64) % 2) * 4 + ((w / 32) % 2) * 8) as u32
}

/// C.LW / C.SW: bits 12..10 to [5:3], bit 6 to [2], bit 5 to [6].
pub open spec fn cl_word_off(w: u16) -> u32 {
    (((w / 1024) % 8) * 8 + ((w / 64) % 2) * 4 + ((w / 32) % 2) * 64) as u32
}

/// C.LD / C.SD: bits 12..10 to [5:3], bits 6..5 to [7:6].
pub open spec fn cl_double_off(w: u16) -> u32 {
    (((w / 1024) % 8) * 8 + ((w / 32) % 4) * 64) as u32
}

/// C.LWSP: bit 12 to [5], bits 6..4 to [4:2], bits 3..2 to [7:6].
pub open spec fn lwsp_off(w: u16) -> u32 {
    (c_bit12(w) * 32 + ((w / 16) % 8) * 4 + ((w / 4) % 4) * 64) as u32
}

/// C.LDSP: bit 12 to [5], bits 6..5 to [4:3], bits 4..2 to [8:6].
pub open spec fn ldsp_off(w: u16) -> u32 {
    (c_bit12(w) * 32 + ((w / 32) % 4) * 8 + ((w / 4) % 8) * 64) as u32
}

/// C.SWSP: bits 12..9 to [5:2], bits 8..7 to [7:6].
pub open spec fn swsp_off(w: u16) -> u32 {
    (((w / 512) % 16) * 4 + ((w / 128) % 4) * 64) as u32
}

/// C.SDSP: bits 12..10 to [5:3], bits 9..7 to [8:6].
pub open spec fn sdsp_off(w: u16) -> u32 {
    (((w / 1024) % 8) * 8 + ((w / 128) % 8) * 64) as u32
}

/// C.ADDI16SP: bit 12 to [9], bit 6 to [4], bit 5 to [6], bits 4..3 to [8:7], bit 2 to [5].
pub open spec fn addi16sp_imm(w: u16) -> u32 {
    (c_bit12(w) * 512 + ((w / 64) % 2) * 16 + ((w / 32) % 2) * 64 + ((w / 8) % 4) * 128 + ((w / 4)
        % 2) * 32) as u32
}

/// C.J / C.JAL: bit 12 to [11], bit 11 to [4], bits 10..9 to [9:8], bit 8 to [10],
/// bit 7 to [6], bit 6 to [7], bits 5..3 to [3:1], bit 2 to [5].
pub open spec fn cj_off(w: u16) -> u32 {
    (c_bit12(w) * 2048 + ((w / 2048) % 2) * 16 + ((w / 512) % 4) * 256 + ((w / 256) % 2) * 1024
        + ((w
        / 128) % 2) * 64 + ((w / 64) % 2) * 128 + ((w / 8) % 8) * 2 + ((w / 4) % 2) * 32) as u32
}

/// C.BEQZ / C.BNEZ: bit 12 to [8], bits 11..10 to [4:3], bits 6..5 to [7:6],
/// bits 4..3 to [2:1], bit 2 to [5].
pub open spec fn cb_off(w: u16) -> u32 {
    (c_bit12(w) * 256 + ((w / 1024) % 4) * 8 + ((w / 32) % 4) * 64 + ((w / 8) % 4) * 2 + ((w / 4)
        % 2) * 32) as u32
}

pub open spec fn ci_rec(w: u16, rd: u8, bits: u32, width: u8) -> CIType {
    CIType { rdrs1: rd, funct3: c_funct3(w), imm: Imm { bits, width } }
}

/// Quadrant 0: register-relative loads and stores on x8..x15, and C.ADDI4SPN.
pub open spec fn quadrant0(w: u16, x: Xlen) -> Option<RVC> {
    let f3 = c_funct3(w);
    if f3 == 0 {
        if ciw_uimm(w) == 0 {
            None
        } else {
            Some(RVC::Caddi4spn(CIWType { rd: c_rdp(w), funct3: f3,
                uimm: Uimm { bits: ciw_uimm(w), width: 10 } }))
        }
    } else if f3 == 2 {
        Some(RVC::Clw(CLType { rd: c_rdp(w), rs1: c_rs1p(w), funct3: f3,
            imm: Imm { bits: cl_word_off(w), width: 7 } }))
    } else if f3 == 3 && x != Xlen::X32 {
        Some(RVC::Cld(CLType { rd: c_rdp(w), rs1: c_rs1p(w), funct3: f3,
            imm: Imm { bits: cl_double_off(w), width: 8 } }))
    } else if f3 == 6 {
        Some(RVC::Csw(CSType { rs1: c_rs1p(w), rs2: c_rdp(w), funct3: f3,
            imm: Imm { bits: cl_word_off(w), width: 7 } }))
    } else if f3 == 7 && x != Xlen::X32 {
        Some(RVC::Csd(CSType { rs1: c_rs1p(w), rs2: c_rdp(w), funct3: f3,
            imm: Imm { bits: cl_double_off(w), width: 8 } }))
    } else {
        None
    }
}

/// The arithmetic group of quadrant 1 (funct3 = 100).
pub open spec fn quadrant1_alu(w: u16, x: Xlen) -> Option<RVC> {
    let sub = (w / 1024) % 4;
    let rd = c_rs1p(w);
    if sub == 0 || sub == 1 {
        if x == Xlen::X32 && c_bit12(w) == 1 {
            None
        } else if sub == 0 {
            Some(RVC::Csrli(ci_rec(w, rd, ci_imm6(w), 6)))
        } else {
            Some(RVC::Csrai(ci_rec(w, rd, ci_imm6(w), 6)))
        }
    } else if sub == 2 {
        Some(RVC::Candi(ci_rec(w, rd, ci_imm6(w), 6)))
    } else {
        let f2 = ((w / 32) % 4) as u8;
        let ca = CAType { rdrs1: rd, rs2: c_rdp(w), funct2: f2, funct6: (w / 1024) as u8 };
        if c_bit12(w) == 0 {
            if f2 == 0 {
                Some(RVC::Csub(ca))
            } else if f2 == 1 {
                Some(RVC::Cxor(ca))
            } else if f2 == 2 {
                Some(RVC::Cor(ca))
            } else {
                Some(RVC::Cand(ca))
            }
        } else if x == Xlen::X32 {
            None
        } else if f2 == 0 {
            Some(RVC::Csubw(ca))
        } else if f2 == 1 {
            Some(RVC::Caddw(ca))
        } else {
            None
        }
    }
}

/// Quadrant 1: immediate arithmetic, jumps and branches.
pub open spec fn quadrant1(w: u16, x: Xlen) -> Option<RVC> {
    let f3 = c_funct3(w);
    let rd = c_rd(w);
    if f3 == 0 {
        if rd == 0 {
            Some(RVC::Cnop(ci_rec(w, 0, ci_imm6(w), 6)))
        } else {
            Some(RVC::Caddi(ci_rec(w, rd, ci_imm6(w), 6)))
        }
    } else if f3 == 1 {
        if x == Xlen::X32 {
            Some(RVC::Cjal(CJType { funct3: f3, target: Imm { bits: cj_off(w), width: 12 } }))
        } else if rd != 0 {
            Some(RVC::Caddiw(ci_rec(w, rd, ci_imm6(w), 6)))
        } else {
            None
        }
    } else if f3 == 2 {
        Some(RVC::Cli(ci_rec(w, rd, ci_imm6(w), 6)))
    } else if f3 == 3 {
        if rd == 2 && addi16sp_imm(w) != 0 {
            Some(RVC::Caddi16sp(ci_rec(w, 2, addi16sp_imm(w), 10)))
        } else {
            None
        }
    } else if f3 == 4 {
        quadrant1_alu(w, x)
    } else if f3 == 5 {
        Some(RVC::Cj(CJType { funct3: f3, target: Imm { bits: cj_off(w), width: 12 } }))
    } else if f3 == 6 {
        Some(RVC::Cbeqz(CBType { rs1: c_rs1p(w), funct3: f3, off: Imm { bits: cb_off(w),
            width: 9 } }))
    } else {
        Some(RVC::Cbnez(CBType { rs1: c_rs1p(w), funct3: f3, off: Imm { bits: cb_off(w),
            width: 9 } }))
    }
}

/// Quadrant 2: sp-relative loads and stores, C.SLLI, and the register forms.
pub open spec fn quadrant2(w: u16, x: Xlen) -> Option<RVC> {
    let f3 = c_funct3(w);
    let rd = c_rd(w);
    let rs2 = c_rs2(w);
    if f3 == 0 {
        if rd == 0 || (x == Xlen::X32 && c_bit12(w) == 1) {
            None
        } else {
            Some(RVC::Cslli(ci_rec(w, rd, ci_imm6(w), 6)))
        }
    } else if f3 == 2 {
        if rd == 0 {
            None
        } else {
            Some(RVC::Clwsp(ci_rec(w, rd, lwsp_off(w), 8)))
        }
    } else if f3 == 3 {
        if rd == 0 || x == Xlen::X32 {
            None
        } else {
            Some(RVC::Cldsp(ci_rec(w, rd, ldsp_off(w), 9)))
        }
    } else if f3 == 4 {
        let cr = CRType { rdrs1: rd, rs2, funct4: (w / 4096) as u8 };
        if rd == 0 {
            None
        } else if c_bit12(w) == 0 {
            if rs2 == 0 {
                Some(RVC::Cjr(cr))
            } else {
                Some(RVC::Cmv(cr))
            }
        } else if rs2 == 0 {
            Some(RVC::Cjalr(cr))
        } else {
            Some(RVC::Cadd(cr))
        }
    } else if f3 == 6 {
        Some(RVC::Cswsp(CSSType { rs2, funct3: f3, imm: Imm { bits: swsp_off(w), width: 8 } }))
    } else if f3 == 7 && x != Xlen::X32 {
        Some(RVC::Csdsp(CSSType { rs2, funct3: f3, imm: Imm { bits: sdsp_off(w), width: 9 } }))
    } else {
        None
    }
}

/// The compressed instruction a 16-bit word denotes at the given register width, if any.
pub open spec fn decode16(w: u16, x: Xlen) -> Option<RVC> {
    let q = w % 4;
    if q == 0 {
        quadrant0(w, x)
    } else if q == 1 {
        quadrant1(w, x)
    } else if q == 2 {
        quadrant2(w, x)
    } else {
        None
    }
}

fn mk_ci(w: u16, rd: u8, bits: u32, width: u8) -> (r: CIType)
    requires
        rd < 32,
        width == 6 && bits < 64 || width == 8 && bits < 256 || width == 9 && bits < 512
            || width == 10 && bits < 1024,
    ensures
        r == ci_rec(w, rd, bits, width),
        r.wf(),
{
    proof {
        lemma2_to64();
    }
    CIType { rdrs1: rd, funct3: (w / 8192) as u8, imm: Imm { bits, width } }
}

fn decode_quadrant0(w: u16, x: Xlen) -> (r: Option<RVC>)
    ensures
        r == quadrant0(w, x),
        r matches Some(c) ==> c.wf(),
{
    proof {
        lemma2_to64();
    }
    let v = w as u32;
    let f3 = (w / 8192) as u8;
    let rdp = ((v / 4) % 8 + 8) as u8;
    let rs1p = ((v / 128) % 8 + 8) as u8;
    if f3 == 0 {
        let u = ((v / 2048) % 4) * 16 + ((v / 128) % 16) * 64 + ((v / 64) % 2) * 4
            + ((v / 32) % 2) * 8;
        if u == 0 {
            None
        } else {
            Some(RVC::Caddi4spn(CIWType { rd: rdp, funct3: f3, uimm: Uimm { bits: u, width: 10 } }))
        }
    } else if f3 == 2 {
        let off = ((v / 1024) % 8) * 8 + ((v / 64) % 2) * 4 + ((v / 32) % 2) * 64;
        Some(RVC::Clw(CLType { rd: rdp, rs1: rs1p, funct3: f3, imm: Imm { bits: off, width: 7 } }))
    } else if f3 == 3 && x != Xlen::X32 {
        let off = ((v / 1024) % 8) * 8 + ((v / 32) % 4) * 64;
        Some(RVC::Cld(CLType { rd: rdp, rs1: rs1p, funct3: f3, imm: Imm { bits: off, width: 8 } }))
    } else if f3 == 6 {
        let off = ((v / 1024) % 8) * 8 + ((v / 64) % 2) * 4 + ((v / 32) % 2) * 64;
        Some(RVC::Csw(CSType { rs1: rs1p, rs2: rdp, funct3: f3, imm: Imm { bits: off, width: 7 } }))
    } else if f3 == 7 && x != Xlen::X32 {
        let off = ((v / 1024) % 8) * 8 + ((v / 32) % 4) * 64;
        Some(RVC::Csd(CSType { rs1: rs1p, rs2: rdp, funct3: f3, imm: Imm { bits: off, width: 8 } }))
    } else {
        None
    }
}

fn decode_quadrant1_alu(w: u16, x: Xlen) -> (r: Option<RVC>)
    ensures
        r == quadrant1_alu(w, x),
        r matches Some(c) ==> c.wf(),
{
    let v = w as u32;
    let sub = (v / 1024) % 4;
    let rd = ((v / 128) % 8 + 8) as u8;
    let bit12 = (v / 4096) % 2;
    let imm6 = bit12 * 32 + (v / 4) % 32;
    if sub == 0 || sub == 1 {
        if x == Xlen::X32 && bit12 == 1 {
            None
        } else if sub == 0 {
            Some(RVC::Csrli(mk_ci(w, rd, imm6, 6)))
        } else {
            Some(RVC::Csrai(mk_ci(w, rd, imm6, 6)))
        }
    } else if sub == 2 {
        Some(RVC::Candi(mk_ci(w, rd, imm6, 6)))
    } else {
        let f2 = ((v / 32) % 4) as u8;
        let ca = CAType { rdrs1: rd, rs2: ((v / 4) % 8
            + 8) as u8, funct2: f2, funct6: (w / 1024) as u8 };
        if bit12 == 0 {
            if f2 == 0 {
                Some(RVC::Csub(ca))
            } else if f2 == 1 {
                Some(RVC::Cxor(ca))
            } else if f2 == 2 {
                Some(RVC::Cor(ca))
            } else {
                Some(RVC::Cand(ca))
            }
        } else if x == Xlen::X32 {
            None
        } else if f2 == 0 {
            Some(RVC::Csubw(ca))
        } else if f2 == 1 {
            Some(RVC::Caddw(ca))
        } else {
            None
        }
    }
}

fn decode_quadrant1(w: u16, x: Xlen) -> (r: Option<RVC>)
    ensures
        r == quadrant1(w, x),
        r matches Some(c) ==> c.wf(),
{
    proof {
        lemma2_to64();
    }
    let v = w as u32;
    let f3 = (w / 8192) as u8;
    let rd = ((v / 128) % 32) as u8;
    let bit12 = (v / 4096) % 2;
    let imm6 = bit12 * 32 + (v / 4) % 32;
    if f3 == 0 {
        if rd == 0 {
            Some(RVC::Cnop(mk_ci(w, 0, imm6, 6)))
        } else {
            Some(RVC::Caddi(mk_ci(w, rd, imm6, 6)))
        }
    } else if f3 == 1 {
        if x == Xlen::X32 {
            let off = bit12 * 2048 + ((v / 2048) % 2) * 16 + ((v / 512) % 4) * 256 + ((v / 256) % 2)
                * 1024 + ((v / 128) % 2) * 64 + ((v / 64) % 2) * 128 + ((v / 8) % 8) * 2 + ((v / 4)
                % 2) * 32;
            Some(RVC::Cjal(CJType { funct3: f3, target: Imm { bits: off, width: 12 } }))
        } else if rd != 0 {
            Some(RVC::Caddiw(mk_ci(w, rd, imm6, 6)))
        } else {
            None
        }
    } else if f3 == 2 {
        Some(RVC::Cli(mk_ci(w, rd, imm6, 6)))
    } else if f3 == 3 {
        let imm = bit12 * 512 + ((v / 64) % 2) * 16 + ((v / 32) % 2) * 64 + ((v / 8) % 4) * 128
            + ((v
            / 4) % 2) * 32;
        if rd == 2 && imm != 0 {
            Some(RVC::Caddi16sp(mk_ci(w, 2, imm, 10)))
        } else {
            None
        }
    } else if f3 == 4 {
        decode_quadrant1_alu(w, x)
    } else if f3 == 5 {
        let off = bit12 * 2048 + ((v / 2048) % 2) * 16 + ((v / 512) % 4) * 256 + ((v / 256) % 2)
            * 1024 + ((v / 128) % 2) * 64 + ((v / 64) % 2) * 128 + ((v / 8) % 8) * 2 + ((v / 4) % 2)
            * 32;
        Some(RVC::Cj(CJType { funct3: f3, target: Imm { bits: off, width: 12 } }))
    } else {
        let off = bit12 * 256 + ((v / 1024) % 4) * 8 + ((v / 32) % 4) * 64 + ((v / 8) % 4) * 2 + ((v
            / 4) % 2) * 32;
        let cb = CBType { rs1: ((v / 128) % 8
            + 8) as u8, funct3: f3, off: Imm { bits: off, width: 9 } };
        if f3 == 6 {
            Some(RVC::Cbeqz(cb))
        } else {
            Some(RVC::Cbnez(cb))
        }
    }
}

fn decode_quadrant2(w: u16, x: Xlen) -> (r: Option<RVC>)
    ensures
        r == quadrant2(w, x),
        r matches Some(c) ==> c.wf(),
{
    proof {
        lemma2_to64();
    }
    let v = w as u32;
    let f3 = (w / 8192) as u8;
    let rd = ((v / 128) % 32) as u8;
    let rs2 = ((v / 4) % 32) as u8;
    let bit12 = (v / 4096) % 2;
    if f3 == 0 {
        if rd == 0 || (x == Xlen::X32 && bit12 == 1) {
            None
        } else {
            Some(RVC::Cslli(mk_ci(w, rd, bit12 * 32 + (v / 4) % 32, 6)))
        }
    } else if f3 == 2 {
        if rd == 0 {
            None
        } else {
            Some(RVC::Clwsp(mk_ci(w, rd, bit12 * 32 + ((v / 16) % 8) * 4 + ((v / 4) % 4) * 64, 8)))
        }
    } else if f3 == 3 {
        if rd == 0 || x == Xlen::X32 {
            None
        } else {
            Some(RVC::Cldsp(mk_ci(w, rd, bit12 * 32 + ((v / 32) % 4) * 8 + ((v / 4) % 8) * 64, 9)))
        }
    } else if f3 == 4 {
        let cr = CRType { rdrs1: rd, rs2, funct4: (w / 4096) as u8 };
        if rd == 0 {
            None
        } else if bit12 == 0 {
            if rs2 == 0 {
                Some(RVC::Cjr(cr))
            } else {
                Some(RVC::Cmv(cr))
            }
        } else if rs2 == 0 {
            Some(RVC::Cjalr(cr))
        } else {
            Some(RVC::Cadd(cr))
        }
    } else if f3 == 6 {
        let off = ((v / 512) % 16) * 4 + ((v / 128) % 4) * 64;
        Some(RVC::Cswsp(CSSType { rs2, funct3: f3, imm: Imm { bits: off, width: 8 } }))
    } else if f3 == 7 && x != Xlen::X32 {
        let off = ((v / 1024) % 8) * 8 + ((v / 128) % 8) * 64;
        Some(RVC::Csdsp(CSSType { rs2, funct3: f3, imm: Imm { bits: off, width: 9 } }))
    } else {
        None
    }
}

/// Decodes a 16-bit compressed instruction word at the given register width.
/// Fails exactly on the words that denote no supported compressed instruction at that width.
pub fn resolve_u16(ins: u16, xlen: Xlen) -> (r: Result<Instruction, ()>)
    ensures
        r matches Ok(i) ==> decode16(ins, xlen) matches Some(c) && i == Instruction::RVC(c)
            && i.wf(),
        r is Err <==> decode16(ins, xlen) is None,
{
    let q = ins % 4;
    let c = if q == 0 {
        decode_quadrant0(ins, xlen)
    } else if q == 1 {
        decode_quadrant1(ins, xlen)
    } else if q == 2 {
        decode_quadrant2(ins, xlen)
    } else {
        None
    };
    match c {
        Some(c) => Ok(Instruction::RVC(c)),
        None => Err(()),
    }
}

} // verus!
