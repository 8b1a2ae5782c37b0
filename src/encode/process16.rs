//! The 16-bit encoder: packs each compressed form, inverting the decoder's
//! immediate scrambles, after the register-class, range, alignment and width checks.
use vstd::prelude::*;
use crate::imm::{Imm, Xlen};
use crate::model::{Instruction, RVC};
use super::pack::{fits, low, low_in_range};

verus! {

/// A register that a 3-bit compressed field can name.
pub open spec fn creg(r: u8) -> bool {
    8 <= r <= 15
}

/// Forms CI (C.ADDI, C.LI, C.ADDIW, C.NOP, C.SLLI): imm[5] to bit 12, imm[4:0] to bits 6..2.
pub open spec fn pack_ci(f3: u16, rd: u8, v: u32, op: u16) -> u16 {
    (f3 * 8192 + ((v / 32) % 2) * 4096 + rd * 128 + (v % 32) * 4 + op) as u16
}

pub open spec fn pack_addi4spn(rd: u8, u: u32) -> u16 {
    (((u / 16) % 4) * 2048 + ((u / 64) % 16) * 128 + ((u / 4) % 2) * 64 + ((u / 8) % 2) * 32 + (rd
        - 8) * 4) as u16
}

pub open spec fn pack_addi16sp(v: u32) -> u16 {
    (3 * 8192 + ((v / 512) % 2) * 4096 + 2 * 128 + ((v / 16) % 2) * 64 + ((v / 64) % 2) * 32 + ((v
        / 128) % 4) * 8 + ((v / 32) % 2) * 4 + 1) as u16
}

/// C.LW / C.SW: offset[5:3] to bits 12..10, offset[2] to bit 6, offset[6] to bit 5.
pub open spec fn pack_cl_word(f3: u16, rs1: u8, r: u8, o: u32) -> u16 {
    (f3 * 8192 + ((o / 8) % 8) * 1024 + (rs1 - 8) * 128 + ((o / 4) % 2) * 64 + ((o / 64) % 2) * 32
        + (r - 8) * 4) as u16
}

/// C.LD / C.SD: offset[5:3] to bits 12..10, offset[7:6] to bits 6..5.
pub open spec fn pack_cl_double(f3: u16, rs1: u8, r: u8, o: u32) -> u16 {
    (f3 * 8192 + ((o / 8) % 8) * 1024 + (rs1 - 8) * 128 + ((o / 64) % 4) * 32 + (r - 8) * 4) as u16
}

pub open spec fn pack_lwsp(rd: u8, o: u32) -> u16 {
    (2 * 8192 + ((o / 32) % 2) * 4096 + rd * 128 + ((o / 4) % 8) * 16 + ((o / 64) % 4) * 4
        + 2) as u16
}

pub open spec fn pack_ldsp(rd: u8, o: u32) -> u16 {
    (3 * 8192 + ((o / 32) % 2) * 4096 + rd * 128 + ((o / 8) % 4) * 32 + ((o / 64) % 8) * 4
        + 2) as u16
}

pub open spec fn pack_swsp(rs2: u8, o: u32) -> u16 {
    (6 * 8192 + ((o / 4) % 16) * 512 + ((o / 64) % 4) * 128 + rs2 * 4 + 2) as u16
}

pub open spec fn pack_sdsp(rs2: u8, o: u32) -> u16 {
    (7 * 8192 + ((o / 8) % 8) * 1024 + ((o / 64) % 8) * 128 + rs2 * 4 + 2) as u16
}

/// C.SRLI / C.SRAI / C.ANDI: `sub` selects the operation in bits 11..10.
pub open spec fn pack_cb_alu(sub: u16, rd: u8, v: u32) -> u16 {
    (4 * 8192 + ((v / 32) % 2) * 4096 + sub * 1024 + (rd - 8) * 128 + (v % 32) * 4 + 1) as u16
}

pub open spec fn pack_ca(wide: u16, rd: u8, f2: u16, rs2: u8) -> u16 {
    (4 * 8192 + wide * 4096 + 3 * 1024 + (rd - 8) * 128 + f2 * 32 + (rs2 - 8) * 4 + 1) as u16
}

pub open spec fn pack_cr(link: u16, rd: u8, rs2: u8) -> u16 {
    (4 * 8192 + link * 4096 + rd * 128 + rs2 * 4 + 2) as u16
}

pub open spec fn pack_cj(f3: u16, o: u32) -> u16 {
    (f3 * 8192 + ((o / 2048) % 2) * 4096 + ((o / 16) % 2) * 2048 + ((o / 256) % 4) * 512 + ((o
        / 1024) % 2) * 256 + ((o / 64) % 2) * 128 + ((o / 128) % 2) * 64 + ((o / 2) % 8) * 8 + ((o
        / 32) % 2) * 4 + 1) as u16
}

pub open spec fn pack_cb_branch(f3: u16, rs1: u8, o: u32) -> u16 {
    (f3 * 8192 + ((o / 256) % 2) * 4096 + ((o / 8) % 4) * 1024 + (rs1 - 8) * 128 + ((o / 64) % 4)
        * 32 + ((o / 2) % 4) * 8 + ((o / 32) % 2) * 4 + 1) as u16
}

/// A 6-bit signed immediate.
pub open spec fn imm6_ok(imm: Imm) -> bool {
    fits(imm, -32, 31)
}

/// The largest shift amount plus one at the given width.
pub open spec fn shamt_limit(x: Xlen) -> u32 {
    if x == Xlen::X32 {
        32
    } else {
        64
    }
}

/// The 16-bit word for a compressed instruction at the given register width, if it has one.
pub open spec fn encode16(c: RVC, x: Xlen) -> Option<u16> {
    match c {
        RVC::Caddi4spn(t) => if creg(t.rd) && t.uimm.bits != 0 && t.uimm.bits < 1024 && t.uimm.bits
            % 4 == 0 {
            Some(pack_addi4spn(t.rd, t.uimm.bits))
        } else {
            None
        },
        RVC::Cnop(t) => if t.rdrs1 == 0 && imm6_ok(t.imm) {
            Some(pack_ci(0, 0, low(t.imm, 64), 1))
        } else {
            None
        },
        RVC::Caddi(t) => if t.rdrs1 != 0 && imm6_ok(t.imm) {
            Some(pack_ci(0, t.rdrs1, low(t.imm, 64), 1))
        } else {
            None
        },
        RVC::Cli(t) => if imm6_ok(t.imm) {
            Some(pack_ci(2, t.rdrs1, low(t.imm, 64), 1))
        } else {
            None
        },
        RVC::Caddi16sp(t) => if fits(t.imm, -512, 511) && t.imm.value() != 0 && low(t.imm, 1024)
            % 16 == 0 {
            Some(pack_addi16sp(low(t.imm, 1024)))
        } else {
            None
        },
        RVC::Caddiw(t) => if x != Xlen::X32 && t.rdrs1 != 0 && imm6_ok(t.imm) {
            Some(pack_ci(1, t.rdrs1, low(t.imm, 64), 1))
        } else {
            None
        },
        RVC::Clw(t) => if creg(t.rd) && creg(t.rs1) && t.imm.bits < 128 && t.imm.bits % 4 == 0 {
            Some(pack_cl_word(2, t.rs1, t.rd, t.imm.bits))
        } else {
            None
        },
        RVC::Csw(t) => if creg(t.rs2) && creg(t.rs1) && t.imm.bits < 128 && t.imm.bits % 4 == 0 {
            Some(pack_cl_word(6, t.rs1, t.rs2, t.imm.bits))
        } else {
            None
        },
        RVC::Clwsp(t) => if t.rdrs1 != 0 && t.imm.bits < 256 && t.imm.bits % 4 == 0 {
            Some(pack_lwsp(t.rdrs1, t.imm.bits))
        } else {
            None
        },
        RVC::Cswsp(t) => if t.imm.bits < 256 && t.imm.bits % 4 == 0 {
            Some(pack_swsp(t.rs2, t.imm.bits))
        } else {
            None
        },
        RVC::Cld(t) => if x != Xlen::X32 && creg(t.rd) && creg(t.rs1) && t.imm.bits < 256
            && t.imm.bits % 8 == 0 {
            Some(pack_cl_double(3, t.rs1, t.rd, t.imm.bits))
        } else {
            None
        },
        RVC::Csd(t) => if x != Xlen::X32 && creg(t.rs2) && creg(t.rs1) && t.imm.bits < 256
            && t.imm.bits % 8 == 0 {
            Some(pack_cl_double(7, t.rs1, t.rs2, t.imm.bits))
        } else {
            None
        },
        RVC::Cldsp(t) => if x != Xlen::X32 && t.rdrs1 != 0 && t.imm.bits < 512 && t.imm.bits % 8
            == 0 {
            Some(pack_ldsp(t.rdrs1, t.imm.bits))
        } else {
            None
        },
        RVC::Csdsp(t) => if x != Xlen::X32 && t.imm.bits < 512 && t.imm.bits % 8 == 0 {
            Some(pack_sdsp(t.rs2, t.imm.bits))
        } else {
            None
        },
        RVC::Cslli(t) => if t.rdrs1 != 0 && t.imm.bits < shamt_limit(x) {
            Some(pack_ci(0, t.rdrs1, t.imm.bits, 2))
        } else {
            None
        },
        RVC::Csrli(t) => if creg(t.rdrs1) && t.imm.bits != 0 && t.imm.bits < shamt_limit(x) {
            Some(pack_cb_alu(0, t.rdrs1, t.imm.bits))
        } else {
            None
        },
        RVC::Csrai(t) => if creg(t.rdrs1) && t.imm.bits != 0 && t.imm.bits < shamt_limit(x) {
            Some(pack_cb_alu(1, t.rdrs1, t.imm.bits))
        } else {
            None
        },
        RVC::Candi(t) => if creg(t.rdrs1) && imm6_ok(t.imm) {
            Some(pack_cb_alu(2, t.rdrs1, low(t.imm, 64)))
        } else {
            None
        },
        RVC::Csub(t) => if creg(t.rdrs1) && creg(t.rs2) {
            Some(pack_ca(0, t.rdrs1, 0, t.rs2))
        } else {
            None
        },
        RVC::Cxor(t) => if creg(t.rdrs1) && creg(t.rs2) {
            Some(pack_ca(0, t.rdrs1, 1, t.rs2))
        } else {
            None
        },
        RVC::Cor(t) => if creg(t.rdrs1) && creg(t.rs2) {
            Some(pack_ca(0, t.rdrs1, 2, t.rs2))
        } else {
            None
        },
        RVC::Cand(t) => if creg(t.rdrs1) && creg(t.rs2) {
            Some(pack_ca(0, t.rdrs1, 3, t.rs2))
        } else {
            None
        },
        RVC::Csubw(t) => if x != Xlen::X32 && creg(t.rdrs1) && creg(t.rs2) {
            Some(pack_ca(1, t.rdrs1, 0, t.rs2))
        } else {
            None
        },
        RVC::Caddw(t) => if x != Xlen::X32 && creg(t.rdrs1) && creg(t.rs2) {
            Some(pack_ca(1, t.rdrs1, 1, t.rs2))
        } else {
            None
        },
        RVC::Cj(t) => if fits(t.target, -2048, 2047) && low(t.target, 4096) % 2 == 0 {
            Some(pack_cj(5, low(t.target, 4096)))
        } else {
            None
        },
        RVC::Cjal(t) => if x == Xlen::X32 && fits(t.target, -2048, 2047) && low(t.target, 4096) % 2
            == 0 {
            Some(pack_cj(1, low(t.target, 4096)))
        } else {
            None
        },
        RVC::Cjr(t) => if t.rdrs1 != 0 {
            Some(pack_cr(0, t.rdrs1, 0))
        } else {
            None
        },
        RVC::Cjalr(t) => if t.rdrs1 != 0 {
            Some(pack_cr(1, t.rdrs1, 0))
        } else {
            None
        },
        RVC::Cmv(t) => if t.rdrs1 != 0 && t.rs2 != 0 {
            Some(pack_cr(0, t.rdrs1, t.rs2))
        } else {
            None
        },
        RVC::Cadd(t) => if t.rdrs1 != 0 && t.rs2 != 0 {
            Some(pack_cr(1, t.rdrs1, t.rs2))
        } else {
            None
        },
        RVC::Cbeqz(t) => if creg(t.rs1) && fits(t.off, -256, 255) && low(t.off, 512) % 2 == 0 {
            Some(pack_cb_branch(6, t.rs1, low(t.off, 512)))
        } else {
            None
        },
        RVC::Cbnez(t) => if creg(t.rs1) && fits(t.off, -256, 255) && low(t.off, 512) % 2 == 0 {
            Some(pack_cb_branch(7, t.rs1, low(t.off, 512)))
        } else {
            None
        },
    }
}
fn put_ci(f3: u16, rd: u8, v: u32, op: u16) -> (w: u16)
    requires
        f3 < 8,
        rd < 32,
        v < 64,
        op < 4,
    ensures
        w == pack_ci(f3, rd, v, op),
{
    ((f3 as u32) * 8192 + ((v / 32) % 2) * 4096 + (rd as u32) * 128 + (v % 32) * 4
        + (op as u32)) as u16
}

fn put_addi4spn(rd: u8, u: u32) -> (w: u16)
    requires
        8 <= rd <= 15,
        u < 1024,
    ensures
        w == pack_addi4spn(rd, u),
{
    (((u / 16) % 4) * 2048 + ((u / 64) % 16) * 128 + ((u / 4) % 2) * 64 + ((u / 8) % 2) * 32
        + ((rd - 8) as u32) * 4) as u16
}

fn put_addi16sp(v: u32) -> (w: u16)
    requires
        v < 1024,
    ensures
        w == pack_addi16sp(v),
{
    (3 * 8192 + ((v / 512) % 2) * 4096 + 2 * 128 + ((v / 16) % 2) * 64 + ((v / 64) % 2) * 32
        + ((v / 128) % 4) * 8 + ((v / 32) % 2) * 4 + 1) as u16
}

fn put_cl_word(f3: u16, rs1: u8, r: u8, o: u32) -> (w: u16)
    requires
        f3 < 8,
        8 <= rs1 <= 15,
        8 <= r <= 15,
        o < 128,
    ensures
        w == pack_cl_word(f3, rs1, r, o),
{
    ((f3 as u32) * 8192 + ((o / 8) % 8) * 1024 + ((rs1 - 8) as u32) * 128 + ((o / 4) % 2) * 64
        + ((o / 64) % 2) * 32 + ((r - 8) as u32) * 4) as u16
}

fn put_cl_double(f3: u16, rs1: u8, r: u8, o: u32) -> (w: u16)
    requires
        f3 < 8,
        8 <= rs1 <= 15,
        8 <= r <= 15,
        o < 256,
    ensures
        w == pack_cl_double(f3, rs1, r, o),
{
    ((f3 as u32) * 8192 + ((o / 8) % 8) * 1024 + ((rs1 - 8) as u32) * 128 + ((o / 64) % 4) * 32
        + ((r - 8) as u32) * 4) as u16
}

fn put_lwsp(rd: u8, o: u32) -> (w: u16)
    requires
        rd < 32,
        o < 256,
    ensures
        w == pack_lwsp(rd, o),
{
    (2 * 8192 + ((o / 32) % 2) * 4096 + (rd as u32) * 128 + ((o / 4) % 8) * 16
        + ((o / 64) % 4) * 4 + 2) as u16
}

fn put_ldsp(rd: u8, o: u32) -> (w: u16)
    requires
        rd < 32,
        o < 512,
    ensures
        w == pack_ldsp(rd, o),
{
    (3 * 8192 + ((o / 32) % 2) * 4096 + (rd as u32) * 128 + ((o / 8) % 4) * 32
        + ((o / 64) % 8) * 4 + 2) as u16
}

fn put_swsp(rs2: u8, o: u32) -> (w: u16)
    requires
        rs2 < 32,
        o < 256,
    ensures
        w == pack_swsp(rs2, o),
{
    (6 * 8192 + ((o / 4) % 16) * 512 + ((o / 64) % 4) * 128 + (rs2 as u32) * 4 + 2) as u16
}

fn put_sdsp(rs2: u8, o: u32) -> (w: u16)
    requires
        rs2 < 32,
        o < 512,
    ensures
        w == pack_sdsp(rs2, o),
{
    (7 * 8192 + ((o / 8) % 8) * 1024 + ((o / 64) % 8) * 128 + (rs2 as u32) * 4 + 2) as u16
}

fn put_cb_alu(sub: u16, rd: u8, v: u32) -> (w: u16)
    requires
        sub < 4,
        8 <= rd <= 15,
        v < 64,
    ensures
        w == pack_cb_alu(sub, rd, v),
{
    (4 * 8192 + ((v / 32) % 2) * 4096 + (sub as u32) * 1024 + ((rd - 8) as u32) * 128
        + (v % 32) * 4 + 1) as u16
}

fn put_ca(wide: u16, rd: u8, f2: u16, rs2: u8) -> (w: u16)
    requires
        wide < 2,
        8 <= rd <= 15,
        f2 < 4,
        8 <= rs2 <= 15,
    ensures
        w == pack_ca(wide, rd, f2, rs2),
{
    (4 * 8192 + (wide as u32) * 4096 + 3 * 1024 + ((rd - 8) as u32) * 128 + (f2 as u32) * 32
        + ((rs2 - 8) as u32) * 4 + 1) as u16
}

fn put_cr(link: u16, rd: u8, rs2: u8) -> (w: u16)
    requires
        link < 2,
        rd < 32,
        rs2 < 32,
    ensures
        w == pack_cr(link, rd, rs2),
{
    (4 * 8192 + (link as u32) * 4096 + (rd as u32) * 128 + (rs2 as u32) * 4 + 2) as u16
}

fn put_cj(f3: u16, o: u32) -> (w: u16)
    requires
        f3 < 8,
        o < 4096,
    ensures
        w == pack_cj(f3, o),
{
    ((f3 as u32) * 8192 + ((o / 2048) % 2) * 4096 + ((o / 16) % 2) * 2048
        + ((o / 256) % 4) * 512 + ((o / 1024) % 2) * 256 + ((o / 64) % 2) * 128
            + ((o / 128) % 2) * 64 + ((o / 2) % 8) * 8 + ((o / 32) % 2) * 4 + 1) as u16
}

fn put_cb_branch(f3: u16, rs1: u8, o: u32) -> (w: u16)
    requires
        f3 < 8,
        8 <= rs1 <= 15,
        o < 512,
    ensures
        w == pack_cb_branch(f3, rs1, o),
{
    ((f3 as u32) * 8192 + ((o / 256) % 2) * 4096 + ((o / 8) % 4) * 1024
        + ((rs1 - 8) as u32) * 128 + ((o / 64) % 4) * 32 + ((o / 2) % 4) * 8
            + ((o / 32) % 2) * 4 + 1) as u16
}

fn creg_check(r: u8) -> (res: Result<(), String>)
    ensures
        res is Ok <==> creg(r),
{
    if 8 <= r && r <= 15 {
        Ok(())
    } else {
        Err("register is not one of x8..x15".to_owned())
    }
}

fn signed_field(imm: &Imm, lo: i64, hi: i64, m: i64) -> (r: Result<u32, String>)
    requires
        imm.wf(),
        -0x1_0000_0000 <= lo,
        hi <= 0x1_0000_0000,
        0 < m <= 0x1_0000_0000,
        -m <= lo,
    ensures
        r matches Ok(v) ==> fits(*imm, lo as int, hi as int) && v == low(*imm, m as int),
        r is Err ==> !fits(*imm, lo as int, hi as int),
{
    match low_in_range(imm, lo, hi, m) {
        Some(v) => Ok(v),
        None => Err("immediate out of range".to_owned()),
    }
}

fn shamt_max(x: Xlen) -> (r: u32)
    ensures
        r == shamt_limit(x),
{
    if x == Xlen::X32 {
        32
    } else {
        64
    }
}

fn encode_rvc(c: &RVC, x: Xlen) -> (r: Result<u16, String>)
    requires
        c.wf(),
    ensures
        r matches Ok(w) ==> encode16(*c, x) == Some(w),
        r is Err <==> encode16(*c, x) is None,
{
    match *c {
        RVC::Caddi4spn(t) => {
            creg_check(t.rd)?;
            let u = t.uimm.bits;
            if u == 0 || u >= 1024 || u % 4 != 0 {
                return Err("c.addi4spn needs a non-zero, 4-aligned immediate below 1024".to_owned());
            }
            Ok(put_addi4spn(t.rd, u))
        },
        RVC::Cnop(t) => {
            if t.rdrs1 != 0 {
                return Err("c.nop names no register".to_owned());
            }
            let v = signed_field(&t.imm, -32, 31, 64)?;
            Ok(put_ci(0, 0, v, 1))
        },
        RVC::Caddi(t) => {
            if t.rdrs1 == 0 {
                return Err("c.addi needs rd != x0".to_owned());
            }
            let v = signed_field(&t.imm, -32, 31, 64)?;
            Ok(put_ci(0, t.rdrs1, v, 1))
        },
        RVC::Cli(t) => {
            let v = signed_field(&t.imm, -32, 31, 64)?;
            Ok(put_ci(2, t.rdrs1, v, 1))
        },
        RVC::Caddi16sp(t) => {
            let v = signed_field(&t.imm, -512, 511, 1024)?;
            if t.imm.signed() == 0 {
                return Err("c.addi16sp needs a non-zero immediate".to_owned());
            }
            if v % 16 != 0 {
                return Err("c.addi16sp immediate must be a multiple of 16".to_owned());
            }
            Ok(put_addi16sp(v))
        },
        RVC::Caddiw(t) => {
            if x == Xlen::X32 {
                return Err("c.addiw needs a 64- or 128-bit register width".to_owned());
            }
            if t.rdrs1 == 0 {
                return Err("c.addiw needs rd != x0".to_owned());
            }
            let v = signed_field(&t.imm, -32, 31, 64)?;
            Ok(put_ci(1, t.rdrs1, v, 1))
        },
        RVC::Clw(t) => {
            creg_check(t.rd)?;
            creg_check(t.rs1)?;
            if t.imm.bits >= 128 || t.imm.bits % 4 != 0 {
                return Err("c.lw offset must be 4-aligned and below 128".to_owned());
            }
            Ok(put_cl_word(2, t.rs1, t.rd, t.imm.bits))
        },
        RVC::Csw(t) => {
            creg_check(t.rs2)?;
            creg_check(t.rs1)?;
            if t.imm.bits >= 128 || t.imm.bits % 4 != 0 {
                return Err("c.sw offset must be 4-aligned and below 128".to_owned());
            }
            Ok(put_cl_word(6, t.rs1, t.rs2, t.imm.bits))
        },
        RVC::Clwsp(t) => {
            if t.rdrs1 == 0 {
                return Err("c.lwsp needs rd != x0".to_owned());
            }
            if t.imm.bits >= 256 || t.imm.bits % 4 != 0 {
                return Err("c.lwsp offset must be 4-aligned and below 256".to_owned());
            }
            Ok(put_lwsp(t.rdrs1, t.imm.bits))
        },
        RVC::Cswsp(t) => {
            if t.imm.bits >= 256 || t.imm.bits % 4 != 0 {
                return Err("c.swsp offset must be 4-aligned and below 256".to_owned());
            }
            Ok(put_swsp(t.rs2, t.imm.bits))
        },
        RVC::Cld(t) => {
            if x == Xlen::X32 {
                return Err("c.ld needs a 64- or 128-bit register width".to_owned());
            }
            creg_check(t.rd)?;
            creg_check(t.rs1)?;
            if t.imm.bits >= 256 || t.imm.bits % 8 != 0 {
                return Err("c.ld offset must be 8-aligned and below 256".to_owned());
            }
            Ok(put_cl_double(3, t.rs1, t.rd, t.imm.bits))
        },
        RVC::Csd(t) => {
            if x == Xlen::X32 {
                return Err("c.sd needs a 64- or 128-bit register width".to_owned());
            }
            creg_check(t.rs2)?;
            creg_check(t.rs1)?;
            if t.imm.bits >= 256 || t.imm.bits % 8 != 0 {
                return Err("c.sd offset must be 8-aligned and below 256".to_owned());
            }
            Ok(put_cl_double(7, t.rs1, t.rs2, t.imm.bits))
        },
        RVC::Cldsp(t) => {
            if x == Xlen::X32 {
                return Err("c.ldsp needs a 64- or 128-bit register width".to_owned());
            }
            if t.rdrs1 == 0 {
                return Err("c.ldsp needs rd != x0".to_owned());
            }
            if t.imm.bits >= 512 || t.imm.bits % 8 != 0 {
                return Err("c.ldsp offset must be 8-aligned and below 512".to_owned());
            }
            Ok(put_ldsp(t.rdrs1, t.imm.bits))
        },
        RVC::Csdsp(t) => {
            if x == Xlen::X32 {
                return Err("c.sdsp needs a 64- or 128-bit register width".to_owned());
            }
            if t.imm.bits >= 512 || t.imm.bits % 8 != 0 {
                return Err("c.sdsp offset must be 8-aligned and below 512".to_owned());
            }
            Ok(put_sdsp(t.rs2, t.imm.bits))
        },
        RVC::Cslli(t) => {
            if t.rdrs1 == 0 {
                return Err("c.slli needs rd != x0".to_owned());
            }
            if t.imm.bits >= shamt_max(x) {
                return Err("c.slli shift amount out of range".to_owned());
            }
            Ok(put_ci(0, t.rdrs1, t.imm.bits, 2))
        },
        RVC::Csrli(t) => {
            creg_check(t.rdrs1)?;
            if t.imm.bits == 0 || t.imm.bits >= shamt_max(x) {
                return Err("c.srli shift amount must be non-zero and in range".to_owned());
            }
            Ok(put_cb_alu(0, t.rdrs1, t.imm.bits))
        },
        RVC::Csrai(t) => {
            creg_check(t.rdrs1)?;
            if t.imm.bits == 0 || t.imm.bits >= shamt_max(x) {
                return Err("c.srai shift amount must be non-zero and in range".to_owned());
            }
            Ok(put_cb_alu(1, t.rdrs1, t.imm.bits))
        },
        RVC::Candi(t) => {
            creg_check(t.rdrs1)?;
            let v = signed_field(&t.imm, -32, 31, 64)?;
            Ok(put_cb_alu(2, t.rdrs1, v))
        },
        RVC::Csub(t) => {
            creg_check(t.rdrs1)?;
            creg_check(t.rs2)?;
            Ok(put_ca(0, t.rdrs1, 0, t.rs2))
        },
        RVC::Cxor(t) => {
            creg_check(t.rdrs1)?;
            creg_check(t.rs2)?;
            Ok(put_ca(0, t.rdrs1, 1, t.rs2))
        },
        RVC::Cor(t) => {
            creg_check(t.rdrs1)?;
            creg_check(t.rs2)?;
            Ok(put_ca(0, t.rdrs1, 2, t.rs2))
        },
        RVC::Cand(t) => {
            creg_check(t.rdrs1)?;
            creg_check(t.rs2)?;
            Ok(put_ca(0, t.rdrs1, 3, t.rs2))
        },
        RVC::Csubw(t) => {
            if x == Xlen::X32 {
                return Err("c.subw needs a 64- or 128-bit register width".to_owned());
            }
            creg_check(t.rdrs1)?;
            creg_check(t.rs2)?;
            Ok(put_ca(1, t.rdrs1, 0, t.rs2))
        },
        RVC::Caddw(t) => {
            if x == Xlen::X32 {
                return Err("c.addw needs a 64- or 128-bit register width".to_owned());
            }
            creg_check(t.rdrs1)?;
            creg_check(t.rs2)?;
            Ok(put_ca(1, t.rdrs1, 1, t.rs2))
        },
        RVC::Cj(t) => {
            let o = signed_field(&t.target, -2048, 2047, 4096)?;
            if o % 2 != 0 {
                return Err("c.j offset must be 2-byte aligned".to_owned());
            }
            Ok(put_cj(5, o))
        },
        RVC::Cjal(t) => {
            if x != Xlen::X32 {
                return Err("c.jal exists only at a 32-bit register width".to_owned());
            }
            let o = signed_field(&t.target, -2048, 2047, 4096)?;
            if o % 2 != 0 {
                return Err("c.jal offset must be 2-byte aligned".to_owned());
            }
            Ok(put_cj(1, o))
        },
        RVC::Cjr(t) => {
            if t.rdrs1 == 0 {
                return Err("c.jr needs rs1 != x0".to_owned());
            }
            Ok(put_cr(0, t.rdrs1, 0))
        },
        RVC::Cjalr(t) => {
            if t.rdrs1 == 0 {
                return Err("c.jalr needs rs1 != x0".to_owned());
            }
            Ok(put_cr(1, t.rdrs1, 0))
        },
        RVC::Cmv(t) => {
            if t.rdrs1 == 0 || t.rs2 == 0 {
                return Err("c.mv needs rd != x0 and rs2 != x0".to_owned());
            }
            Ok(put_cr(0, t.rdrs1, t.rs2))
        },
        RVC::Cadd(t) => {
            if t.rdrs1 == 0 || t.rs2 == 0 {
                return Err("c.add needs rd != x0 and rs2 != x0".to_owned());
            }
            Ok(put_cr(1, t.rdrs1, t.rs2))
        },
        RVC::Cbeqz(t) => {
            creg_check(t.rs1)?;
            let o = signed_field(&t.off, -256, 255, 512)?;
            if o % 2 != 0 {
                return Err("c.beqz offset must be 2-byte aligned".to_owned());
            }
            Ok(put_cb_branch(6, t.rs1, o))
        },
        RVC::Cbnez(t) => {
            creg_check(t.rs1)?;
            let o = signed_field(&t.off, -256, 255, 512)?;
            if o % 2 != 0 {
                return Err("c.bnez offset must be 2-byte aligned".to_owned());
            }
            Ok(put_cb_branch(7, t.rs1, o))
        },
    }
}

/// Encodes a compressed instruction as a 16-bit word at the given register width.
/// Fails on every other group, on registers outside their class, on immediates
/// out of range or misaligned, and on forms not available at that width.
pub fn encode_u16(inst: &Instruction, xlen: Xlen) -> (r: Result<u16, String>)
    requires
        inst.wf(),
    ensures
        r matches Ok(w) ==> *inst matches Instruction::RVC(c) && encode16(c, xlen) == Some(w),
        r is Err <==> !(*inst matches Instruction::RVC(c) && encode16(c, xlen) is Some),
{
    match inst {
        Instruction::RVC(c) => encode_rvc(c, xlen),
        _ => Err("only compressed instructions have a 16-bit encoding".to_owned()),
    }
}

} // verus!
