//! Bit-field packing of the 32-bit formats, stated arithmetically, and the
//! range rules that an immediate must meet before it is packed.
use vstd::prelude::*;
use vstd::arithmetic::power2::lemma2_to64;
use crate::imm::Imm;

verus! {

pub open spec fn pack_r(op: u32, rd: u8, f3: u8, rs1: u8, rs2: u8, f7: u8) -> u32 {
    (f7 * 33554432 + rs2 * 1048576 + rs1 * 32768 + f3 * 4096 + rd * 128 + op) as u32
}

pub open spec fn pack_i(op: u32, rd: u8, f3: u8, rs1: u8, imm12: u32) -> u32 {
    (imm12 * 1048576 + rs1 * 32768 + f3 * 4096 + rd * 128 + op) as u32
}

/// S-type: imm[11:5] to bits 31..25, imm[4:0] to bits 11..7.
pub open spec fn pack_s(op: u32, f3: u8, rs1: u8, rs2: u8, imm12: u32) -> u32 {
    ((imm12 / 32) * 33554432 + rs2 * 1048576 + rs1 * 32768 + f3 * 4096 + (imm12 % 32) * 128
        + op) as u32
}

/// B-type: imm[12] to bit 31, imm[10:5] to bits 30..25, imm[4:1] to bits 11..8,
/// imm[11] to bit 7.
pub open spec fn pack_b(op: u32, f3: u8, rs1: u8, rs2: u8, imm13: u32) -> u32 {
    (((imm13 / 4096) % 2) * 2147483648 + ((imm13 / 32) % 64) * 33554432 + rs2 * 1048576 + rs1
        * 32768 + f3 * 4096 + ((imm13 / 2) % 16) * 256 + ((imm13 / 2048) % 2) * 128 + op) as u32
}

/// U-type: the upper twenty bits of the immediate in place.
pub open spec fn pack_u(op: u32, rd: u8, imm: u32) -> u32 {
    ((imm / 4096) * 4096 + rd * 128 + op) as u32
}

/// J-type: imm[20] to bit 31, imm[10:1] to bits 30..21, imm[11] to bit 20,
/// imm[19:12] to bits 19..12.
pub open spec fn pack_j(op: u32, rd: u8, imm21: u32) -> u32 {
    (((imm21 / 1048576) % 2) * 2147483648 + ((imm21 / 2) % 1024) * 2097152 + ((imm21 / 2048) % 2)
        * 1048576 + ((imm21 / 4096) % 256) * 4096 + rd * 128 + op) as u32
}

/// The immediate's value fits a signed field of `n` bits.
pub open spec fn fits(imm: Imm, lo: int, hi: int) -> bool {
    lo <= imm.value() <= hi
}

/// The low bits of the immediate's value in two's complement, modulo `m`.
pub open spec fn low(imm: Imm, m: int) -> u32 {
    (imm.value() % m) as u32
}

pub fn put_r(op: u32, rd: u8, f3: u8, rs1: u8, rs2: u8, f7: u8) -> (w: u32)
    requires
        op < 128,
        rd < 32,
        f3 < 8,
        rs1 < 32,
        rs2 < 32,
        f7 < 128,
    ensures
        w == pack_r(op, rd, f3, rs1, rs2, f7),
{
    (f7 as u32) * 33554432 + (rs2 as u32) * 1048576 + (rs1 as u32) * 32768 + (f3 as u32) * 4096
        + (rd as u32) * 128 + op
}

pub fn put_i(op: u32, rd: u8, f3: u8, rs1: u8, imm12: u32) -> (w: u32)
    requires
        op < 128,
        rd < 32,
        f3 < 8,
        rs1 < 32,
        imm12 < 4096,
    ensures
        w == pack_i(op, rd, f3, rs1, imm12),
{
    imm12 * 1048576 + (rs1 as u32) * 32768 + (f3 as u32) * 4096 + (rd as u32) * 128 + op
}

pub fn put_s(op: u32, f3: u8, rs1: u8, rs2: u8, imm12: u32) -> (w: u32)
    requires
        op < 128,
        f3 < 8,
        rs1 < 32,
        rs2 < 32,
        imm12 < 4096,
    ensures
        w == pack_s(op, f3, rs1, rs2, imm12),
{
    (imm12 / 32) * 33554432 + (rs2 as u32) * 1048576 + (rs1 as u32) * 32768 + (f3 as u32) * 4096
        + (imm12 % 32) * 128 + op
}

pub fn put_b(op: u32, f3: u8, rs1: u8, rs2: u8, imm13: u32) -> (w: u32)
    requires
        op < 128,
        f3 < 8,
        rs1 < 32,
        rs2 < 32,
    ensures
        w == pack_b(op, f3, rs1, rs2, imm13),
{
    ((imm13 / 4096) % 2) * 2147483648 + ((imm13 / 32) % 64) * 33554432 + (rs2 as u32) * 1048576
        + (rs1 as u32) * 32768 + (f3 as u32) * 4096 + ((imm13 / 2) % 16) * 256 + ((imm13 / 2048)
        % 2) * 128 + op
}

pub fn put_u(op: u32, rd: u8, imm: u32) -> (w: u32)
    requires
        op < 128,
        rd < 32,
    ensures
        w == pack_u(op, rd, imm),
{
    (imm / 4096) * 4096 + (rd as u32) * 128 + op
}

pub fn put_j(op: u32, rd: u8, imm21: u32) -> (w: u32)
    requires
        op < 128,
        rd < 32,
    ensures
        w == pack_j(op, rd, imm21),
{
    ((imm21 / 1048576) % 2) * 2147483648 + ((imm21 / 2) % 1024) * 2097152 + ((imm21 / 2048) % 2)
        * 1048576 + ((imm21 / 4096) % 256) * 4096 + (rd as u32) * 128 + op
}

/// The value of the immediate if it lies in `lo..=hi`, reduced modulo `m`.
pub fn low_in_range(imm: &Imm, lo: i64, hi: i64, m: i64) -> (r: Option<u32>)
    requires
        imm.wf(),
        -0x1_0000_0000 <= lo,
        hi <= 0x1_0000_0000,
        0 < m <= 0x1_0000_0000,
        -m <= lo,
    ensures
        r matches Some(v) ==> fits(*imm, lo as int, hi as int) && v == low(*imm, m as int),
        r is None ==> !fits(*imm, lo as int, hi as int),
{
    let v = imm.signed();
    if v < lo || v > hi {
        None
    } else {
        let t = if v < 0 {
            v + m
        } else {
            v
        };
        proof {
            lemma2_to64();
            if v < 0 {
                assert((v + m) % (m as int) == (v as int) % (m as int)) by (nonlinear_arith)
                    requires
                        m > 0,
                        -m <= v < 0,
                ;
            }
        }
        Some((t % m) as u32)
    }
}

} // verus!
