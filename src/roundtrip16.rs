//! Encoding a compressed instruction then decoding the halfword gives back an
//! instruction with the same text.
use vstd::prelude::*;
use vstd::arithmetic::power2::lemma2_to64;
use crate::decode::process16::decode16;
use crate::encode::pack::low;
use crate::encode::process16::encode16;
use crate::imm::Xlen;
use crate::model::{Instruction, RVC};
use crate::model::same::same_instruction;
use crate::roundtrip::{
    law_round_trip_base, law_round_trip_csr, law_round_trip_wide, lemma_sign_back,
};
use crate::decode::process32::decode32;
use crate::parse::parse_spec;
use crate::{assemble_word, render};
use vstd::arithmetic::div_mod::lemma_mod_mod;

verus! {

proof fn lemma_ci(f3: u32, rd: u32, v: u32, op: u32)
    by (bit_vector)
    requires
        f3 < 8,
        rd < 32,
        v < 64,
        op < 4,
    ensures
        ({
            let w = (f3 * 8192 + ((v / 32) % 2) * 4096 + rd * 128 + (v % 32) * 4 + op) as u32;
            &&& w < 65536
            &&& w % 4 == op
            &&& w / 8192 == f3
            &&& (w / 128) % 32 == rd
            &&& ((w / 4096) % 2) * 32 + (w / 4) % 32 == v
        }),
{
}

proof fn lemma_addi4spn(rd: u32, u: u32)
    by (bit_vector)
    requires
        8 <= rd <= 15,
        u < 1024,
        u % 4 == 0,
    ensures
        ({
            let w = (((u / 16) % 4) * 2048 + ((u / 64) % 16) * 128 + ((u / 4) % 2) * 64
                + ((u / 8) % 2) * 32 + (rd - 8) * 4) as u32;
            &&& w < 65536
            &&& w % 4 == 0
            &&& w / 8192 == 0
            &&& (w / 4) % 8 == rd - 8
            &&& ((w / 2048) % 4) * 16 + ((w / 128) % 16) * 64 + ((w / 64) % 2) * 4
                + ((w / 32) % 2) * 8 == u
        }),
{
}

proof fn lemma_addi16sp(v: u32)
    by (bit_vector)
    requires
        v < 1024,
        v % 16 == 0,
    ensures
        ({
            let w = (3 * 8192 + ((v / 512) % 2) * 4096 + 2 * 128 + ((v / 16) % 2) * 64
                + ((v / 64) % 2) * 32 + ((v / 128) % 4) * 8 + ((v / 32) % 2) * 4 + 1) as u32;
            &&& w < 65536
            &&& w % 4 == 1
            &&& w / 8192 == 3
            &&& (w / 128) % 32 == 2
            &&& ((w / 4096) % 2) * 512 + ((w / 64) % 2) * 16 + ((w / 32) % 2) * 64
                + ((w / 8) % 4) * 128 + ((w / 4) % 2) * 32 == v
        }),
{
}

proof fn lemma_cl_word(f3: u32, rs1: u32, r: u32, o: u32)
    by (bit_vector)
    requires
        f3 < 8,
        8 <= rs1 <= 15,
        8 <= r <= 15,
        o < 128,
        o % 4 == 0,
    ensures
        ({
            let w = (f3 * 8192 + ((o / 8) % 8) * 1024 + (rs1 - 8) * 128 + ((o / 4) % 2) * 64
                + ((o / 64) % 2) * 32 + (r - 8) * 4) as u32;
            &&& w < 65536
            &&& w % 4 == 0
            &&& w / 8192 == f3
            &&& (w / 128) % 8 == rs1 - 8
            &&& (w / 4) % 8 == r - 8
            &&& ((w / 1024) % 8) * 8 + ((w / 64) % 2) * 4 + ((w / 32) % 2) * 64 == o
        }),
{
}

proof fn lemma_cl_double(f3: u32, rs1: u32, r: u32, o: u32)
    by (bit_vector)
    requires
        f3 < 8,
        8 <= rs1 <= 15,
        8 <= r <= 15,
        o < 256,
        o % 8 == 0,
    ensures
        ({
            let w = (f3 * 8192 + ((o / 8) % 8) * 1024 + (rs1 - 8) * 128 + ((o / 64) % 4) * 32
                + (r - 8) * 4) as u32;
            &&& w < 65536
            &&& w % 4 == 0
            &&& w / 8192 == f3
            &&& (w / 128) % 8 == rs1 - 8
            &&& (w / 4) % 8 == r - 8
            &&& ((w / 1024) % 8) * 8 + ((w / 32) % 4) * 64 == o
        }),
{
}

proof fn lemma_lwsp(rd: u32, o: u32)
    by (bit_vector)
    requires
        rd < 32,
        o < 256,
        o % 4 == 0,
    ensures
        ({
            let w = (2 * 8192 + ((o / 32) % 2) * 4096 + rd * 128 + ((o / 4) % 8) * 16
                + ((o / 64) % 4) * 4 + 2) as u32;
            &&& w < 65536
            &&& w % 4 == 2
            &&& w / 8192 == 2
            &&& (w / 128) % 32 == rd
            &&& ((w / 4096) % 2) * 32 + ((w / 16) % 8) * 4 + ((w / 4) % 4) * 64 == o
        }),
{
}

proof fn lemma_ldsp(rd: u32, o: u32)
    by (bit_vector)
    requires
        rd < 32,
        o < 512,
        o % 8 == 0,
    ensures
        ({
            let w = (3 * 8192 + ((o / 32) % 2) * 4096 + rd * 128 + ((o / 8) % 4) * 32
                + ((o / 64) % 8) * 4 + 2) as u32;
            &&& w < 65536
            &&& w % 4 == 2
            &&& w / 8192 == 3
            &&& (w / 128) % 32 == rd
            &&& ((w / 4096) % 2) * 32 + ((w / 32) % 4) * 8 + ((w / 4) % 8) * 64 == o
        }),
{
}

proof fn lemma_swsp(rs2: u32, o: u32)
    by (bit_vector)
    requires
        rs2 < 32,
        o < 256,
        o % 4 == 0,
    ensures
        ({
            let w = (6 * 8192 + ((o / 4) % 16) * 512 + ((o / 64) % 4) * 128 + rs2 * 4 + 2) as u32;
            &&& w < 65536
            &&& w % 4 == 2
            &&& w / 8192 == 6
            &&& (w / 4) % 32 == rs2
            &&& ((w / 512) % 16) * 4 + ((w / 128) % 4) * 64 == o
        }),
{
}

proof fn lemma_sdsp(rs2: u32, o: u32)
    by (bit_vector)
    requires
        rs2 < 32,
        o < 512,
        o % 8 == 0,
    ensures
        ({
            let w = (7 * 8192 + ((o / 8) % 8) * 1024 + ((o / 64) % 8) * 128 + rs2 * 4 + 2) as u32;
            &&& w < 65536
            &&& w % 4 == 2
            &&& w / 8192 == 7
            &&& (w / 4) % 32 == rs2
            &&& ((w / 1024) % 8) * 8 + ((w / 128) % 8) * 64 == o
        }),
{
}

proof fn lemma_cb_alu(sub: u32, rd: u32, v: u32)
    by (bit_vector)
    requires
        sub < 4,
        8 <= rd <= 15,
        v < 64,
    ensures
        ({
            let w = (4 * 8192 + ((v / 32) % 2) * 4096 + sub * 1024 + (rd - 8) * 128
                + (v % 32) * 4 + 1) as u32;
            &&& w < 65536
            &&& w % 4 == 1
            &&& w / 8192 == 4
            &&& (w / 1024) % 4 == sub
            &&& (w / 128) % 8 == rd - 8
            &&& (w / 4096) % 2 == v / 32
            &&& ((w / 4096) % 2) * 32 + (w / 4) % 32 == v
        }),
{
}

proof fn lemma_ca(wide: u32, rd: u32, f2: u32, rs2: u32)
    by (bit_vector)
    requires
        wide < 2,
        8 <= rd <= 15,
        f2 < 4,
        8 <= rs2 <= 15,
    ensures
        ({
            let w = (4 * 8192 + wide * 4096 + 3 * 1024 + (rd - 8) * 128 + f2 * 32
                + (rs2 - 8) * 4 + 1) as u32;
            &&& w < 65536
            &&& w % 4 == 1
            &&& w / 8192 == 4
            &&& (w / 1024) % 4 == 3
            &&& (w / 4096) % 2 == wide
            &&& (w / 32) % 4 == f2
            &&& (w / 128) % 8 == rd - 8
            &&& (w / 4) % 8 == rs2 - 8
        }),
{
}

proof fn lemma_cr(link: u32, rd: u32, rs2: u32)
    by (bit_vector)
    requires
        link < 2,
        rd < 32,
        rs2 < 32,
    ensures
        ({
            let w = (4 * 8192 + link * 4096 + rd * 128 + rs2 * 4 + 2) as u32;
            &&& w < 65536
            &&& w % 4 == 2
            &&& w / 8192 == 4
            &&& (w / 4096) % 2 == link
            &&& (w / 128) % 32 == rd
            &&& (w / 4) % 32 == rs2
        }),
{
}

proof fn lemma_cj(f3: u32, o: u32)
    by (bit_vector)
    requires
        f3 < 8,
        o < 4096,
        o % 2 == 0,
    ensures
        ({
            let w = (f3 * 8192 + ((o / 2048) % 2) * 4096 + ((o / 16) % 2) * 2048
                + ((o / 256) % 4) * 512 + ((o / 1024) % 2) * 256 + ((o / 64) % 2) * 128
                    + ((o / 128) % 2) * 64 + ((o / 2) % 8) * 8 + ((o / 32) % 2) * 4 + 1) as u32;
            &&& w < 65536
            &&& w % 4 == 1
            &&& w / 8192 == f3
            &&& ((w / 4096) % 2) * 2048 + ((w / 2048) % 2) * 16 + ((w / 512) % 4) * 256
                + ((w / 256) % 2) * 1024 + ((w / 128) % 2) * 64 + ((w / 64) % 2) * 128
                    + ((w / 8) % 8) * 2 + ((w / 4) % 2) * 32 == o
        }),
{
}

proof fn lemma_cb_branch(f3: u32, rs1: u32, o: u32)
    by (bit_vector)
    requires
        f3 < 8,
        8 <= rs1 <= 15,
        o < 512,
        o % 2 == 0,
    ensures
        ({
            let w = (f3 * 8192 + ((o / 256) % 2) * 4096 + ((o / 8) % 4) * 1024
                + (rs1 - 8) * 128 + ((o / 64) % 4) * 32 + ((o / 2) % 4) * 8
                    + ((o / 32) % 2) * 4 + 1) as u32;
            &&& w < 65536
            &&& w % 4 == 1
            &&& w / 8192 == f3
            &&& (w / 128) % 8 == rs1 - 8
            &&& ((w / 4096) % 2) * 256 + ((w / 1024) % 4) * 8 + ((w / 32) % 4) * 64
                + ((w / 8) % 4) * 2 + ((w / 4) % 2) * 32 == o
        }),
{
}


/// A compressed instruction that encodes decodes back from its halfword, at the
/// same width, to the same instruction, with the same text.
#[verifier::rlimit(100)]
pub proof fn law_round_trip_compressed(c: RVC, x: Xlen)
    requires
        c.wf(),
        encode16(c, x) is Some,
    ensures
        decode16(encode16(c, x)->0, x) matches Some(d) && Instruction::RVC(d).text()
            == Instruction::RVC(c).text() && same_instruction(Instruction::RVC(c), Instruction::RVC(d)),
{
    lemma2_to64();
    match c {
        RVC::Caddi4spn(t) => {
            lemma_addi4spn(t.rd as u32, t.uimm.bits);
        },
        RVC::Cnop(t) => {
            lemma_ci(0, 0, low(t.imm, 64), 1);
            lemma_sign_back(t.imm.value(), 6);
        },
        RVC::Caddi(t) => {
            lemma_ci(0, t.rdrs1 as u32, low(t.imm, 64), 1);
            lemma_sign_back(t.imm.value(), 6);
        },
        RVC::Cli(t) => {
            lemma_ci(2, t.rdrs1 as u32, low(t.imm, 64), 1);
            lemma_sign_back(t.imm.value(), 6);
        },
        RVC::Caddi16sp(t) => {
            lemma_addi16sp(low(t.imm, 1024));
            lemma_sign_back(t.imm.value(), 10);
        },
        RVC::Caddiw(t) => {
            lemma_ci(1, t.rdrs1 as u32, low(t.imm, 64), 1);
            lemma_sign_back(t.imm.value(), 6);
        },
        RVC::Clw(t) => {
            lemma_cl_word(2, t.rs1 as u32, t.rd as u32, t.imm.bits);
        },
        RVC::Csw(t) => {
            lemma_cl_word(6, t.rs1 as u32, t.rs2 as u32, t.imm.bits);
        },
        RVC::Clwsp(t) => {
            lemma_lwsp(t.rdrs1 as u32, t.imm.bits);
        },
        RVC::Cswsp(t) => {
            lemma_swsp(t.rs2 as u32, t.imm.bits);
        },
        RVC::Cld(t) => {
            lemma_cl_double(3, t.rs1 as u32, t.rd as u32, t.imm.bits);
        },
        RVC::Csd(t) => {
            lemma_cl_double(7, t.rs1 as u32, t.rs2 as u32, t.imm.bits);
        },
        RVC::Cldsp(t) => {
            lemma_ldsp(t.rdrs1 as u32, t.imm.bits);
        },
        RVC::Csdsp(t) => {
            lemma_sdsp(t.rs2 as u32, t.imm.bits);
        },
        RVC::Cslli(t) => {
            lemma_ci(0, t.rdrs1 as u32, t.imm.bits, 2);
        },
        RVC::Csrli(t) => {
            lemma_cb_alu(0, t.rdrs1 as u32, t.imm.bits);
        },
        RVC::Csrai(t) => {
            lemma_cb_alu(1, t.rdrs1 as u32, t.imm.bits);
        },
        RVC::Candi(t) => {
            lemma_cb_alu(2, t.rdrs1 as u32, low(t.imm, 64));
            lemma_sign_back(t.imm.value(), 6);
        },
        RVC::Csub(t) => {
            lemma_ca(0, t.rdrs1 as u32, 0, t.rs2 as u32);
        },
        RVC::Cxor(t) => {
            lemma_ca(0, t.rdrs1 as u32, 1, t.rs2 as u32);
        },
        RVC::Cor(t) => {
            lemma_ca(0, t.rdrs1 as u32, 2, t.rs2 as u32);
        },
        RVC::Cand(t) => {
            lemma_ca(0, t.rdrs1 as u32, 3, t.rs2 as u32);
        },
        RVC::Csubw(t) => {
            lemma_ca(1, t.rdrs1 as u32, 0, t.rs2 as u32);
        },
        RVC::Caddw(t) => {
            lemma_ca(1, t.rdrs1 as u32, 1, t.rs2 as u32);
        },
        RVC::Cj(t) => {
            lemma_cj(5, low(t.target, 4096));
            lemma_sign_back(t.target.value(), 12);
        },
        RVC::Cjal(t) => {
            lemma_cj(1, low(t.target, 4096));
            lemma_sign_back(t.target.value(), 12);
        },
        RVC::Cjr(t) => {
            lemma_cr(0, t.rdrs1 as u32, 0);
        },
        RVC::Cjalr(t) => {
            lemma_cr(1, t.rdrs1 as u32, 0);
        },
        RVC::Cmv(t) => {
            lemma_cr(0, t.rdrs1 as u32, t.rs2 as u32);
        },
        RVC::Cadd(t) => {
            lemma_cr(1, t.rdrs1 as u32, t.rs2 as u32);
        },
        RVC::Cbeqz(t) => {
            lemma_cb_branch(6, t.rs1 as u32, low(t.off, 512));
            lemma_sign_back(t.off.value(), 9);
        },
        RVC::Cbnez(t) => {
            lemma_cb_branch(7, t.rs1 as u32, low(t.off, 512));
            lemma_sign_back(t.off.value(), 9);
        },
    }
}

/// A word that decodes as a 32-bit instruction has both low bits set.
proof fn lemma_decoded_word_is_32_bit(w: u32, x: Xlen)
    requires
        decode32(w, x) is Some,
    ensures
        w % 4 == 3,
{
    lemma_mod_mod(w as int, 4, 32);
}

/// The instruction a word decodes to at one width: compressed when its two low bits
/// are not both set.
pub open spec fn decode_word(v: u32, x: Xlen) -> Option<Instruction> {
    if v % 4 != 3 {
        if v > 0xffff {
            None
        } else {
            match decode16(v as u16, x) {
                Some(c) => Some(Instruction::RVC(c)),
                None => None,
            }
        }
    } else {
        decode32(v, x)
    }
}

/// Assembling a line and decoding the word at the same width gives back the parsed
/// instruction (same variant, registers and immediate values), and disassembling it
/// gives the text of the parsed instruction, mnemonic and every operand; the exception is the shared
/// REM/REMU word (REM at 32 bits, REMU above).
pub proof fn law_assemble_then_disassemble(line: Seq<char>, x: Xlen)
    requires
        parse_spec(line, x) matches Some(i) && i.wf(),
        assemble_word(line, x) is Some,
        parse_spec(line, x) matches Some(Instruction::RV32I(b)) ==> !(b is Rem && x != Xlen::X32)
            && !(b is Remu && x == Xlen::X32),
    ensures
        decode_word(assemble_word(line, x)->0, x) matches Some(j) && same_instruction(
            parse_spec(line, x)->0,
            j,
        ),
        render(assemble_word(line, x)->0, x) == parse_spec(line, x)->0.text(),
{
    let i = parse_spec(line, x)->0;
    let w = assemble_word(line, x)->0;
    match i {
        Instruction::RVC(c) => {
            law_round_trip_compressed(c, x);
        },
        Instruction::RV32I(b) => {
            law_round_trip_base(b, x);
            lemma_decoded_word_is_32_bit(w, x);
        },
        Instruction::RV64I(b) => {
            law_round_trip_wide(b, x);
            lemma_decoded_word_is_32_bit(w, x);
        },
        Instruction::RVZicsr(b) => {
            law_round_trip_csr(b, x);
            lemma_decoded_word_is_32_bit(w, x);
        },
        _ => {},
    }
}

} // verus!
