//! Properties that relate the decoder, the encoder, the parser and the renderer,
//! stated over their specifications and proved.
use vstd::prelude::*;
use crate::decode::process16::decode16;
use crate::decode::process32::decode32;
use crate::encode::process16::encode16;
use crate::encode::process32::encode32;
use crate::imm::Xlen;
use crate::model::{fmt1, fmt2, fmt3, fmt4, Instruction, RV32I, RV64I, RVC};
use crate::parse::forms::{
    form_b, form_ci, form_ci16, form_cb, form_cj, form_ciw, form_cshift, form_j, form_load, form_rri, form_sh5, form_sh6, form_store, form_u,
};
use crate::parse::common::signed_bits;
use crate::roundtrip::lemma_sign_back;
use crate::imm::Imm;
use vstd::arithmetic::power2::lemma2_to64;
use crate::render;
use crate::parse::{parse_spec, tokens};
use vstd::arithmetic::div_mod::lemma_mod_mod;

verus! {

/// Instructions that exist only when registers are 64 or 128 bits wide.
pub open spec fn needs_wide(i: Instruction) -> bool {
    match i {
        Instruction::RV64I(_) => true,
        Instruction::RV128A(_) => true,
        Instruction::RVC(c) => c is Caddiw || c is Cld || c is Csd || c is Cldsp || c is Csdsp
            || c is Csubw || c is Caddw,
        Instruction::RVF(f) => f is Fcvtls || f is Fcvtlus || f is Fcvtsl || f is Fcvtslu,
        _ => false,
    }
}

/// An instruction that needs wide registers has no encoding, 32-bit or 16-bit,
/// at a 32-bit register width.
pub proof fn law_wide_not_encoded_at_32(i: Instruction)
    requires
        needs_wide(i),
    ensures
        encode32(i, Xlen::X32) is None,
        i matches Instruction::RVC(c) ==> encode16(c, Xlen::X32) is None,
{
}

/// Parsing at a 32-bit register width never yields an instruction that needs
/// wide registers.
pub proof fn law_wide_not_parsed_at_32(line: Seq<char>)
    ensures
        parse_spec(line, Xlen::X32) matches Some(i) ==> !needs_wide(i),
{
}

/// C.JAL exists only at a 32-bit register width: parsing never yields it at 64 or
/// 128 bits, and it has no encoding there.
pub proof fn law_compressed_jal_only_at_32(line: Seq<char>, x: Xlen, c: RVC)
    requires
        c is Cjal,
        x != Xlen::X32,
    ensures
        !(parse_spec(line, x) matches Some(Instruction::RVC(d)) && d is Cjal),
        encode16(c, x) is None,
{
}

/// Decoding at a 32-bit register width never yields an instruction that needs
/// wide registers.
pub proof fn law_wide_not_decoded_at_32(w: u32, h: u16)
    ensures
        decode32(w, Xlen::X32) matches Some(i) ==> !needs_wide(i),
        decode16(h, Xlen::X32) matches Some(c) ==> !needs_wide(Instruction::RVC(c)),
{
}

/// A word that decodes at 64 bits to an instruction needing wide registers fails
/// to decode at 32 bits, unless it is an immediate shift whose amount fits five
/// bits (the same word is then the 32-bit shift).
pub proof fn law_wide_word_fails_at_32(w: u32)
    requires
        decode32(w, Xlen::X64) matches Some(i) && needs_wide(i),
        decode32(w, Xlen::X64) matches Some(Instruction::RV64I(s)) ==> match s {
            RV64I::Slli(t) => t.imm.bits >= 32,
            RV64I::Srli(t) => t.imm.bits >= 32,
            RV64I::Srai(t) => t.imm.bits >= 32,
            _ => true,
        },
    ensures
        decode32(w, Xlen::X32) is None,
{
}

/// A compressed word that decodes at 64 bits to a form needing wide registers fails
/// to decode at 32 bits; the one exception is C.ADDIW, whose word is C.JAL at 32 bits.
pub proof fn law_wide_halfword_fails_at_32(h: u16)
    requires
        decode16(h, Xlen::X64) matches Some(c) && needs_wide(Instruction::RVC(c)) && !(c is Caddiw),
    ensures
        decode16(h, Xlen::X32) is None,
{
}

/// The immediate of a base-group instruction lies within its format's width:
/// 12 bits signed for I and S, 13 for branches, 21 for JAL, 5 unsigned for shifts.
pub open spec fn base_imm_within(i: RV32I) -> bool {
    match i {
        RV32I::Jal(t) => -1048576 <= t.imm.value() < 1048576,
        RV32I::Beq(t)
        | RV32I::Bne(t)
        | RV32I::Blt(t)
        | RV32I::Bge(t)
        | RV32I::Bltu(t)
        | RV32I::Bgeu(t) => -4096 <= t.imm.value() < 4096,
        RV32I::Jalr(t)
        | RV32I::Lb(t)
        | RV32I::Lh(t)
        | RV32I::Lw(t)
        | RV32I::Lbu(t)
        | RV32I::Lhu(t)
        | RV32I::Addi(t)
        | RV32I::Slti(t)
        | RV32I::Sltiu(t)
        | RV32I::Xori(t)
        | RV32I::Ori(t)
        | RV32I::Andi(t) => -2048 <= t.imm.value() < 2048,
        RV32I::Sb(t) | RV32I::Sh(t) | RV32I::Sw(t) => -2048 <= t.imm.value() < 2048,
        RV32I::Slli(t) | RV32I::Srli(t) | RV32I::Srai(t) => t.imm.bits < 32,
        _ => true,
    }
}

/// The immediate of a wide-group instruction lies within its format's width:
/// 12 bits signed for I and S, 6 unsigned for shifts, 5 unsigned for word shifts.
pub open spec fn wide_imm_within(i: RV64I) -> bool {
    match i {
        RV64I::Lwu(t) | RV64I::Ld(t) | RV64I::Addiw(t) => -2048 <= t.imm.value() < 2048,
        RV64I::Sd(t) => -2048 <= t.imm.value() < 2048,
        RV64I::Slli(t) | RV64I::Srli(t) | RV64I::Srai(t) => t.imm.bits < 64,
        RV64I::Slliw(t) | RV64I::Srliw(t) | RV64I::Sraiw(t) => t.imm.bits < 32,
        _ => true,
    }
}

/// The immediate of a compressed instruction lies within its form's width.
pub open spec fn compressed_imm_within(c: RVC) -> bool {
    match c {
        RVC::Caddi4spn(t) => t.uimm.bits < 1024,
        RVC::Cnop(t) | RVC::Caddi(t) | RVC::Cli(t) | RVC::Caddiw(t) | RVC::Candi(t) => -32
            <= t.imm.value() < 32,
        RVC::Caddi16sp(t) => -512 <= t.imm.value() < 512,
        RVC::Clw(t) => t.imm.bits < 128,
        RVC::Csw(t) => t.imm.bits < 128,
        RVC::Cld(t) => t.imm.bits < 256,
        RVC::Csd(t) => t.imm.bits < 256,
        RVC::Clwsp(t) => t.imm.bits < 256,
        RVC::Cswsp(t) => t.imm.bits < 256,
        RVC::Cldsp(t) => t.imm.bits < 512,
        RVC::Csdsp(t) => t.imm.bits < 512,
        RVC::Cslli(t) | RVC::Csrli(t) | RVC::Csrai(t) => t.imm.bits < 64,
        RVC::Cj(t) | RVC::Cjal(t) => -2048 <= t.target.value() < 2048,
        RVC::Cbeqz(t) | RVC::Cbnez(t) => -256 <= t.off.value() < 256,
        _ => true,
    }
}

/// Every immediate that an encoding accepts lies within its format's width;
/// an immediate beyond it makes the encoding fail.
pub proof fn law_immediate_width(i: Instruction, x: Xlen)
    requires
        i.wf(),
    ensures
        encode32(i, x) is Some ==> match i {
            Instruction::RV32I(b) => base_imm_within(b),
            Instruction::RV64I(b) => wide_imm_within(b),
            _ => true,
        },
        i matches Instruction::RVC(c) ==> (encode16(c, x) is Some ==> compressed_imm_within(c)),
{
}

/// Branch and jump offsets that an encoding accepts are even; compressed loads
/// and stores accept only offsets aligned to their access size.
pub proof fn law_encoded_alignment(i: Instruction, x: Xlen)
    requires
        i.wf(),
    ensures
        encode32(i, x) is Some ==> match i {
            Instruction::RV32I(RV32I::Jal(t)) => t.imm.value() % 2 == 0,
            Instruction::RV32I(
                RV32I::Beq(t)
                | RV32I::Bne(t)
                | RV32I::Blt(t)
                | RV32I::Bge(t)
                | RV32I::Bltu(t)
                | RV32I::Bgeu(t),
            ) => t.imm.value() % 2 == 0,
            _ => true,
        },
        i matches Instruction::RVC(c) ==> encode16(c, x) is Some ==> match c {
            RVC::Clw(t) => t.imm.bits % 4 == 0,
            RVC::Csw(t) => t.imm.bits % 4 == 0,
            RVC::Clwsp(t) => t.imm.bits % 4 == 0,
            RVC::Cswsp(t) => t.imm.bits % 4 == 0,
            RVC::Cld(t) => t.imm.bits % 8 == 0,
            RVC::Csd(t) => t.imm.bits % 8 == 0,
            RVC::Cldsp(t) => t.imm.bits % 8 == 0,
            RVC::Csdsp(t) => t.imm.bits % 8 == 0,
            RVC::Cj(t) | RVC::Cjal(t) => t.target.value() % 2 == 0,
            RVC::Cbeqz(t) | RVC::Cbnez(t) => t.off.value() % 2 == 0,
            _ => true,
        },
{
    assert forall|v: int| #![trigger v % 8192] (v % 8192) % 2 == v % 2 by {
        lemma_mod_mod(v, 2, 4096);
    }
    assert forall|v: int| #![trigger v % 2097152] (v % 2097152) % 2 == v % 2 by {
        lemma_mod_mod(v, 2, 1048576);
    }
    assert forall|v: int| #![trigger v % 4096] (v % 4096) % 2 == v % 2 by {
        lemma_mod_mod(v, 2, 2048);
    }
    assert forall|v: int| #![trigger v % 512] (v % 512) % 2 == v % 2 by {
        lemma_mod_mod(v, 2, 256);
    }
}

/// The parser rejects branch and jump offsets with bit 0 set.
pub proof fn law_parsed_alignment(line: Seq<char>, x: Xlen)
    ensures
        parse_spec(line, x) matches Some(Instruction::RV32I(i)) ==> match i {
            RV32I::Jal(t) => t.imm.bits % 2 == 0,
            RV32I::Beq(t)
            | RV32I::Bne(t)
            | RV32I::Blt(t)
            | RV32I::Bge(t)
            | RV32I::Bltu(t)
            | RV32I::Bgeu(t) => t.imm.bits % 2 == 0,
            _ => true,
        },
{
    reveal(form_b);
    reveal(form_j);
}

/// Registers in x8..x15 only.
pub open spec fn creg_slots(c: RVC) -> bool {
    match c {
        RVC::Caddi4spn(t) => 8 <= t.rd <= 15,
        RVC::Clw(t) | RVC::Cld(t) => 8 <= t.rd <= 15 && 8 <= t.rs1 <= 15,
        RVC::Csw(t) | RVC::Csd(t) => 8 <= t.rs2 <= 15 && 8 <= t.rs1 <= 15,
        RVC::Csrli(t) | RVC::Csrai(t) | RVC::Candi(t) => 8 <= t.rdrs1 <= 15,
        RVC::Csub(t)
        | RVC::Cxor(t)
        | RVC::Cor(t)
        | RVC::Cand(t)
        | RVC::Csubw(t)
        | RVC::Caddw(t) => 8
            <= t.rdrs1 <= 15 && 8 <= t.rs2 <= 15,
        RVC::Cbeqz(t) | RVC::Cbnez(t) => 8 <= t.rs1 <= 15,
        _ => true,
    }
}

/// A compressed form with a 3-bit register field encodes only when that slot holds
/// one of x8..x15.
pub proof fn law_compressed_registers(c: RVC, x: Xlen)
    ensures
        encode16(c, x) is Some ==> creg_slots(c),
{
}

/// Disassembly is a function of the word and the width alone: a word that decodes
/// renders as the text of its instruction, and two words that decode to the same
/// instruction render alike.
pub proof fn law_disassembly_deterministic(v: u32, w: u32, x: Xlen)
    ensures
        v % 4 == 3 && decode32(v, x) is Some ==> render(v, x) == decode32(v, x)->0.text(),
        v % 4 == 3 && w % 4 == 3 && decode32(v, x) is Some && decode32(v, x) == decode32(w, x)
            ==> render(v, x) == render(w, x),
        v % 4 != 3 && v <= 0xffff && decode16(v as u16, x) is Some ==> render(v, x)
            == Instruction::RVC(decode16(v as u16, x)->0).text(),
{
}

/// The immediate of a compressed instruction as the parser builds it lies within its
/// form's width (memory offsets are checked by the encoder).
pub open spec fn parsed_compressed_within(c: RVC) -> bool {
    match c {
        RVC::Caddi4spn(t) => 0 < t.uimm.bits < 1024,
        RVC::Caddi(t) | RVC::Cli(t) | RVC::Caddiw(t) | RVC::Candi(t) => -32 <= t.imm.value() < 32,
        RVC::Caddi16sp(t) => -512 <= t.imm.value() < 512,
        RVC::Cslli(t) | RVC::Csrli(t) | RVC::Csrai(t) => t.imm.bits < 64,
        RVC::Cj(t) | RVC::Cjal(t) => -2048 <= t.target.value() < 2048,
        RVC::Cbeqz(t) | RVC::Cbnez(t) => -256 <= t.off.value() < 256,
        _ => true,
    }
}

proof fn lemma_signed_bits_value(n: u8)
    requires
        1 <= n <= 32,
    ensures
        forall|v: int| #[trigger] signed_bits(v, n as nat) is Some ==> (Imm {
            bits: signed_bits(v, n as nat)->0,
            width: n,
        }).value() == v,
{
    assert forall|v: int| #[trigger] signed_bits(v, n as nat) is Some implies (Imm {
        bits: signed_bits(v, n as nat)->0,
        width: n,
    }).value() == v by {
        lemma_sign_back(v, n);
    }
}

proof fn lemma_form_rri_range(ops: Seq<Seq<char>>)
    ensures
        form_rri(ops) matches Some(t) ==> -2048 <= t.imm.value() < 2048,
{
    lemma2_to64();
    reveal(form_rri);
    lemma_signed_bits_value(12);
}

proof fn lemma_form_load_range(ops: Seq<Seq<char>>)
    ensures
        form_load(ops) matches Some(t) ==> -2048 <= t.imm.value() < 2048,
{
    lemma2_to64();
    reveal(form_load);
    lemma_signed_bits_value(12);
}

proof fn lemma_form_store_range(ops: Seq<Seq<char>>)
    ensures
        form_store(ops) matches Some(t) ==> -2048 <= t.imm.value() < 2048,
{
    lemma2_to64();
    reveal(form_store);
    lemma_signed_bits_value(12);
}

proof fn lemma_form_b_range(ops: Seq<Seq<char>>)
    ensures
        form_b(ops) matches Some(t) ==> -4096 <= t.imm.value() < 4096,
{
    lemma2_to64();
    reveal(form_b);
    lemma_signed_bits_value(13);
}

proof fn lemma_form_j_range(ops: Seq<Seq<char>>)
    ensures
        form_j(ops) matches Some(t) ==> -1048576 <= t.imm.value() < 1048576,
{
    lemma2_to64();
    reveal(form_j);
    lemma_signed_bits_value(21);
}

proof fn lemma_form_ci_range(ops: Seq<Seq<char>>)
    ensures
        form_ci(ops) matches Some(t) ==> -32 <= t.imm.value() < 32,
{
    lemma2_to64();
    reveal(form_ci);
    lemma_signed_bits_value(6);
}

proof fn lemma_form_ci16_range(ops: Seq<Seq<char>>)
    ensures
        form_ci16(ops) matches Some(t) ==> -512 <= t.imm.value() < 512,
{
    lemma2_to64();
    reveal(form_ci16);
    lemma_signed_bits_value(10);
}

proof fn lemma_form_cb_range(ops: Seq<Seq<char>>)
    ensures
        form_cb(ops) matches Some(t) ==> -256 <= t.off.value() < 256,
{
    lemma2_to64();
    reveal(form_cb);
    lemma_signed_bits_value(9);
}

proof fn lemma_form_cj_range(ops: Seq<Seq<char>>)
    ensures
        form_cj(ops) matches Some(t) ==> -2048 <= t.target.value() < 2048,
{
    lemma2_to64();
    reveal(form_cj);
    lemma_signed_bits_value(12);
}

proof fn lemma_form_sh5_range(ops: Seq<Seq<char>>)
    ensures
        form_sh5(ops) matches Some(t) ==> 0 <= t.imm.bits < 32,
{
    lemma2_to64();
    reveal(form_sh5);
}

proof fn lemma_form_sh6_range(ops: Seq<Seq<char>>)
    ensures
        form_sh6(ops) matches Some(t) ==> 0 <= t.imm.bits < 64,
{
    lemma2_to64();
    reveal(form_sh6);
}

proof fn lemma_form_cshift_range(ops: Seq<Seq<char>>)
    ensures
        form_cshift(ops) matches Some(t) ==> 0 <= t.imm.bits < 64,
{
    lemma2_to64();
    reveal(form_cshift);
}

proof fn lemma_form_ciw_range(ops: Seq<Seq<char>>)
    ensures
        form_ciw(ops) matches Some(t) ==> 1 <= t.uimm.bits < 1024,
{
    lemma2_to64();
    reveal(form_ciw);
}

/// The parser accepts an immediate only within its format's width, for a
/// base-group instruction: 12 bits signed for I and S, 13 for branches, 21 for
/// JAL, 5 unsigned for shifts.
#[verifier::rlimit(50)]
pub proof fn law_parsed_ranges_base(line: Seq<char>, x: Xlen)
    ensures
        parse_spec(line, x) matches Some(Instruction::RV32I(b)) ==> base_imm_within(b),
{
    if tokens(line) is Some {
        let pair = tokens(line)->0;
        let ops = pair.1;
        lemma_form_rri_range(ops);
        lemma_form_load_range(ops);
        lemma_form_store_range(ops);
        lemma_form_b_range(ops);
        lemma_form_j_range(ops);
        lemma_form_sh5_range(ops);
    }
}

/// The parser accepts an immediate only within its format's width, for a
/// wide-group instruction: 12 bits signed, 6 unsigned for shifts, 5 for word shifts.
pub proof fn law_parsed_ranges_wide(line: Seq<char>, x: Xlen)
    ensures
        parse_spec(line, x) matches Some(Instruction::RV64I(b)) ==> wide_imm_within(b),
{
    if tokens(line) is Some {
        let pair = tokens(line)->0;
        let ops = pair.1;
        lemma_form_rri_range(ops);
        lemma_form_load_range(ops);
        lemma_form_store_range(ops);
        lemma_form_b_range(ops);
        lemma_form_j_range(ops);
        lemma_form_ci_range(ops);
        lemma_form_ci16_range(ops);
        lemma_form_cb_range(ops);
        lemma_form_cj_range(ops);
        lemma_form_sh5_range(ops);
        lemma_form_sh6_range(ops);
        lemma_form_cshift_range(ops);
        lemma_form_ciw_range(ops);
    }
}

/// The parser accepts an immediate only within its format's width, for a
/// compressed instruction, within its form's width (memory offsets are left to the encoder).
pub proof fn law_parsed_ranges_compressed(line: Seq<char>, x: Xlen)
    ensures
        parse_spec(line, x) matches Some(Instruction::RVC(c)) ==> parsed_compressed_within(c),
{
    if tokens(line) is Some {
        let pair = tokens(line)->0;
        let ops = pair.1;
        lemma_form_rri_range(ops);
        lemma_form_load_range(ops);
        lemma_form_store_range(ops);
        lemma_form_b_range(ops);
        lemma_form_j_range(ops);
        lemma_form_ci_range(ops);
        lemma_form_ci16_range(ops);
        lemma_form_cb_range(ops);
        lemma_form_cj_range(ops);
        lemma_form_sh5_range(ops);
        lemma_form_sh6_range(ops);
        lemma_form_cshift_range(ops);
        lemma_form_ciw_range(ops);
    }
}

proof fn lemma_fmt_opens()
    ensures
        forall|m: Seq<char>, a: Seq<char>| #[trigger]
            fmt1(m, a).subrange(0, m.len() as int) == m && fmt1(m, a).len() > m.len() && fmt1(m, a)[m.len() as int] == ' ',
        forall|m: Seq<char>, a: Seq<char>, b: Seq<char>| #[trigger]
            fmt2(m, a, b).subrange(0, m.len() as int) == m && fmt2(m, a, b).len() > m.len() && fmt2(m, a, b)[m.len() as int] == ' ',
        forall|m: Seq<char>, a: Seq<char>, b: Seq<char>, c: Seq<char>| #[trigger]
            fmt3(m, a, b, c).subrange(0, m.len() as int) == m && fmt3(m, a, b, c).len() > m.len() && fmt3(m, a, b, c)[m.len() as int] == ' ',
        forall|m: Seq<char>, a: Seq<char>, b: Seq<char>, c: Seq<char>, d: Seq<char>| #[trigger]
            fmt4(m, a, b, c, d).subrange(0, m.len() as int) == m && fmt4(m, a, b, c, d).len() > m.len() && fmt4(m, a, b, c, d)[m.len() as int] == ' ',
{
    assert forall|m: Seq<char>, a: Seq<char>| #[trigger]
        fmt1(m, a).subrange(0, m.len() as int) == m && fmt1(m, a).len() > m.len() && fmt1(m, a)[m.len() as int] == ' ' by {
        assert(fmt1(m, a).subrange(0, m.len() as int) =~= m);
    }
    assert forall|m: Seq<char>, a: Seq<char>, b: Seq<char>| #[trigger]
        fmt2(m, a, b).subrange(0, m.len() as int) == m && fmt2(m, a, b).len() > m.len() && fmt2(m, a, b)[m.len() as int] == ' ' by {
        assert(fmt2(m, a, b).subrange(0, m.len() as int) =~= m);
    }
    assert forall|m: Seq<char>, a: Seq<char>, b: Seq<char>, c: Seq<char>| #[trigger]
        fmt3(m, a, b, c).subrange(0, m.len() as int) == m && fmt3(m, a, b, c).len() > m.len() && fmt3(m, a, b, c)[m.len() as int] == ' ' by {
        assert(fmt3(m, a, b, c).subrange(0, m.len() as int) =~= m);
    }
    assert forall|m: Seq<char>, a: Seq<char>, b: Seq<char>, c: Seq<char>, d: Seq<char>| #[trigger]
        fmt4(m, a, b, c, d).subrange(0, m.len() as int) == m && fmt4(m, a, b, c, d).len() > m.len() && fmt4(m, a, b, c, d)[m.len() as int] == ' ' by {
        assert(fmt4(m, a, b, c, d).subrange(0, m.len() as int) =~= m);
    }
}

/// The disassembly text opens with the mnemonic, followed by a space before any operands.
pub proof fn law_text_opens_with_mnemonic(i: Instruction)
    ensures
        i.text().len() >= i.mnemonic().len(),
        i.text().subrange(0, i.mnemonic().len() as int) == i.mnemonic(),
        i.text().len() == i.mnemonic().len() || i.text()[i.mnemonic().len() as int] == ' ',
{
    lemma_fmt_opens();
    assert(i.text().subrange(0, i.mnemonic().len() as int) =~= i.mnemonic() || i.text() != i.mnemonic());
}

/// A parsed instruction carries the mnemonic written in the line, lower-cased;
/// the one alias is `fencei`, read as `fence.i`.
pub proof fn law_parsed_mnemonic(line: Seq<char>, x: Xlen)
    ensures
        parse_spec(line, x) matches Some(i) ==> tokens(line) matches Some(p) && (i.mnemonic()
            == p.0 || (p.0 == "fencei"@ && i.mnemonic() == "fence.i"@)),
{
}

} // verus!
