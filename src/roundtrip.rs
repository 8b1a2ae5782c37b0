//! Encoding then decoding gives back an instruction with the same text.
use vstd::prelude::*;
use vstd::arithmetic::power2::{pow2, lemma2_to64, lemma_pow2_unfold};
use vstd::bits::lemma_u32_pow2_no_overflow;
use crate::decode::fields::{funct3_of, funct7_of, opcode_of};
use crate::encode::pack::{low, pack_r};
use crate::encode::process32::{
    b_enc, i_enc, j_enc, rv32i_word, rv64i_word, s_enc, sh_enc, u_enc, zicsr_word,
};
use crate::decode::process32::decode32;
use crate::imm::{Imm, Xlen};
use crate::isa::{
    FUNCT12_SYSTEM_EBREAK, FUNCT12_SYSTEM_ECALL, FUNCT3_BRANCH_BEQ, FUNCT3_BRANCH_BGE,
    FUNCT3_BRANCH_BGEU, FUNCT3_BRANCH_BLT, FUNCT3_BRANCH_BLTU, FUNCT3_BRANCH_BNE, FUNCT3_LOAD_LB,
    FUNCT3_LOAD_LBU, FUNCT3_LOAD_LD, FUNCT3_LOAD_LH, FUNCT3_LOAD_LHU, FUNCT3_LOAD_LW,
    FUNCT3_LOAD_LWU, FUNCT3_MISC_MEM_FENCE, FUNCT3_MISC_MEM_FENCE_I, FUNCT3_OP_ADD_SUB,
    FUNCT3_OP_AND, FUNCT3_OP_OR, FUNCT3_OP_SLL, FUNCT3_OP_SLT, FUNCT3_OP_SLTU, FUNCT3_OP_SRL_SRA,
    FUNCT3_OP_XOR, FUNCT3_STORE_SB, FUNCT3_STORE_SD, FUNCT3_STORE_SH, FUNCT3_STORE_SW,
    FUNCT3_SYSTEM_CSRRC, FUNCT3_SYSTEM_CSRRCI, FUNCT3_SYSTEM_CSRRS, FUNCT3_SYSTEM_CSRRSI,
    FUNCT3_SYSTEM_CSRRW, FUNCT3_SYSTEM_CSRRWI, FUNCT3_SYSTEM_PRIV, FUNCT7_MULDIV, FUNCT7_OP_ADD,
    FUNCT7_OP_SRA, FUNCT7_OP_SRL, FUNCT7_OP_SUB, OPCODE_AUIPC, OPCODE_BRANCH, OPCODE_JAL,
    OPCODE_JALR, OPCODE_LOAD, OPCODE_LUI, OPCODE_MISC_MEM, OPCODE_OP, OPCODE_OP_32, OPCODE_OP_IMM,
    OPCODE_OP_IMM32, OPCODE_STORE, OPCODE_SYSTEM,
};
use crate::decode::fields::{
    b_fields, i_fields, j_fields, r_fields, s_fields, shift_fields, u_fields,
};
use crate::model::same::same_instruction;
use crate::model::{BType, IType, Instruction, JType, RType, RV32I, RV64I, RVZicsr, SType, UType};

verus! {

proof fn lemma_i_fields(op: u32, rd: u32, f3: u32, rs1: u32, imm: u32)
    by (bit_vector)
    requires
        op < 128,
        rd < 32,
        f3 < 8,
        rs1 < 32,
        imm < 4096,
    ensures
        ({
            let w = (imm * 1048576 + rs1 * 32768 + f3 * 4096 + rd * 128 + op) as u32;
            &&& w % 128 == op
            &&& (w / 128) % 32 == rd
            &&& (w / 4096) % 8 == f3
            &&& (w / 32768) % 32 == rs1
            &&& w / 1048576 == imm
            &&& w / 33554432 == imm / 32
            &&& (w / 1048576) % 32 == imm % 32
            &&& (w / 1048576) % 64 == imm % 64
        }),
{
}

proof fn lemma_b_fields(op: u32, f3: u32, rs1: u32, rs2: u32, imm: u32)
    by (bit_vector)
    requires
        op < 128,
        f3 < 8,
        rs1 < 32,
        rs2 < 32,
        imm < 8192,
        imm % 2 == 0,
    ensures
        ({
            let w = (((imm / 4096) % 2) * 2147483648 + ((imm / 32) % 64) * 33554432 + rs2 * 1048576
                + rs1 * 32768 + f3 * 4096 + ((imm / 2) % 16) * 256 + ((imm / 2048) % 2) * 128
                + op) as u32;
            &&& w % 128 == op
            &&& (w / 4096) % 8 == f3
            &&& (w / 32768) % 32 == rs1
            &&& (w / 1048576) % 32 == rs2
            &&& (w / 2147483648) * 4096 + ((w / 128) % 2) * 2048 + ((w / 33554432) % 64) * 32 + ((w
                / 256) % 16) * 2 == imm
        }),
{
}

proof fn lemma_r_fields(op: u32, rd: u32, f3: u32, rs1: u32, rs2: u32, f7: u32)
    by (bit_vector)
    requires
        op < 128,
        rd < 32,
        f3 < 8,
        rs1 < 32,
        rs2 < 32,
        f7 < 128,
    ensures
        ({
            let w = (f7 * 33554432 + rs2 * 1048576 + rs1 * 32768 + f3 * 4096 + rd * 128
                + op) as u32;
            &&& w % 128 == op
            &&& (w / 128) % 32 == rd
            &&& (w / 4096) % 8 == f3
            &&& (w / 32768) % 32 == rs1
            &&& (w / 1048576) % 32 == rs2
            &&& w / 33554432 == f7
        }),
{
}

proof fn lemma_s_fields(op: u32, f3: u32, rs1: u32, rs2: u32, imm: u32)
    by (bit_vector)
    requires
        op < 128,
        f3 < 8,
        rs1 < 32,
        rs2 < 32,
        imm < 4096,
    ensures
        ({
            let w = ((imm / 32) * 33554432 + rs2 * 1048576 + rs1 * 32768 + f3 * 4096 + (imm % 32)
                * 128 + op) as u32;
            &&& w % 128 == op
            &&& (w / 4096) % 8 == f3
            &&& (w / 32768) % 32 == rs1
            &&& (w / 1048576) % 32 == rs2
            &&& (w / 33554432) * 32 + (w / 128) % 32 == imm
        }),
{
}

proof fn lemma_u_fields(op: u32, rd: u32, imm: u32)
    by (bit_vector)
    requires
        op < 128,
        rd < 32,
    ensures
        ({
            let w = ((imm / 4096) * 4096 + rd * 128 + op) as u32;
            &&& w % 128 == op
            &&& (w / 128) % 32 == rd
            &&& (w / 4096) * 4096 == (imm / 4096) * 4096
        }),
{
}

proof fn lemma_j_fields(op: u32, rd: u32, imm: u32)
    by (bit_vector)
    requires
        op < 128,
        rd < 32,
        imm < 2097152,
        imm % 2 == 0,
    ensures
        ({
            let w = (((imm / 1048576) % 2) * 2147483648 + ((imm / 2) % 1024) * 2097152 + ((imm
                / 2048) % 2) * 1048576 + ((imm / 4096) % 256) * 4096 + rd * 128 + op) as u32;
            &&& w % 128 == op
            &&& (w / 128) % 32 == rd
            &&& (w / 2147483648) * 1048576 + ((w / 4096) % 256) * 4096 + ((w / 1048576) % 2) * 2048
                + ((w / 2097152) % 1024) * 2 == imm
        }),
{
}

/// The immediate made of the low `n` bits of `v`.
pub open spec fn read_back(v: int, n: u8) -> Imm {
    Imm { bits: (v % (pow2(n as nat) as int)) as u32, width: n }
}

/// Reading back the low `n` bits of a value that fits `n` signed bits gives the value.
pub proof fn lemma_sign_back(v: int, n: u8)
    requires
        1 <= n <= 32,
        -pow2((n - 1) as nat) <= v < pow2((n - 1) as nat),
    ensures
        read_back(v, n).value() == v,
        0 <= v % (pow2(n as nat) as int) < pow2(n as nat),
{
    let p = pow2(n as nat) as int;
    let h = pow2((n - 1) as nat) as int;
    lemma_pow2_unfold(n as nat);
    lemma2_to64();
    if n < 32 {
        lemma_u32_pow2_no_overflow(n as nat);
    }
    assert(p <= 0x1_0000_0000);
    assert(p == 2 * h);
    if v >= 0 {
        assert(v % p == v) by (nonlinear_arith)
            requires
                0 <= v < p,
        ;
    } else {
        assert(v % p == v + p) by (nonlinear_arith)
            requires
                -p <= v < 0,
        ;
    }
}

proof fn lemma_i_enc(op: u32, f3: u8, t: IType)
    requires
        op < 128,
        f3 < 8,
        t.wf(),
        i_enc(op, f3, t) is Some,
    ensures
        ({
            let w = i_enc(op, f3, t)->0;
            &&& opcode_of(w) == op
            &&& funct3_of(w) == f3
            &&& i_fields(w).rd == t.rd
            &&& i_fields(w).rs1 == t.rs1
            &&& i_fields(w).imm.value() == t.imm.value()
        }),
{
    lemma2_to64();
    lemma_sign_back(t.imm.value(), 12);
    lemma_i_fields(op, t.rd as u32, f3 as u32, t.rs1 as u32, low(t.imm, 4096));
}

proof fn lemma_s_enc(op: u32, f3: u8, t: SType)
    requires
        op < 128,
        f3 < 8,
        t.wf(),
        s_enc(op, f3, t) is Some,
    ensures
        ({
            let w = s_enc(op, f3, t)->0;
            &&& opcode_of(w) == op
            &&& funct3_of(w) == f3
            &&& s_fields(w).rs1 == t.rs1
            &&& s_fields(w).rs2 == t.rs2
            &&& s_fields(w).imm.value() == t.imm.value()
        }),
{
    lemma2_to64();
    lemma_sign_back(t.imm.value(), 12);
    lemma_s_fields(op, f3 as u32, t.rs1 as u32, t.rs2 as u32, low(t.imm, 4096));
}

proof fn lemma_b_enc(op: u32, f3: u8, t: BType)
    requires
        op < 128,
        f3 < 8,
        t.wf(),
        b_enc(op, f3, t) is Some,
    ensures
        ({
            let w = b_enc(op, f3, t)->0;
            &&& opcode_of(w) == op
            &&& funct3_of(w) == f3
            &&& b_fields(w).rs1 == t.rs1
            &&& b_fields(w).rs2 == t.rs2
            &&& b_fields(w).imm.value() == t.imm.value()
        }),
{
    lemma2_to64();
    lemma_sign_back(t.imm.value(), 13);
    lemma_b_fields(op, f3 as u32, t.rs1 as u32, t.rs2 as u32, low(t.imm, 8192));
}

proof fn lemma_j_enc(op: u32, t: JType)
    requires
        op < 128,
        t.wf(),
        j_enc(op, t) is Some,
    ensures
        ({
            let w = j_enc(op, t)->0;
            &&& opcode_of(w) == op
            &&& j_fields(w).rd == t.rd
            &&& j_fields(w).imm.value() == t.imm.value()
        }),
{
    lemma2_to64();
    lemma_sign_back(t.imm.value(), 21);
    lemma_j_fields(op, t.rd as u32, low(t.imm, 2097152));
}

proof fn lemma_u_enc(op: u32, t: UType)
    requires
        op < 128,
        t.wf(),
        u_enc(op, t) is Some,
    ensures
        ({
            let w = u_enc(op, t)->0;
            &&& opcode_of(w) == op
            &&& u_fields(w).rd == t.rd
            &&& u_fields(w).imm.bits / 4096 == t.imm.bits / 4096
        }),
{
    lemma_u_fields(op, t.rd as u32, t.imm.bits);
}

proof fn lemma_sh_enc(op: u32, f3: u8, hi: u32, lim: u32, t: IType)
    requires
        op < 128,
        f3 < 8,
        hi == 0 || hi == 1024,
        lim == 32 || lim == 64,
        t.wf(),
        sh_enc(op, f3, hi, lim, t) is Some,
    ensures
        ({
            let w = sh_enc(op, f3, hi, lim, t)->0;
            &&& opcode_of(w) == op
            &&& funct3_of(w) == f3
            &&& funct7_of(w) == (hi + t.imm.bits) / 32
            &&& funct7_of(w) / 2 == hi / 64
            &&& (t.imm.bits < 32 ==> funct7_of(w) == hi / 32)
            &&& shift_fields(w, 6).rd == t.rd
            &&& shift_fields(w, 6).rs1 == t.rs1
            &&& shift_fields(w, 6).imm.bits == t.imm.bits
            &&& shift_fields(w, 5).rd == t.rd
            &&& shift_fields(w, 5).rs1 == t.rs1
            &&& (t.imm.bits < 32 ==> shift_fields(w, 5).imm.bits == t.imm.bits)
        }),
{
    lemma_i_fields(op, t.rd as u32, f3 as u32, t.rs1 as u32, (hi + t.imm.bits) as u32);
}

proof fn lemma_r_enc(op: u32, f3: u8, f7: u8, t: RType)
    requires
        op < 128,
        f3 < 8,
        f7 < 128,
        t.wf(),
    ensures
        ({
            let w = pack_r(op, t.rd, f3, t.rs1, t.rs2, f7);
            &&& opcode_of(w) == op
            &&& funct3_of(w) == f3
            &&& funct7_of(w) == f7
            &&& r_fields(w).rd == t.rd
            &&& r_fields(w).rs1 == t.rs1
            &&& r_fields(w).rs2 == t.rs2
        }),
{
    lemma_r_fields(op, t.rd as u32, f3 as u32, t.rs1 as u32, t.rs2 as u32, f7 as u32);
}

/// A base-group instruction that encodes decodes back, at any width, to an instruction
/// with the same text; the exception is the shared REM/REMU word, which reads as
/// REM at 32 bits and as REMU above.
pub proof fn law_round_trip_base(i: RV32I, x: Xlen)
    requires
        i.wf(),
        rv32i_word(i) is Some,
        !(i is Rem && x != Xlen::X32),
        !(i is Remu && x == Xlen::X32),
    ensures
        decode32(rv32i_word(i)->0, x) matches Some(j) && j.text() == Instruction::RV32I(i).text()
            && (x == Xlen::X32 || !(i is Slli || i is Srli || i is Srai) ==> same_instruction(
            Instruction::RV32I(i),
            j,
        )),
{
    lemma2_to64();
    match i {
        RV32I::Lui(t) => {
            lemma_u_enc(OPCODE_LUI, t);
        },
        RV32I::Auipc(t) => {
            lemma_u_enc(OPCODE_AUIPC, t);
        },
        RV32I::Jal(t) => {
            lemma_j_enc(OPCODE_JAL, t);
        },
        RV32I::Jalr(t) => {
            lemma_i_enc(OPCODE_JALR, 0, t);
        },
        RV32I::Beq(t) => {
            lemma_b_enc(OPCODE_BRANCH, FUNCT3_BRANCH_BEQ, t);
        },
        RV32I::Bne(t) => {
            lemma_b_enc(OPCODE_BRANCH, FUNCT3_BRANCH_BNE, t);
        },
        RV32I::Blt(t) => {
            lemma_b_enc(OPCODE_BRANCH, FUNCT3_BRANCH_BLT, t);
        },
        RV32I::Bge(t) => {
            lemma_b_enc(OPCODE_BRANCH, FUNCT3_BRANCH_BGE, t);
        },
        RV32I::Bltu(t) => {
            lemma_b_enc(OPCODE_BRANCH, FUNCT3_BRANCH_BLTU, t);
        },
        RV32I::Bgeu(t) => {
            lemma_b_enc(OPCODE_BRANCH, FUNCT3_BRANCH_BGEU, t);
        },
        RV32I::Lb(t) => {
            lemma_i_enc(OPCODE_LOAD, FUNCT3_LOAD_LB, t);
        },
        RV32I::Lh(t) => {
            lemma_i_enc(OPCODE_LOAD, FUNCT3_LOAD_LH, t);
        },
        RV32I::Lw(t) => {
            lemma_i_enc(OPCODE_LOAD, FUNCT3_LOAD_LW, t);
        },
        RV32I::Lbu(t) => {
            lemma_i_enc(OPCODE_LOAD, FUNCT3_LOAD_LBU, t);
        },
        RV32I::Lhu(t) => {
            lemma_i_enc(OPCODE_LOAD, FUNCT3_LOAD_LHU, t);
        },
        RV32I::Sb(t) => {
            lemma_s_enc(OPCODE_STORE, FUNCT3_STORE_SB, t);
        },
        RV32I::Sh(t) => {
            lemma_s_enc(OPCODE_STORE, FUNCT3_STORE_SH, t);
        },
        RV32I::Sw(t) => {
            lemma_s_enc(OPCODE_STORE, FUNCT3_STORE_SW, t);
        },
        RV32I::Addi(t) => {
            lemma_i_enc(OPCODE_OP_IMM, FUNCT3_OP_ADD_SUB, t);
        },
        RV32I::Slti(t) => {
            lemma_i_enc(OPCODE_OP_IMM, FUNCT3_OP_SLT, t);
        },
        RV32I::Sltiu(t) => {
            lemma_i_enc(OPCODE_OP_IMM, FUNCT3_OP_SLTU, t);
        },
        RV32I::Xori(t) => {
            lemma_i_enc(OPCODE_OP_IMM, FUNCT3_OP_XOR, t);
        },
        RV32I::Ori(t) => {
            lemma_i_enc(OPCODE_OP_IMM, FUNCT3_OP_OR, t);
        },
        RV32I::Andi(t) => {
            lemma_i_enc(OPCODE_OP_IMM, FUNCT3_OP_AND, t);
        },
        RV32I::Slli(t) => {
            lemma_sh_enc(OPCODE_OP_IMM, FUNCT3_OP_SLL, 0, 32, t);
        },
        RV32I::Srli(t) => {
            lemma_sh_enc(OPCODE_OP_IMM, FUNCT3_OP_SRL_SRA, 0, 32, t);
        },
        RV32I::Srai(t) => {
            lemma_sh_enc(OPCODE_OP_IMM, FUNCT3_OP_SRL_SRA, 1024, 32, t);
        },
        RV32I::Add(t) => {
            lemma_r_enc(OPCODE_OP, FUNCT3_OP_ADD_SUB, FUNCT7_OP_ADD, t);
        },
        RV32I::Sub(t) => {
            lemma_r_enc(OPCODE_OP, FUNCT3_OP_ADD_SUB, FUNCT7_OP_SUB, t);
        },
        RV32I::Sll(t) => {
            lemma_r_enc(OPCODE_OP, FUNCT3_OP_SLL, 0, t);
        },
        RV32I::Slt(t) => {
            lemma_r_enc(OPCODE_OP, FUNCT3_OP_SLT, 0, t);
        },
        RV32I::Sltu(t) => {
            lemma_r_enc(OPCODE_OP, FUNCT3_OP_SLTU, 0, t);
        },
        RV32I::Xor(t) => {
            lemma_r_enc(OPCODE_OP, FUNCT3_OP_XOR, 0, t);
        },
        RV32I::Srl(t) => {
            lemma_r_enc(OPCODE_OP, FUNCT3_OP_SRL_SRA, FUNCT7_OP_SRL, t);
        },
        RV32I::Sra(t) => {
            lemma_r_enc(OPCODE_OP, FUNCT3_OP_SRL_SRA, FUNCT7_OP_SRA, t);
        },
        RV32I::Or(t) => {
            lemma_r_enc(OPCODE_OP, FUNCT3_OP_OR, 0, t);
        },
        RV32I::And(t) => {
            lemma_r_enc(OPCODE_OP, FUNCT3_OP_AND, 0, t);
        },
        RV32I::Mul(t) => {
            lemma_r_enc(OPCODE_OP, FUNCT3_OP_ADD_SUB, FUNCT7_MULDIV, t);
        },
        RV32I::Mulh(t) => {
            lemma_r_enc(OPCODE_OP, FUNCT3_OP_SLL, FUNCT7_MULDIV, t);
        },
        RV32I::Mulhsu(t) => {
            lemma_r_enc(OPCODE_OP, FUNCT3_OP_XOR, FUNCT7_MULDIV, t);
        },
        RV32I::Mulhu(t) => {
            lemma_r_enc(OPCODE_OP, FUNCT3_OP_SLTU, FUNCT7_MULDIV, t);
        },
        RV32I::Div(t) => {
            lemma_r_enc(OPCODE_OP, FUNCT3_OP_SRL_SRA, FUNCT7_MULDIV, t);
        },
        RV32I::Divu(t) => {
            lemma_r_enc(OPCODE_OP, FUNCT3_OP_OR, FUNCT7_MULDIV, t);
        },
        RV32I::Rem(t) => {
            lemma_r_enc(OPCODE_OP, FUNCT3_OP_AND, FUNCT7_MULDIV, t);
        },
        RV32I::Remu(t) => {
            lemma_r_enc(OPCODE_OP, FUNCT3_OP_AND, FUNCT7_MULDIV, t);
        },
        RV32I::Fence => {
            lemma_i_fields(OPCODE_MISC_MEM, 0, FUNCT3_MISC_MEM_FENCE as u32, 0, 0);
        },
        RV32I::FenceI => {
            lemma_i_fields(OPCODE_MISC_MEM, 0, FUNCT3_MISC_MEM_FENCE_I as u32, 0, 0);
        },
        RV32I::Ecall => {
            lemma_i_fields(OPCODE_SYSTEM, 0, FUNCT3_SYSTEM_PRIV as u32, 0, FUNCT12_SYSTEM_ECALL);
        },
        RV32I::Ebreak => {
            lemma_i_fields(OPCODE_SYSTEM, 0, FUNCT3_SYSTEM_PRIV as u32, 0, FUNCT12_SYSTEM_EBREAK);
        },
    }
}

/// A wide-group instruction that encodes decodes back, at 64 or 128 bits, to an
/// instruction with the same text.
pub proof fn law_round_trip_wide(i: RV64I, x: Xlen)
    requires
        i.wf(),
        rv64i_word(i) is Some,
        x != Xlen::X32,
    ensures
        decode32(rv64i_word(i)->0, x) matches Some(j) && j.text() == Instruction::RV64I(i).text()
            && same_instruction(Instruction::RV64I(i), j),
{
    lemma2_to64();
    match i {
        RV64I::Lwu(t) => {
            lemma_i_enc(OPCODE_LOAD, FUNCT3_LOAD_LWU, t);
        },
        RV64I::Ld(t) => {
            lemma_i_enc(OPCODE_LOAD, FUNCT3_LOAD_LD, t);
        },
        RV64I::Sd(t) => {
            lemma_s_enc(OPCODE_STORE, FUNCT3_STORE_SD, t);
        },
        RV64I::Slli(t) => {
            lemma_sh_enc(OPCODE_OP_IMM, FUNCT3_OP_SLL, 0, 64, t);
        },
        RV64I::Srli(t) => {
            lemma_sh_enc(OPCODE_OP_IMM, FUNCT3_OP_SRL_SRA, 0, 64, t);
        },
        RV64I::Srai(t) => {
            lemma_sh_enc(OPCODE_OP_IMM, FUNCT3_OP_SRL_SRA, 1024, 64, t);
        },
        RV64I::Addiw(t) => {
            lemma_i_enc(OPCODE_OP_IMM32, FUNCT3_OP_ADD_SUB, t);
        },
        RV64I::Slliw(t) => {
            lemma_sh_enc(OPCODE_OP_IMM32, FUNCT3_OP_SLL, 0, 32, t);
        },
        RV64I::Srliw(t) => {
            lemma_sh_enc(OPCODE_OP_IMM32, FUNCT3_OP_SRL_SRA, 0, 32, t);
        },
        RV64I::Sraiw(t) => {
            lemma_sh_enc(OPCODE_OP_IMM32, FUNCT3_OP_SRL_SRA, 1024, 32, t);
        },
        RV64I::Addw(t) => {
            lemma_r_enc(OPCODE_OP_32, FUNCT3_OP_ADD_SUB, FUNCT7_OP_ADD, t);
        },
        RV64I::Subw(t) => {
            lemma_r_enc(OPCODE_OP_32, FUNCT3_OP_ADD_SUB, FUNCT7_OP_SUB, t);
        },
        RV64I::Sllw(t) => {
            lemma_r_enc(OPCODE_OP_32, FUNCT3_OP_SLL, 0, t);
        },
        RV64I::Srlw(t) => {
            lemma_r_enc(OPCODE_OP_32, FUNCT3_OP_SRL_SRA, FUNCT7_OP_SRL, t);
        },
        RV64I::Sraw(t) => {
            lemma_r_enc(OPCODE_OP_32, FUNCT3_OP_SRL_SRA, FUNCT7_OP_SRA, t);
        },
    }
}

/// A CSR instruction decodes back from its word, at any width, to one with the same text.
pub proof fn law_round_trip_csr(i: RVZicsr, x: Xlen)
    requires
        i.wf(),
    ensures
        decode32(zicsr_word(i), x) matches Some(j) && j.text() == Instruction::RVZicsr(i).text()
            && same_instruction(Instruction::RVZicsr(i), j),
{
    lemma2_to64();
    match i {
        RVZicsr::Csrrw(t) => {
            lemma_i_fields(OPCODE_SYSTEM, t.rd as u32, FUNCT3_SYSTEM_CSRRW as u32, t.rs1 as u32,
                t.csr as u32);
        },
        RVZicsr::Csrrs(t) => {
            lemma_i_fields(OPCODE_SYSTEM, t.rd as u32, FUNCT3_SYSTEM_CSRRS as u32, t.rs1 as u32,
                t.csr as u32);
        },
        RVZicsr::Csrrc(t) => {
            lemma_i_fields(OPCODE_SYSTEM, t.rd as u32, FUNCT3_SYSTEM_CSRRC as u32, t.rs1 as u32,
                t.csr as u32);
        },
        RVZicsr::Csrrwi(t) => {
            lemma_i_fields(OPCODE_SYSTEM, t.rd as u32, FUNCT3_SYSTEM_CSRRWI as u32, t.uimm.bits,
                t.csr as u32);
        },
        RVZicsr::Csrrsi(t) => {
            lemma_i_fields(OPCODE_SYSTEM, t.rd as u32, FUNCT3_SYSTEM_CSRRSI as u32, t.uimm.bits,
                t.csr as u32);
        },
        RVZicsr::Csrrci(t) => {
            lemma_i_fields(OPCODE_SYSTEM, t.rd as u32, FUNCT3_SYSTEM_CSRRCI as u32, t.uimm.bits,
                t.csr as u32);
        },
    }
}

} // verus!
