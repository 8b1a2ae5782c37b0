//! The 32-bit encoder: each variant packed into its format with its fixed
//! opcode and function codes, after the immediate's range and alignment checks.
use vstd::prelude::*;
use vstd::arithmetic::power2::lemma2_to64;
use crate::imm::Xlen;
use crate::isa::{
    FUNCT12_SYSTEM_EBREAK, FUNCT12_SYSTEM_ECALL, FUNCT3_BRANCH_BEQ, FUNCT3_BRANCH_BGE,
    FUNCT3_BRANCH_BGEU, FUNCT3_BRANCH_BLT, FUNCT3_BRANCH_BLTU, FUNCT3_BRANCH_BNE, FUNCT3_LOAD_LB,
    FUNCT3_LOAD_LBU, FUNCT3_LOAD_LD, FUNCT3_LOAD_LH, FUNCT3_LOAD_LHU, FUNCT3_LOAD_LW,
    FUNCT3_LOAD_LWU, FUNCT3_MISC_MEM_FENCE, FUNCT3_MISC_MEM_FENCE_I, FUNCT3_OP_ADD_SUB,
    FUNCT3_OP_AND, FUNCT3_OP_OR, FUNCT3_OP_SLL, FUNCT3_OP_SLT, FUNCT3_OP_SLTU, FUNCT3_OP_SRL_SRA,
    FUNCT3_OP_XOR, FUNCT3_STORE_SB, FUNCT3_STORE_SD, FUNCT3_STORE_SH, FUNCT3_STORE_SW,
    FUNCT3_SYSTEM_CSRRC, FUNCT3_SYSTEM_CSRRCI, FUNCT3_SYSTEM_CSRRS, FUNCT3_SYSTEM_CSRRSI,
    FUNCT3_SYSTEM_CSRRW, FUNCT3_SYSTEM_CSRRWI, FUNCT3_SYSTEM_PRIV, FUNCT7_MULDIV, FUNCT7_OP_ADD,
    FUNCT7_OP_SRA, FUNCT7_OP_SRL, FUNCT7_OP_SUB, OPCODE_AUIPC, OPCODE_BRANCH, OPCODE_JAL,
    OPCODE_JALR, OPCODE_LOAD, OPCODE_LUI, OPCODE_MISC_MEM, OPCODE_OP, OPCODE_OP_32, OPCODE_OP_IMM,
    OPCODE_OP_IMM32, OPCODE_STORE, OPCODE_SYSTEM,
};
use crate::model::{BType, IType, Instruction, JType, RV32I, RV64I, RVZicsr, SType, UType};
use super::pack::{
    fits, low, low_in_range, pack_b, pack_i, pack_j, pack_r, pack_s, pack_u, put_b, put_i, put_j,
    put_r, put_s, put_u,
};

verus! {

pub open spec fn u_enc(op: u32, t: UType) -> Option<u32> {
    if t.imm.bits % 4096 == 0 {
        Some(pack_u(op, t.rd, t.imm.bits))
    } else {
        None
    }
}

pub open spec fn j_enc(op: u32, t: JType) -> Option<u32> {
    if fits(t.imm, -1048576, 1048575) && low(t.imm, 2097152) % 2 == 0 {
        Some(pack_j(op, t.rd, low(t.imm, 2097152)))
    } else {
        None
    }
}

pub open spec fn i_enc(op: u32, f3: u8, t: IType) -> Option<u32> {
    if fits(t.imm, -2048, 2047) {
        Some(pack_i(op, t.rd, f3, t.rs1, low(t.imm, 4096)))
    } else {
        None
    }
}

pub open spec fn s_enc(op: u32, f3: u8, t: SType) -> Option<u32> {
    if fits(t.imm, -2048, 2047) {
        Some(pack_s(op, f3, t.rs1, t.rs2, low(t.imm, 4096)))
    } else {
        None
    }
}

pub open spec fn b_enc(op: u32, f3: u8, t: BType) -> Option<u32> {
    if fits(t.imm, -4096, 4095) && low(t.imm, 8192) % 2 == 0 {
        Some(pack_b(op, f3, t.rs1, t.rs2, low(t.imm, 8192)))
    } else {
        None
    }
}

/// An immediate shift: the amount must be below `lim`; `hi` carries the
/// arithmetic-shift selector of the upper immediate bits.
pub open spec fn sh_enc(op: u32, f3: u8, hi: u32, lim: u32, t: IType) -> Option<u32> {
    if t.imm.bits < lim {
        Some(pack_i(op, t.rd, f3, t.rs1, (hi + t.imm.bits) as u32))
    } else {
        None
    }
}

fn enc_u(op: u32, t: UType) -> (r: Result<u32, String>)
    requires
        op < 128,
        t.wf(),
    ensures
        r matches Ok(w) ==> u_enc(op, t) == Some(w),
        r is Err <==> u_enc(op, t) is None,
{
    if t.imm.bits % 4096 == 0 {
        Ok(put_u(op, t.rd, t.imm.bits))
    } else {
        Err("upper immediate has bits set below bit 12".to_owned())
    }
}

fn enc_j(op: u32, t: JType) -> (r: Result<u32, String>)
    requires
        op < 128,
        t.wf(),
    ensures
        r matches Ok(w) ==> j_enc(op, t) == Some(w),
        r is Err <==> j_enc(op, t) is None,
{
    match low_in_range(&t.imm, -1048576, 1048575, 2097152) {
        None => Err("jump offset out of range (21 bits)".to_owned()),
        Some(v) => {
            if v % 2 != 0 {
                Err("jump offset must be 2-byte aligned".to_owned())
            } else {
                Ok(put_j(op, t.rd, v))
            }
        },
    }
}

fn enc_i(op: u32, f3: u8, t: IType) -> (r: Result<u32, String>)
    requires
        op < 128,
        f3 < 8,
        t.wf(),
    ensures
        r matches Ok(w) ==> i_enc(op, f3, t) == Some(w),
        r is Err <==> i_enc(op, f3, t) is None,
{
    match low_in_range(&t.imm, -2048, 2047, 4096) {
        None => Err("immediate out of range (12 bits)".to_owned()),
        Some(v) => Ok(put_i(op, t.rd, f3, t.rs1, v)),
    }
}

fn enc_s(op: u32, f3: u8, t: SType) -> (r: Result<u32, String>)
    requires
        op < 128,
        f3 < 8,
        t.wf(),
    ensures
        r matches Ok(w) ==> s_enc(op, f3, t) == Some(w),
        r is Err <==> s_enc(op, f3, t) is None,
{
    match low_in_range(&t.imm, -2048, 2047, 4096) {
        None => Err("store offset out of range (12 bits)".to_owned()),
        Some(v) => Ok(put_s(op, f3, t.rs1, t.rs2, v)),
    }
}

fn enc_b(op: u32, f3: u8, t: BType) -> (r: Result<u32, String>)
    requires
        op < 128,
        f3 < 8,
        t.wf(),
    ensures
        r matches Ok(w) ==> b_enc(op, f3, t) == Some(w),
        r is Err <==> b_enc(op, f3, t) is None,
{
    match low_in_range(&t.imm, -4096, 4095, 8192) {
        None => Err("branch offset out of range (13 bits)".to_owned()),
        Some(v) => {
            if v % 2 != 0 {
                Err("branch offset must be 2-byte aligned".to_owned())
            } else {
                Ok(put_b(op, f3, t.rs1, t.rs2, v))
            }
        },
    }
}

fn enc_shift(op: u32, f3: u8, hi: u32, lim: u32, t: IType) -> (r: Result<u32, String>)
    requires
        op < 128,
        f3 < 8,
        hi == 0 || hi == 1024,
        lim == 32 || lim == 64,
        t.wf(),
    ensures
        r matches Ok(w) ==> sh_enc(op, f3, hi, lim, t) == Some(w),
        r is Err <==> sh_enc(op, f3, hi, lim, t) is None,
{
    if t.imm.bits < lim {
        Ok(put_i(op, t.rd, f3, t.rs1, hi + t.imm.bits))
    } else {
        Err("shift amount out of range".to_owned())
    }
}

/// The base-group word of an instruction, if its immediate meets the format's rules.
pub open spec fn rv32i_word(i: RV32I) -> Option<u32> {
    match i {
        RV32I::Lui(t) => u_enc(OPCODE_LUI, t),
        RV32I::Auipc(t) => u_enc(OPCODE_AUIPC, t),
        RV32I::Jal(t) => j_enc(OPCODE_JAL, t),
        RV32I::Jalr(t) => i_enc(OPCODE_JALR, 0, t),
        RV32I::Beq(t) => b_enc(OPCODE_BRANCH, FUNCT3_BRANCH_BEQ, t),
        RV32I::Bne(t) => b_enc(OPCODE_BRANCH, FUNCT3_BRANCH_BNE, t),
        RV32I::Blt(t) => b_enc(OPCODE_BRANCH, FUNCT3_BRANCH_BLT, t),
        RV32I::Bge(t) => b_enc(OPCODE_BRANCH, FUNCT3_BRANCH_BGE, t),
        RV32I::Bltu(t) => b_enc(OPCODE_BRANCH, FUNCT3_BRANCH_BLTU, t),
        RV32I::Bgeu(t) => b_enc(OPCODE_BRANCH, FUNCT3_BRANCH_BGEU, t),
        RV32I::Lb(t) => i_enc(OPCODE_LOAD, FUNCT3_LOAD_LB, t),
        RV32I::Lh(t) => i_enc(OPCODE_LOAD, FUNCT3_LOAD_LH, t),
        RV32I::Lw(t) => i_enc(OPCODE_LOAD, FUNCT3_LOAD_LW, t),
        RV32I::Lbu(t) => i_enc(OPCODE_LOAD, FUNCT3_LOAD_LBU, t),
        RV32I::Lhu(t) => i_enc(OPCODE_LOAD, FUNCT3_LOAD_LHU, t),
        RV32I::Sb(t) => s_enc(OPCODE_STORE, FUNCT3_STORE_SB, t),
        RV32I::Sh(t) => s_enc(OPCODE_STORE, FUNCT3_STORE_SH, t),
        RV32I::Sw(t) => s_enc(OPCODE_STORE, FUNCT3_STORE_SW, t),
        RV32I::Addi(t) => i_enc(OPCODE_OP_IMM, FUNCT3_OP_ADD_SUB, t),
        RV32I::Slti(t) => i_enc(OPCODE_OP_IMM, FUNCT3_OP_SLT, t),
        RV32I::Sltiu(t) => i_enc(OPCODE_OP_IMM, FUNCT3_OP_SLTU, t),
        RV32I::Xori(t) => i_enc(OPCODE_OP_IMM, FUNCT3_OP_XOR, t),
        RV32I::Ori(t) => i_enc(OPCODE_OP_IMM, FUNCT3_OP_OR, t),
        RV32I::Andi(t) => i_enc(OPCODE_OP_IMM, FUNCT3_OP_AND, t),
        RV32I::Slli(t) => sh_enc(OPCODE_OP_IMM, FUNCT3_OP_SLL, 0, 32, t),
        RV32I::Srli(t) => sh_enc(OPCODE_OP_IMM, FUNCT3_OP_SRL_SRA, 0, 32, t),
        RV32I::Srai(t) => sh_enc(OPCODE_OP_IMM, FUNCT3_OP_SRL_SRA, 1024, 32, t),
        RV32I::Add(t) => Some(pack_r(OPCODE_OP, t.rd, FUNCT3_OP_ADD_SUB, t.rs1, t.rs2,
            FUNCT7_OP_ADD)),
        RV32I::Sub(t) => Some(pack_r(OPCODE_OP, t.rd, FUNCT3_OP_ADD_SUB, t.rs1, t.rs2,
            FUNCT7_OP_SUB)),
        RV32I::Sll(t) => Some(pack_r(OPCODE_OP, t.rd, FUNCT3_OP_SLL, t.rs1, t.rs2, 0)),
        RV32I::Slt(t) => Some(pack_r(OPCODE_OP, t.rd, FUNCT3_OP_SLT, t.rs1, t.rs2, 0)),
        RV32I::Sltu(t) => Some(pack_r(OPCODE_OP, t.rd, FUNCT3_OP_SLTU, t.rs1, t.rs2, 0)),
        RV32I::Xor(t) => Some(pack_r(OPCODE_OP, t.rd, FUNCT3_OP_XOR, t.rs1, t.rs2, 0)),
        RV32I::Srl(t) => Some(pack_r(OPCODE_OP, t.rd, FUNCT3_OP_SRL_SRA, t.rs1, t.rs2,
            FUNCT7_OP_SRL)),
        RV32I::Sra(t) => Some(pack_r(OPCODE_OP, t.rd, FUNCT3_OP_SRL_SRA, t.rs1, t.rs2,
            FUNCT7_OP_SRA)),
        RV32I::Or(t) => Some(pack_r(OPCODE_OP, t.rd, FUNCT3_OP_OR, t.rs1, t.rs2, 0)),
        RV32I::And(t) => Some(pack_r(OPCODE_OP, t.rd, FUNCT3_OP_AND, t.rs1, t.rs2, 0)),
        RV32I::Mul(t) => Some(pack_r(OPCODE_OP, t.rd, FUNCT3_OP_ADD_SUB, t.rs1, t.rs2,
            FUNCT7_MULDIV)),
        RV32I::Mulh(t) => Some(pack_r(OPCODE_OP, t.rd, FUNCT3_OP_SLL, t.rs1, t.rs2, FUNCT7_MULDIV)),
        RV32I::Mulhsu(t) => Some(pack_r(OPCODE_OP, t.rd, FUNCT3_OP_XOR, t.rs1, t.rs2,
            FUNCT7_MULDIV)),
        RV32I::Mulhu(t) => Some(pack_r(OPCODE_OP, t.rd, FUNCT3_OP_SLTU, t.rs1, t.rs2,
            FUNCT7_MULDIV)),
        RV32I::Div(t) => Some(pack_r(OPCODE_OP, t.rd, FUNCT3_OP_SRL_SRA, t.rs1, t.rs2,
            FUNCT7_MULDIV)),
        RV32I::Divu(t) => Some(pack_r(OPCODE_OP, t.rd, FUNCT3_OP_OR, t.rs1, t.rs2, FUNCT7_MULDIV)),
        RV32I::Rem(t) => Some(pack_r(OPCODE_OP, t.rd, FUNCT3_OP_AND, t.rs1, t.rs2, FUNCT7_MULDIV)),
        RV32I::Remu(t) => Some(pack_r(OPCODE_OP, t.rd, FUNCT3_OP_AND, t.rs1, t.rs2, FUNCT7_MULDIV)),
        RV32I::Fence => Some(pack_i(OPCODE_MISC_MEM, 0, FUNCT3_MISC_MEM_FENCE, 0, 0)),
        RV32I::FenceI => Some(pack_i(OPCODE_MISC_MEM, 0, FUNCT3_MISC_MEM_FENCE_I, 0, 0)),
        RV32I::Ecall => Some(pack_i(OPCODE_SYSTEM, 0, FUNCT3_SYSTEM_PRIV, 0, FUNCT12_SYSTEM_ECALL)),
        RV32I::Ebreak => Some(pack_i(OPCODE_SYSTEM, 0, FUNCT3_SYSTEM_PRIV, 0,
            FUNCT12_SYSTEM_EBREAK)),
    }
}

/// The word of an instruction of the wide group, if its immediate meets the format's rules.
pub open spec fn rv64i_word(i: RV64I) -> Option<u32> {
    match i {
        RV64I::Lwu(t) => i_enc(OPCODE_LOAD, FUNCT3_LOAD_LWU, t),
        RV64I::Ld(t) => i_enc(OPCODE_LOAD, FUNCT3_LOAD_LD, t),
        RV64I::Sd(t) => s_enc(OPCODE_STORE, FUNCT3_STORE_SD, t),
        RV64I::Slli(t) => sh_enc(OPCODE_OP_IMM, FUNCT3_OP_SLL, 0, 64, t),
        RV64I::Srli(t) => sh_enc(OPCODE_OP_IMM, FUNCT3_OP_SRL_SRA, 0, 64, t),
        RV64I::Srai(t) => sh_enc(OPCODE_OP_IMM, FUNCT3_OP_SRL_SRA, 1024, 64, t),
        RV64I::Addiw(t) => i_enc(OPCODE_OP_IMM32, FUNCT3_OP_ADD_SUB, t),
        RV64I::Slliw(t) => sh_enc(OPCODE_OP_IMM32, FUNCT3_OP_SLL, 0, 32, t),
        RV64I::Srliw(t) => sh_enc(OPCODE_OP_IMM32, FUNCT3_OP_SRL_SRA, 0, 32, t),
        RV64I::Sraiw(t) => sh_enc(OPCODE_OP_IMM32, FUNCT3_OP_SRL_SRA, 1024, 32, t),
        RV64I::Addw(t) => Some(pack_r(OPCODE_OP_32, t.rd, FUNCT3_OP_ADD_SUB, t.rs1, t.rs2,
            FUNCT7_OP_ADD)),
        RV64I::Subw(t) => Some(pack_r(OPCODE_OP_32, t.rd, FUNCT3_OP_ADD_SUB, t.rs1, t.rs2,
            FUNCT7_OP_SUB)),
        RV64I::Sllw(t) => Some(pack_r(OPCODE_OP_32, t.rd, FUNCT3_OP_SLL, t.rs1, t.rs2, 0)),
        RV64I::Srlw(t) => Some(pack_r(OPCODE_OP_32, t.rd, FUNCT3_OP_SRL_SRA, t.rs1, t.rs2,
            FUNCT7_OP_SRL)),
        RV64I::Sraw(t) => Some(pack_r(OPCODE_OP_32, t.rd, FUNCT3_OP_SRL_SRA, t.rs1, t.rs2,
            FUNCT7_OP_SRA)),
    }
}

/// The word of a CSR instruction: the CSR number in the I immediate, the 5-bit
/// immediate (for the immediate forms) in the rs1 field.
pub open spec fn zicsr_word(i: RVZicsr) -> u32 {
    match i {
        RVZicsr::Csrrw(t) => pack_i(OPCODE_SYSTEM, t.rd, FUNCT3_SYSTEM_CSRRW, t.rs1, t.csr as u32),
        RVZicsr::Csrrs(t) => pack_i(OPCODE_SYSTEM, t.rd, FUNCT3_SYSTEM_CSRRS, t.rs1, t.csr as u32),
        RVZicsr::Csrrc(t) => pack_i(OPCODE_SYSTEM, t.rd, FUNCT3_SYSTEM_CSRRC, t.rs1, t.csr as u32),
        RVZicsr::Csrrwi(t) => pack_i(OPCODE_SYSTEM, t.rd, FUNCT3_SYSTEM_CSRRWI,
            t.uimm.bits as u8, t.csr as u32),
        RVZicsr::Csrrsi(t) => pack_i(OPCODE_SYSTEM, t.rd, FUNCT3_SYSTEM_CSRRSI,
            t.uimm.bits as u8, t.csr as u32),
        RVZicsr::Csrrci(t) => pack_i(OPCODE_SYSTEM, t.rd, FUNCT3_SYSTEM_CSRRCI,
            t.uimm.bits as u8, t.csr as u32),
    }
}

/// The 32-bit word for an instruction at the given register width, if it has one:
/// the base, wide and CSR groups are encodable; the wide group only above 32 bits.
pub open spec fn encode32(i: Instruction, x: Xlen) -> Option<u32> {
    match i {
        Instruction::RV32I(b) => rv32i_word(b),
        Instruction::RV64I(b) => if x == Xlen::X32 {
            None
        } else {
            rv64i_word(b)
        },
        Instruction::RVZicsr(c) => Some(zicsr_word(c)),
        _ => None,
    }
}

fn encode_rv32i(i: &RV32I) -> (r: Result<u32, String>)
    requires
        i.wf(),
    ensures
        r matches Ok(w) ==> rv32i_word(*i) == Some(w),
        r is Err <==> rv32i_word(*i) is None,
{
    match *i {
        RV32I::Lui(t) => enc_u(OPCODE_LUI, t),
        RV32I::Auipc(t) => enc_u(OPCODE_AUIPC, t),
        RV32I::Jal(t) => enc_j(OPCODE_JAL, t),
        RV32I::Jalr(t) => enc_i(OPCODE_JALR, 0, t),
        RV32I::Beq(t) => enc_b(OPCODE_BRANCH, FUNCT3_BRANCH_BEQ, t),
        RV32I::Bne(t) => enc_b(OPCODE_BRANCH, FUNCT3_BRANCH_BNE, t),
        RV32I::Blt(t) => enc_b(OPCODE_BRANCH, FUNCT3_BRANCH_BLT, t),
        RV32I::Bge(t) => enc_b(OPCODE_BRANCH, FUNCT3_BRANCH_BGE, t),
        RV32I::Bltu(t) => enc_b(OPCODE_BRANCH, FUNCT3_BRANCH_BLTU, t),
        RV32I::Bgeu(t) => enc_b(OPCODE_BRANCH, FUNCT3_BRANCH_BGEU, t),
        RV32I::Lb(t) => enc_i(OPCODE_LOAD, FUNCT3_LOAD_LB, t),
        RV32I::Lh(t) => enc_i(OPCODE_LOAD, FUNCT3_LOAD_LH, t),
        RV32I::Lw(t) => enc_i(OPCODE_LOAD, FUNCT3_LOAD_LW, t),
        RV32I::Lbu(t) => enc_i(OPCODE_LOAD, FUNCT3_LOAD_LBU, t),
        RV32I::Lhu(t) => enc_i(OPCODE_LOAD, FUNCT3_LOAD_LHU, t),
        RV32I::Sb(t) => enc_s(OPCODE_STORE, FUNCT3_STORE_SB, t),
        RV32I::Sh(t) => enc_s(OPCODE_STORE, FUNCT3_STORE_SH, t),
        RV32I::Sw(t) => enc_s(OPCODE_STORE, FUNCT3_STORE_SW, t),
        RV32I::Addi(t) => enc_i(OPCODE_OP_IMM, FUNCT3_OP_ADD_SUB, t),
        RV32I::Slti(t) => enc_i(OPCODE_OP_IMM, FUNCT3_OP_SLT, t),
        RV32I::Sltiu(t) => enc_i(OPCODE_OP_IMM, FUNCT3_OP_SLTU, t),
        RV32I::Xori(t) => enc_i(OPCODE_OP_IMM, FUNCT3_OP_XOR, t),
        RV32I::Ori(t) => enc_i(OPCODE_OP_IMM, FUNCT3_OP_OR, t),
        RV32I::Andi(t) => enc_i(OPCODE_OP_IMM, FUNCT3_OP_AND, t),
        RV32I::Slli(t) => enc_shift(OPCODE_OP_IMM, FUNCT3_OP_SLL, 0, 32, t),
        RV32I::Srli(t) => enc_shift(OPCODE_OP_IMM, FUNCT3_OP_SRL_SRA, 0, 32, t),
        RV32I::Srai(t) => enc_shift(OPCODE_OP_IMM, FUNCT3_OP_SRL_SRA, 1024, 32, t),
        RV32I::Add(t) => Ok(put_r(OPCODE_OP, t.rd, FUNCT3_OP_ADD_SUB, t.rs1, t.rs2, FUNCT7_OP_ADD)),
        RV32I::Sub(t) => Ok(put_r(OPCODE_OP, t.rd, FUNCT3_OP_ADD_SUB, t.rs1, t.rs2, FUNCT7_OP_SUB)),
        RV32I::Sll(t) => Ok(put_r(OPCODE_OP, t.rd, FUNCT3_OP_SLL, t.rs1, t.rs2, 0)),
        RV32I::Slt(t) => Ok(put_r(OPCODE_OP, t.rd, FUNCT3_OP_SLT, t.rs1, t.rs2, 0)),
        RV32I::Sltu(t) => Ok(put_r(OPCODE_OP, t.rd, FUNCT3_OP_SLTU, t.rs1, t.rs2, 0)),
        RV32I::Xor(t) => Ok(put_r(OPCODE_OP, t.rd, FUNCT3_OP_XOR, t.rs1, t.rs2, 0)),
        RV32I::Srl(t) => Ok(put_r(OPCODE_OP, t.rd, FUNCT3_OP_SRL_SRA, t.rs1, t.rs2, FUNCT7_OP_SRL)),
        RV32I::Sra(t) => Ok(put_r(OPCODE_OP, t.rd, FUNCT3_OP_SRL_SRA, t.rs1, t.rs2, FUNCT7_OP_SRA)),
        RV32I::Or(t) => Ok(put_r(OPCODE_OP, t.rd, FUNCT3_OP_OR, t.rs1, t.rs2, 0)),
        RV32I::And(t) => Ok(put_r(OPCODE_OP, t.rd, FUNCT3_OP_AND, t.rs1, t.rs2, 0)),
        RV32I::Mul(t) => Ok(put_r(OPCODE_OP, t.rd, FUNCT3_OP_ADD_SUB, t.rs1, t.rs2, FUNCT7_MULDIV)),
        RV32I::Mulh(t) => Ok(put_r(OPCODE_OP, t.rd, FUNCT3_OP_SLL, t.rs1, t.rs2, FUNCT7_MULDIV)),
        RV32I::Mulhsu(t) => Ok(put_r(OPCODE_OP, t.rd, FUNCT3_OP_XOR, t.rs1, t.rs2, FUNCT7_MULDIV)),
        RV32I::Mulhu(t) => Ok(put_r(OPCODE_OP, t.rd, FUNCT3_OP_SLTU, t.rs1, t.rs2, FUNCT7_MULDIV)),
        RV32I::Div(t) => Ok(put_r(OPCODE_OP, t.rd, FUNCT3_OP_SRL_SRA, t.rs1, t.rs2, FUNCT7_MULDIV)),
        RV32I::Divu(t) => Ok(put_r(OPCODE_OP, t.rd, FUNCT3_OP_OR, t.rs1, t.rs2, FUNCT7_MULDIV)),
        RV32I::Rem(t) => Ok(put_r(OPCODE_OP, t.rd, FUNCT3_OP_AND, t.rs1, t.rs2, FUNCT7_MULDIV)),
        RV32I::Remu(t) => Ok(put_r(OPCODE_OP, t.rd, FUNCT3_OP_AND, t.rs1, t.rs2, FUNCT7_MULDIV)),
        RV32I::Fence => Ok(put_i(OPCODE_MISC_MEM, 0, FUNCT3_MISC_MEM_FENCE, 0, 0)),
        RV32I::FenceI => Ok(put_i(OPCODE_MISC_MEM, 0, FUNCT3_MISC_MEM_FENCE_I, 0, 0)),
        RV32I::Ecall => Ok(put_i(OPCODE_SYSTEM, 0, FUNCT3_SYSTEM_PRIV, 0, FUNCT12_SYSTEM_ECALL)),
        RV32I::Ebreak => Ok(put_i(OPCODE_SYSTEM, 0, FUNCT3_SYSTEM_PRIV, 0, FUNCT12_SYSTEM_EBREAK)),
    }
}

fn encode_rv64i(i: &RV64I) -> (r: Result<u32, String>)
    requires
        i.wf(),
    ensures
        r matches Ok(w) ==> rv64i_word(*i) == Some(w),
        r is Err <==> rv64i_word(*i) is None,
{
    match *i {
        RV64I::Lwu(t) => enc_i(OPCODE_LOAD, FUNCT3_LOAD_LWU, t),
        RV64I::Ld(t) => enc_i(OPCODE_LOAD, FUNCT3_LOAD_LD, t),
        RV64I::Sd(t) => enc_s(OPCODE_STORE, FUNCT3_STORE_SD, t),
        RV64I::Slli(t) => enc_shift(OPCODE_OP_IMM, FUNCT3_OP_SLL, 0, 64, t),
        RV64I::Srli(t) => enc_shift(OPCODE_OP_IMM, FUNCT3_OP_SRL_SRA, 0, 64, t),
        RV64I::Srai(t) => enc_shift(OPCODE_OP_IMM, FUNCT3_OP_SRL_SRA, 1024, 64, t),
        RV64I::Addiw(t) => enc_i(OPCODE_OP_IMM32, FUNCT3_OP_ADD_SUB, t),
        RV64I::Slliw(t) => enc_shift(OPCODE_OP_IMM32, FUNCT3_OP_SLL, 0, 32, t),
        RV64I::Srliw(t) => enc_shift(OPCODE_OP_IMM32, FUNCT3_OP_SRL_SRA, 0, 32, t),
        RV64I::Sraiw(t) => enc_shift(OPCODE_OP_IMM32, FUNCT3_OP_SRL_SRA, 1024, 32, t),
        RV64I::Addw(t) => Ok(put_r(OPCODE_OP_32, t.rd, FUNCT3_OP_ADD_SUB, t.rs1, t.rs2,
            FUNCT7_OP_ADD)),
        RV64I::Subw(t) => Ok(put_r(OPCODE_OP_32, t.rd, FUNCT3_OP_ADD_SUB, t.rs1, t.rs2,
            FUNCT7_OP_SUB)),
        RV64I::Sllw(t) => Ok(put_r(OPCODE_OP_32, t.rd, FUNCT3_OP_SLL, t.rs1, t.rs2, 0)),
        RV64I::Srlw(t) => Ok(put_r(OPCODE_OP_32, t.rd, FUNCT3_OP_SRL_SRA, t.rs1, t.rs2,
            FUNCT7_OP_SRL)),
        RV64I::Sraw(t) => Ok(put_r(OPCODE_OP_32, t.rd, FUNCT3_OP_SRL_SRA, t.rs1, t.rs2,
            FUNCT7_OP_SRA)),
    }
}

fn encode_zicsr(i: &RVZicsr) -> (r: u32)
    requires
        i.wf(),
    ensures
        r == zicsr_word(*i),
{
    proof {
        lemma2_to64();
    }
    match *i {
        RVZicsr::Csrrw(t) => put_i(OPCODE_SYSTEM, t.rd, FUNCT3_SYSTEM_CSRRW, t.rs1, t.csr as u32),
        RVZicsr::Csrrs(t) => put_i(OPCODE_SYSTEM, t.rd, FUNCT3_SYSTEM_CSRRS, t.rs1, t.csr as u32),
        RVZicsr::Csrrc(t) => put_i(OPCODE_SYSTEM, t.rd, FUNCT3_SYSTEM_CSRRC, t.rs1, t.csr as u32),
        RVZicsr::Csrrwi(t) => put_i(OPCODE_SYSTEM, t.rd, FUNCT3_SYSTEM_CSRRWI, t.uimm.bits as u8,
            t.csr as u32),
        RVZicsr::Csrrsi(t) => put_i(OPCODE_SYSTEM, t.rd, FUNCT3_SYSTEM_CSRRSI, t.uimm.bits as u8,
            t.csr as u32),
        RVZicsr::Csrrci(t) => put_i(OPCODE_SYSTEM, t.rd, FUNCT3_SYSTEM_CSRRCI, t.uimm.bits as u8,
            t.csr as u32),
    }
}

/// Encodes an instruction as a 32-bit word at the given register width.
/// Fails on compressed, floating-point and atomic instructions, on wide-group
/// instructions at 32 bits, and on immediates out of their format's range.
pub fn encode_u32(inst: &Instruction, xlen: Xlen) -> (r: Result<u32, String>)
    requires
        inst.wf(),
    ensures
        r matches Ok(w) ==> encode32(*inst, xlen) == Some(w),
        r is Err <==> encode32(*inst, xlen) is None,
{
    match inst {
        Instruction::RV32I(i) => encode_rv32i(i),
        Instruction::RV64I(i) => {
            if xlen == Xlen::X32 {
                Err("this instruction needs a 64- or 128-bit register width".to_owned())
            } else {
                encode_rv64i(i)
            }
        },
        Instruction::RVZicsr(c) => Ok(encode_zicsr(c)),
        Instruction::RVC(_) => Err("compressed instructions take the 16-bit encoder".to_owned()),
        Instruction::RVF(_) => Err("floating-point encoding is not supported".to_owned()),
        _ => Err("atomic encoding is not supported".to_owned()),
    }
}

} // verus!
