//! The 32-bit decoder: dispatch on opcode, then on the function codes, with
//! register-width gating.
use vstd::prelude::*;
use crate::imm::Xlen;
use crate::isa::{
    FUNCT12_SYSTEM_EBREAK, FUNCT12_SYSTEM_ECALL, FUNCT2_FMT_S, FUNCT3_A_WIDTH_D, FUNCT3_A_WIDTH_Q,
    FUNCT3_BRANCH_BEQ, FUNCT3_BRANCH_BGE, FUNCT3_BRANCH_BGEU, FUNCT3_BRANCH_BLT, FUNCT3_BRANCH_BLTU,
    FUNCT3_BRANCH_BNE, FUNCT3_FP_EQ, FUNCT3_FP_LE, FUNCT3_FP_LT, FUNCT3_FP_MAX, FUNCT3_FP_MIN,
    FUNCT3_FP_SGNJ, FUNCT3_FP_SGNJN, FUNCT3_FP_SGNJX, FUNCT3_LOAD_LB, FUNCT3_LOAD_LBU,
    FUNCT3_LOAD_LD, FUNCT3_LOAD_LH, FUNCT3_LOAD_LHU, FUNCT3_LOAD_LW, FUNCT3_LOAD_LWU,
    FUNCT3_MISC_MEM_FENCE, FUNCT3_MISC_MEM_FENCE_I, FUNCT3_OP_ADD_SUB, FUNCT3_OP_AND, FUNCT3_OP_OR,
    FUNCT3_OP_SLL, FUNCT3_OP_SLT, FUNCT3_OP_SLTU, FUNCT3_OP_SRL_SRA, FUNCT3_OP_XOR, FUNCT3_STORE_SB,
    FUNCT3_STORE_SD, FUNCT3_STORE_SH, FUNCT3_STORE_SW, FUNCT3_SYSTEM_CSRRC, FUNCT3_SYSTEM_CSRRCI,
    FUNCT3_SYSTEM_CSRRS, FUNCT3_SYSTEM_CSRRSI, FUNCT3_SYSTEM_CSRRW, FUNCT3_SYSTEM_CSRRWI,
    FUNCT3_SYSTEM_PRIV, FUNCT3_WIDTH_W, FUNCT5_A_AMOADD, FUNCT5_A_AMOAND, FUNCT5_A_AMOMAX,
    FUNCT5_A_AMOMAXU, FUNCT5_A_AMOMIN, FUNCT5_A_AMOMINU, FUNCT5_A_AMOOR, FUNCT5_A_AMOSWAP,
    FUNCT5_A_AMOXOR, FUNCT5_A_LR, FUNCT5_A_SC, FUNCT7_MULDIV, FUNCT7_OP_ADD, FUNCT7_OP_SRA,
    FUNCT7_OP_SRL, FUNCT7_OP_SUB, FUNCT_RS2_CVT_L, FUNCT_RS2_CVT_LU, FUNCT_RS2_CVT_W,
    FUNCT_RS2_CVT_WU, FUNCT_RS3_FP_ADD, FUNCT_RS3_FP_CMP, FUNCT_RS3_FP_DIV, FUNCT_RS3_FP_FCVTX,
    FUNCT_RS3_FP_FMVX_CLASS, FUNCT_RS3_FP_MIN_MAX, FUNCT_RS3_FP_MUL, FUNCT_RS3_FP_SGNJ,
    FUNCT_RS3_FP_SQRT, FUNCT_RS3_FP_SUB, FUNCT_RS3_FP_XCVTF, FUNCT_RS3_FP_XMVF, OPCODE_A,
    OPCODE_AUIPC, OPCODE_BRANCH, OPCODE_FMADD, OPCODE_FMSUB, OPCODE_FNMADD, OPCODE_FNMSUB,
    OPCODE_FP, OPCODE_JAL, OPCODE_JALR, OPCODE_LOAD, OPCODE_LOAD_FP, OPCODE_LUI, OPCODE_MISC_MEM,
    OPCODE_OP, OPCODE_OP_32, OPCODE_OP_IMM, OPCODE_OP_IMM32, OPCODE_STORE, OPCODE_STORE_FP,
    OPCODE_SYSTEM,
};
use crate::model::{
    BType, IType, Instruction, RType, SType, R4Type, RV128A, RV32A, RV32I, RV64A, RV64I, RVF,
    RVZicsr,
};
use super::fields::{
    b_fields, csr_i_fields, csr_r_fields, funct12_of, funct2_of, funct3_of, funct5_of, funct7_of,
    get_b, get_csr_i, get_csr_r, get_i, get_j, get_r, get_r4, get_s, get_shift, get_u, i_fields,
    j_fields, opcode_of, r4_fields, r_fields, rd_of, rs1_of, rs2_of, s_fields, shift_fields,
    u_fields,
};

verus! {

pub open spec fn branch_of(f3: u8, b: BType) -> Option<Instruction> {
    if f3 == FUNCT3_BRANCH_BEQ {
        Some(Instruction::RV32I(RV32I::Beq(b)))
    } else if f3 == FUNCT3_BRANCH_BNE {
        Some(Instruction::RV32I(RV32I::Bne(b)))
    } else if f3 == FUNCT3_BRANCH_BLT {
        Some(Instruction::RV32I(RV32I::Blt(b)))
    } else if f3 == FUNCT3_BRANCH_BGE {
        Some(Instruction::RV32I(RV32I::Bge(b)))
    } else if f3 == FUNCT3_BRANCH_BLTU {
        Some(Instruction::RV32I(RV32I::Bltu(b)))
    } else if f3 == FUNCT3_BRANCH_BGEU {
        Some(Instruction::RV32I(RV32I::Bgeu(b)))
    } else {
        None
    }
}

fn decode_branch(f3: u8, b: BType) -> (r: Option<Instruction>)
    requires
        b.wf(),
    ensures
        r == branch_of(f3, b),
        r matches Some(q) ==> q.wf(),
{
    if f3 == FUNCT3_BRANCH_BEQ {
        Some(Instruction::RV32I(RV32I::Beq(b)))
    } else if f3 == FUNCT3_BRANCH_BNE {
        Some(Instruction::RV32I(RV32I::Bne(b)))
    } else if f3 == FUNCT3_BRANCH_BLT {
        Some(Instruction::RV32I(RV32I::Blt(b)))
    } else if f3 == FUNCT3_BRANCH_BGE {
        Some(Instruction::RV32I(RV32I::Bge(b)))
    } else if f3 == FUNCT3_BRANCH_BLTU {
        Some(Instruction::RV32I(RV32I::Bltu(b)))
    } else if f3 == FUNCT3_BRANCH_BGEU {
        Some(Instruction::RV32I(RV32I::Bgeu(b)))
    } else {
        None
    }
}

pub open spec fn load_of(f3: u8, i: IType, x: Xlen) -> Option<Instruction> {
    if f3 == FUNCT3_LOAD_LB {
        Some(Instruction::RV32I(RV32I::Lb(i)))
    } else if f3 == FUNCT3_LOAD_LH {
        Some(Instruction::RV32I(RV32I::Lh(i)))
    } else if f3 == FUNCT3_LOAD_LW {
        Some(Instruction::RV32I(RV32I::Lw(i)))
    } else if f3 == FUNCT3_LOAD_LD && x != Xlen::X32 {
        Some(Instruction::RV64I(RV64I::Ld(i)))
    } else if f3 == FUNCT3_LOAD_LBU {
        Some(Instruction::RV32I(RV32I::Lbu(i)))
    } else if f3 == FUNCT3_LOAD_LHU {
        Some(Instruction::RV32I(RV32I::Lhu(i)))
    } else if f3 == FUNCT3_LOAD_LWU && x != Xlen::X32 {
        Some(Instruction::RV64I(RV64I::Lwu(i)))
    } else {
        None
    }
}

fn decode_load(f3: u8, i: IType, x: Xlen) -> (r: Option<Instruction>)
    requires
        i.wf(),
    ensures
        r == load_of(f3, i, x),
        r matches Some(q) ==> q.wf(),
{
    if f3 == FUNCT3_LOAD_LB {
        Some(Instruction::RV32I(RV32I::Lb(i)))
    } else if f3 == FUNCT3_LOAD_LH {
        Some(Instruction::RV32I(RV32I::Lh(i)))
    } else if f3 == FUNCT3_LOAD_LW {
        Some(Instruction::RV32I(RV32I::Lw(i)))
    } else if f3 == FUNCT3_LOAD_LD && x != Xlen::X32 {
        Some(Instruction::RV64I(RV64I::Ld(i)))
    } else if f3 == FUNCT3_LOAD_LBU {
        Some(Instruction::RV32I(RV32I::Lbu(i)))
    } else if f3 == FUNCT3_LOAD_LHU {
        Some(Instruction::RV32I(RV32I::Lhu(i)))
    } else if f3 == FUNCT3_LOAD_LWU && x != Xlen::X32 {
        Some(Instruction::RV64I(RV64I::Lwu(i)))
    } else {
        None
    }
}

pub open spec fn store_of(f3: u8, s: SType, x: Xlen) -> Option<Instruction> {
    if f3 == FUNCT3_STORE_SB {
        Some(Instruction::RV32I(RV32I::Sb(s)))
    } else if f3 == FUNCT3_STORE_SH {
        Some(Instruction::RV32I(RV32I::Sh(s)))
    } else if f3 == FUNCT3_STORE_SW {
        Some(Instruction::RV32I(RV32I::Sw(s)))
    } else if f3 == FUNCT3_STORE_SD && x != Xlen::X32 {
        Some(Instruction::RV64I(RV64I::Sd(s)))
    } else {
        None
    }
}

fn decode_store(f3: u8, s: SType, x: Xlen) -> (r: Option<Instruction>)
    requires
        s.wf(),
    ensures
        r == store_of(f3, s, x),
        r matches Some(q) ==> q.wf(),
{
    if f3 == FUNCT3_STORE_SB {
        Some(Instruction::RV32I(RV32I::Sb(s)))
    } else if f3 == FUNCT3_STORE_SH {
        Some(Instruction::RV32I(RV32I::Sh(s)))
    } else if f3 == FUNCT3_STORE_SW {
        Some(Instruction::RV32I(RV32I::Sw(s)))
    } else if f3 == FUNCT3_STORE_SD && x != Xlen::X32 {
        Some(Instruction::RV64I(RV64I::Sd(s)))
    } else {
        None
    }
}

/// OP-IMM: the six immediate operations and the width-dependent shifts.
pub open spec fn op_imm_of(w: u32, x: Xlen) -> Option<Instruction> {
    let f3 = funct3_of(w);
    let f7 = funct7_of(w);
    let i = i_fields(w);
    if f3 == FUNCT3_OP_ADD_SUB {
        Some(Instruction::RV32I(RV32I::Addi(i)))
    } else if f3 == FUNCT3_OP_SLT {
        Some(Instruction::RV32I(RV32I::Slti(i)))
    } else if f3 == FUNCT3_OP_SLTU {
        Some(Instruction::RV32I(RV32I::Sltiu(i)))
    } else if f3 == FUNCT3_OP_XOR {
        Some(Instruction::RV32I(RV32I::Xori(i)))
    } else if f3 == FUNCT3_OP_OR {
        Some(Instruction::RV32I(RV32I::Ori(i)))
    } else if f3 == FUNCT3_OP_AND {
        Some(Instruction::RV32I(RV32I::Andi(i)))
    } else if f3 == FUNCT3_OP_SLL {
        if x == Xlen::X32 {
            if f7 == 0 {
                Some(Instruction::RV32I(RV32I::Slli(shift_fields(w, 5))))
            } else {
                None
            }
        } else if f7 / 2 == 0 {
            Some(Instruction::RV64I(RV64I::Slli(shift_fields(w, 6))))
        } else {
            None
        }
    } else {
        if x == Xlen::X32 {
            if f7 == FUNCT7_OP_SRL {
                Some(Instruction::RV32I(RV32I::Srli(shift_fields(w, 5))))
            } else if f7 == FUNCT7_OP_SRA {
                Some(Instruction::RV32I(RV32I::Srai(shift_fields(w, 5))))
            } else {
                None
            }
        } else if f7 / 2 == FUNCT7_OP_SRL / 2 {
            Some(Instruction::RV64I(RV64I::Srli(shift_fields(w, 6))))
        } else if f7 / 2 == FUNCT7_OP_SRA / 2 {
            Some(Instruction::RV64I(RV64I::Srai(shift_fields(w, 6))))
        } else {
            None
        }
    }
}

fn decode_op_imm(w: u32, x: Xlen) -> (r: Option<Instruction>)
    ensures
        r == op_imm_of(w, x),
        r matches Some(q) ==> q.wf(),
{
    let f3 = ((w / 4096) % 8) as u8;
    let f7 = (w / 33554432) as u8;
    let i = get_i(w);
    if f3 == FUNCT3_OP_ADD_SUB {
        Some(Instruction::RV32I(RV32I::Addi(i)))
    } else if f3 == FUNCT3_OP_SLT {
        Some(Instruction::RV32I(RV32I::Slti(i)))
    } else if f3 == FUNCT3_OP_SLTU {
        Some(Instruction::RV32I(RV32I::Sltiu(i)))
    } else if f3 == FUNCT3_OP_XOR {
        Some(Instruction::RV32I(RV32I::Xori(i)))
    } else if f3 == FUNCT3_OP_OR {
        Some(Instruction::RV32I(RV32I::Ori(i)))
    } else if f3 == FUNCT3_OP_AND {
        Some(Instruction::RV32I(RV32I::Andi(i)))
    } else if f3 == FUNCT3_OP_SLL {
        if x == Xlen::X32 {
            if f7 == 0 {
                Some(Instruction::RV32I(RV32I::Slli(get_shift(w, 5))))
            } else {
                None
            }
        } else if f7 / 2 == 0 {
            Some(Instruction::RV64I(RV64I::Slli(get_shift(w, 6))))
        } else {
            None
        }
    } else {
        if x == Xlen::X32 {
            if f7 == FUNCT7_OP_SRL {
                Some(Instruction::RV32I(RV32I::Srli(get_shift(w, 5))))
            } else if f7 == FUNCT7_OP_SRA {
                Some(Instruction::RV32I(RV32I::Srai(get_shift(w, 5))))
            } else {
                None
            }
        } else if f7 / 2 == FUNCT7_OP_SRL / 2 {
            Some(Instruction::RV64I(RV64I::Srli(get_shift(w, 6))))
        } else if f7 / 2 == FUNCT7_OP_SRA / 2 {
            Some(Instruction::RV64I(RV64I::Srai(get_shift(w, 6))))
        } else {
            None
        }
    }
}

/// OP: base register-register operations and, with funct7 = 1, the M extension.
pub open spec fn op_of(f3: u8, f7: u8, r: RType, x: Xlen) -> Option<Instruction> {
    if f7 == FUNCT7_MULDIV {
        if f3 == FUNCT3_OP_ADD_SUB {
            Some(Instruction::RV32I(RV32I::Mul(r)))
        } else if f3 == FUNCT3_OP_SLL {
            Some(Instruction::RV32I(RV32I::Mulh(r)))
        } else if f3 == FUNCT3_OP_SLTU {
            Some(Instruction::RV32I(RV32I::Mulhu(r)))
        } else if f3 == FUNCT3_OP_XOR {
            Some(Instruction::RV32I(RV32I::Mulhsu(r)))
        } else if f3 == FUNCT3_OP_SRL_SRA {
            Some(Instruction::RV32I(RV32I::Div(r)))
        } else if f3 == FUNCT3_OP_OR {
            Some(Instruction::RV32I(RV32I::Divu(r)))
        } else if f3 == FUNCT3_OP_AND {
            if x == Xlen::X32 {
                Some(Instruction::RV32I(RV32I::Rem(r)))
            } else {
                Some(Instruction::RV32I(RV32I::Remu(r)))
            }
        } else {
            None
        }
    } else if f7 == 0 {
        if f3 == FUNCT3_OP_ADD_SUB {
            Some(Instruction::RV32I(RV32I::Add(r)))
        } else if f3 == FUNCT3_OP_SLL {
            Some(Instruction::RV32I(RV32I::Sll(r)))
        } else if f3 == FUNCT3_OP_SLT {
            Some(Instruction::RV32I(RV32I::Slt(r)))
        } else if f3 == FUNCT3_OP_SLTU {
            Some(Instruction::RV32I(RV32I::Sltu(r)))
        } else if f3 == FUNCT3_OP_XOR {
            Some(Instruction::RV32I(RV32I::Xor(r)))
        } else if f3 == FUNCT3_OP_SRL_SRA {
            Some(Instruction::RV32I(RV32I::Srl(r)))
        } else if f3 == FUNCT3_OP_OR {
            Some(Instruction::RV32I(RV32I::Or(r)))
        } else {
            Some(Instruction::RV32I(RV32I::And(r)))
        }
    } else if f7 == FUNCT7_OP_SUB && f3 == FUNCT3_OP_ADD_SUB {
        Some(Instruction::RV32I(RV32I::Sub(r)))
    } else if f7 == FUNCT7_OP_SRA && f3 == FUNCT3_OP_SRL_SRA {
        Some(Instruction::RV32I(RV32I::Sra(r)))
    } else {
        None
    }
}

fn decode_op(f3: u8, f7: u8, r: RType, x: Xlen) -> (res: Option<Instruction>)
    requires
        r.wf(),
        f3 < 8,
    ensures
        res == op_of(f3, f7, r, x),
        res matches Some(q) ==> q.wf(),
{
    if f7 == FUNCT7_MULDIV {
        if f3 == FUNCT3_OP_ADD_SUB {
            Some(Instruction::RV32I(RV32I::Mul(r)))
        } else if f3 == FUNCT3_OP_SLL {
            Some(Instruction::RV32I(RV32I::Mulh(r)))
        } else if f3 == FUNCT3_OP_SLTU {
            Some(Instruction::RV32I(RV32I::Mulhu(r)))
        } else if f3 == FUNCT3_OP_XOR {
            Some(Instruction::RV32I(RV32I::Mulhsu(r)))
        } else if f3 == FUNCT3_OP_SRL_SRA {
            Some(Instruction::RV32I(RV32I::Div(r)))
        } else if f3 == FUNCT3_OP_OR {
            Some(Instruction::RV32I(RV32I::Divu(r)))
        } else if f3 == FUNCT3_OP_AND {
            if x == Xlen::X32 {
                Some(Instruction::RV32I(RV32I::Rem(r)))
            } else {
                Some(Instruction::RV32I(RV32I::Remu(r)))
            }
        } else {
            None
        }
    } else if f7 == 0 {
        if f3 == FUNCT3_OP_ADD_SUB {
            Some(Instruction::RV32I(RV32I::Add(r)))
        } else if f3 == FUNCT3_OP_SLL {
            Some(Instruction::RV32I(RV32I::Sll(r)))
        } else if f3 == FUNCT3_OP_SLT {
            Some(Instruction::RV32I(RV32I::Slt(r)))
        } else if f3 == FUNCT3_OP_SLTU {
            Some(Instruction::RV32I(RV32I::Sltu(r)))
        } else if f3 == FUNCT3_OP_XOR {
            Some(Instruction::RV32I(RV32I::Xor(r)))
        } else if f3 == FUNCT3_OP_SRL_SRA {
            Some(Instruction::RV32I(RV32I::Srl(r)))
        } else if f3 == FUNCT3_OP_OR {
            Some(Instruction::RV32I(RV32I::Or(r)))
        } else {
            Some(Instruction::RV32I(RV32I::And(r)))
        }
    } else if f7 == FUNCT7_OP_SUB && f3 == FUNCT3_OP_ADD_SUB {
        Some(Instruction::RV32I(RV32I::Sub(r)))
    } else if f7 == FUNCT7_OP_SRA && f3 == FUNCT3_OP_SRL_SRA {
        Some(Instruction::RV32I(RV32I::Sra(r)))
    } else {
        None
    }
}

/// OP-IMM-32: the word-sized immediate operations of the wider profiles.
pub open spec fn op_imm32_of(w: u32) -> Option<Instruction> {
    let f3 = funct3_of(w);
    let f7 = funct7_of(w);
    if f3 == FUNCT3_OP_ADD_SUB {
        Some(Instruction::RV64I(RV64I::Addiw(i_fields(w))))
    } else if f3 == FUNCT3_OP_SLL && f7 == 0 {
        Some(Instruction::RV64I(RV64I::Slliw(shift_fields(w, 5))))
    } else if f3 == FUNCT3_OP_SRL_SRA && f7 == FUNCT7_OP_SRL {
        Some(Instruction::RV64I(RV64I::Srliw(shift_fields(w, 5))))
    } else if f3 == FUNCT3_OP_SRL_SRA && f7 == FUNCT7_OP_SRA {
        Some(Instruction::RV64I(RV64I::Sraiw(shift_fields(w, 5))))
    } else {
        None
    }
}

fn decode_op_imm32(w: u32) -> (r: Option<Instruction>)
    ensures
        r == op_imm32_of(w),
        r matches Some(q) ==> q.wf(),
{
    let f3 = ((w / 4096) % 8) as u8;
    let f7 = (w / 33554432) as u8;
    if f3 == FUNCT3_OP_ADD_SUB {
        Some(Instruction::RV64I(RV64I::Addiw(get_i(w))))
    } else if f3 == FUNCT3_OP_SLL && f7 == 0 {
        Some(Instruction::RV64I(RV64I::Slliw(get_shift(w, 5))))
    } else if f3 == FUNCT3_OP_SRL_SRA && f7 == FUNCT7_OP_SRL {
        Some(Instruction::RV64I(RV64I::Srliw(get_shift(w, 5))))
    } else if f3 == FUNCT3_OP_SRL_SRA && f7 == FUNCT7_OP_SRA {
        Some(Instruction::RV64I(RV64I::Sraiw(get_shift(w, 5))))
    } else {
        None
    }
}

/// OP-32: the word-sized register operations of the wider profiles.
pub open spec fn op32_of(f3: u8, f7: u8, r: RType) -> Option<Instruction> {
    if f3 == FUNCT3_OP_ADD_SUB && f7 == FUNCT7_OP_ADD {
        Some(Instruction::RV64I(RV64I::Addw(r)))
    } else if f3 == FUNCT3_OP_ADD_SUB && f7 == FUNCT7_OP_SUB {
        Some(Instruction::RV64I(RV64I::Subw(r)))
    } else if f3 == FUNCT3_OP_SLL && f7 == 0 {
        Some(Instruction::RV64I(RV64I::Sllw(r)))
    } else if f3 == FUNCT3_OP_SRL_SRA && f7 == FUNCT7_OP_SRL {
        Some(Instruction::RV64I(RV64I::Srlw(r)))
    } else if f3 == FUNCT3_OP_SRL_SRA && f7 == FUNCT7_OP_SRA {
        Some(Instruction::RV64I(RV64I::Sraw(r)))
    } else {
        None
    }
}

fn decode_op32(f3: u8, f7: u8, r: RType) -> (res: Option<Instruction>)
    requires
        r.wf(),
    ensures
        res == op32_of(f3, f7, r),
        res matches Some(q) ==> q.wf(),
{
    if f3 == FUNCT3_OP_ADD_SUB && f7 == FUNCT7_OP_ADD {
        Some(Instruction::RV64I(RV64I::Addw(r)))
    } else if f3 == FUNCT3_OP_ADD_SUB && f7 == FUNCT7_OP_SUB {
        Some(Instruction::RV64I(RV64I::Subw(r)))
    } else if f3 == FUNCT3_OP_SLL && f7 == 0 {
        Some(Instruction::RV64I(RV64I::Sllw(r)))
    } else if f3 == FUNCT3_OP_SRL_SRA && f7 == FUNCT7_OP_SRL {
        Some(Instruction::RV64I(RV64I::Srlw(r)))
    } else if f3 == FUNCT3_OP_SRL_SRA && f7 == FUNCT7_OP_SRA {
        Some(Instruction::RV64I(RV64I::Sraw(r)))
    } else {
        None
    }
}

/// SYSTEM: the two environment calls (with rd = rs1 = 0) and the six CSR forms.
pub open spec fn system_of(w: u32) -> Option<Instruction> {
    let f3 = funct3_of(w);
    if f3 == FUNCT3_SYSTEM_PRIV {
        if rs1_of(w) == 0 && rd_of(w) == 0 && funct12_of(w) == FUNCT12_SYSTEM_ECALL {
            Some(Instruction::RV32I(RV32I::Ecall))
        } else if rs1_of(w) == 0 && rd_of(w) == 0 && funct12_of(w) == FUNCT12_SYSTEM_EBREAK {
            Some(Instruction::RV32I(RV32I::Ebreak))
        } else {
            None
        }
    } else if f3 == FUNCT3_SYSTEM_CSRRW {
        Some(Instruction::RVZicsr(RVZicsr::Csrrw(csr_r_fields(w))))
    } else if f3 == FUNCT3_SYSTEM_CSRRS {
        Some(Instruction::RVZicsr(RVZicsr::Csrrs(csr_r_fields(w))))
    } else if f3 == FUNCT3_SYSTEM_CSRRC {
        Some(Instruction::RVZicsr(RVZicsr::Csrrc(csr_r_fields(w))))
    } else if f3 == FUNCT3_SYSTEM_CSRRWI {
        Some(Instruction::RVZicsr(RVZicsr::Csrrwi(csr_i_fields(w))))
    } else if f3 == FUNCT3_SYSTEM_CSRRSI {
        Some(Instruction::RVZicsr(RVZicsr::Csrrsi(csr_i_fields(w))))
    } else if f3 == FUNCT3_SYSTEM_CSRRCI {
        Some(Instruction::RVZicsr(RVZicsr::Csrrci(csr_i_fields(w))))
    } else {
        None
    }
}

fn decode_system(w: u32) -> (r: Option<Instruction>)
    ensures
        r == system_of(w),
        r matches Some(q) ==> q.wf(),
{
    let f3 = ((w / 4096) % 8) as u8;
    let rs1 = ((w / 32768) % 32) as u8;
    let rd = ((w / 128) % 32) as u8;
    let f12 = w / 1048576;
    if f3 == FUNCT3_SYSTEM_PRIV {
        if rs1 == 0 && rd == 0 && f12 == FUNCT12_SYSTEM_ECALL {
            Some(Instruction::RV32I(RV32I::Ecall))
        } else if rs1 == 0 && rd == 0 && f12 == FUNCT12_SYSTEM_EBREAK {
            Some(Instruction::RV32I(RV32I::Ebreak))
        } else {
            None
        }
    } else if f3 == FUNCT3_SYSTEM_CSRRW {
        Some(Instruction::RVZicsr(RVZicsr::Csrrw(get_csr_r(w))))
    } else if f3 == FUNCT3_SYSTEM_CSRRS {
        Some(Instruction::RVZicsr(RVZicsr::Csrrs(get_csr_r(w))))
    } else if f3 == FUNCT3_SYSTEM_CSRRC {
        Some(Instruction::RVZicsr(RVZicsr::Csrrc(get_csr_r(w))))
    } else if f3 == FUNCT3_SYSTEM_CSRRWI {
        Some(Instruction::RVZicsr(RVZicsr::Csrrwi(get_csr_i(w))))
    } else if f3 == FUNCT3_SYSTEM_CSRRSI {
        Some(Instruction::RVZicsr(RVZicsr::Csrrsi(get_csr_i(w))))
    } else if f3 == FUNCT3_SYSTEM_CSRRCI {
        Some(Instruction::RVZicsr(RVZicsr::Csrrci(get_csr_i(w))))
    } else {
        None
    }
}

/// The fused multiply-add opcodes, single precision only.
pub open spec fn fused_of(op: u32, r4: R4Type) -> Option<Instruction> {
    if r4.funct2 != FUNCT2_FMT_S {
        None
    } else if op == OPCODE_FMADD {
        Some(Instruction::RVF(RVF::Fmadds(r4)))
    } else if op == OPCODE_FMSUB {
        Some(Instruction::RVF(RVF::Fmsubs(r4)))
    } else if op == OPCODE_FNMSUB {
        Some(Instruction::RVF(RVF::Fnmsubs(r4)))
    } else {
        Some(Instruction::RVF(RVF::Fnmadds(r4)))
    }
}

fn decode_fused(op: u32, r4: R4Type) -> (r: Option<Instruction>)
    requires
        r4.wf(),
    ensures
        r == fused_of(op, r4),
        r matches Some(q) ==> q.wf(),
{
    if r4.funct2 != FUNCT2_FMT_S {
        None
    } else if op == OPCODE_FMADD {
        Some(Instruction::RVF(RVF::Fmadds(r4)))
    } else if op == OPCODE_FMSUB {
        Some(Instruction::RVF(RVF::Fmsubs(r4)))
    } else if op == OPCODE_FNMSUB {
        Some(Instruction::RVF(RVF::Fnmsubs(r4)))
    } else {
        Some(Instruction::RVF(RVF::Fnmadds(r4)))
    }
}

/// OP-FP, single precision: grouped by bits 31..27, then by funct3 or rs2.
pub open spec fn fp_of(g: u8, f3: u8, rs2: u8, r: RType, x: Xlen) -> Option<Instruction> {
    if g == FUNCT_RS3_FP_ADD {
        Some(Instruction::RVF(RVF::Fadds(r)))
    } else if g == FUNCT_RS3_FP_SUB {
        Some(Instruction::RVF(RVF::Fsubs(r)))
    } else if g == FUNCT_RS3_FP_MUL {
        Some(Instruction::RVF(RVF::Fmuls(r)))
    } else if g == FUNCT_RS3_FP_DIV {
        Some(Instruction::RVF(RVF::Fdivs(r)))
    } else if g == FUNCT_RS3_FP_SQRT && rs2 == 0 {
        Some(Instruction::RVF(RVF::Fsqrts(r)))
    } else if g == FUNCT_RS3_FP_MIN_MAX && f3 == FUNCT3_FP_MIN {
        Some(Instruction::RVF(RVF::Fmins(r)))
    } else if g == FUNCT_RS3_FP_MIN_MAX && f3 == FUNCT3_FP_MAX {
        Some(Instruction::RVF(RVF::Fmaxs(r)))
    } else if g == FUNCT_RS3_FP_SGNJ && f3 == FUNCT3_FP_SGNJ {
        Some(Instruction::RVF(RVF::Fsgnjs(r)))
    } else if g == FUNCT_RS3_FP_SGNJ && f3 == FUNCT3_FP_SGNJN {
        Some(Instruction::RVF(RVF::Fsgnjns(r)))
    } else if g == FUNCT_RS3_FP_SGNJ && f3 == FUNCT3_FP_SGNJX {
        Some(Instruction::RVF(RVF::Fsgnjxs(r)))
    } else if g == FUNCT_RS3_FP_CMP && f3 == FUNCT3_FP_EQ {
        Some(Instruction::RVF(RVF::Feqs(r)))
    } else if g == FUNCT_RS3_FP_CMP && f3 == FUNCT3_FP_LT {
        Some(Instruction::RVF(RVF::Flts(r)))
    } else if g == FUNCT_RS3_FP_CMP && f3 == FUNCT3_FP_LE {
        Some(Instruction::RVF(RVF::Fles(r)))
    } else if g == FUNCT_RS3_FP_FCVTX && rs2 == FUNCT_RS2_CVT_W {
        Some(Instruction::RVF(RVF::Fcvtws(r)))
    } else if g == FUNCT_RS3_FP_FCVTX && rs2 == FUNCT_RS2_CVT_WU {
        Some(Instruction::RVF(RVF::Fcvtwus(r)))
    } else if g == FUNCT_RS3_FP_FCVTX && rs2 == FUNCT_RS2_CVT_L && x != Xlen::X32 {
        Some(Instruction::RVF(RVF::Fcvtls(r)))
    } else if g == FUNCT_RS3_FP_FCVTX && rs2 == FUNCT_RS2_CVT_LU && x != Xlen::X32 {
        Some(Instruction::RVF(RVF::Fcvtlus(r)))
    } else if g == FUNCT_RS3_FP_XCVTF && rs2 == FUNCT_RS2_CVT_W {
        Some(Instruction::RVF(RVF::Fcvtsw(r)))
    } else if g == FUNCT_RS3_FP_XCVTF && rs2 == FUNCT_RS2_CVT_WU {
        Some(Instruction::RVF(RVF::Fcvtswu(r)))
    } else if g == FUNCT_RS3_FP_XCVTF && rs2 == FUNCT_RS2_CVT_L && x != Xlen::X32 {
        Some(Instruction::RVF(RVF::Fcvtsl(r)))
    } else if g == FUNCT_RS3_FP_XCVTF && rs2 == FUNCT_RS2_CVT_LU && x != Xlen::X32 {
        Some(Instruction::RVF(RVF::Fcvtslu(r)))
    } else if g == FUNCT_RS3_FP_FMVX_CLASS && rs2 == 0 && f3 == 0 {
        Some(Instruction::RVF(RVF::Fmvxw(r)))
    } else if g == FUNCT_RS3_FP_FMVX_CLASS && rs2 == 0 && f3 == 1 {
        Some(Instruction::RVF(RVF::Fclasss(r)))
    } else if g == FUNCT_RS3_FP_XMVF && rs2 == 0 && f3 == 0 {
        Some(Instruction::RVF(RVF::Fmvwx(r)))
    } else {
        None
    }
}

fn decode_fp(g: u8, f3: u8, rs2: u8, r: RType, x: Xlen) -> (res: Option<Instruction>)
    requires
        r.wf(),
    ensures
        res == fp_of(g, f3, rs2, r, x),
        res matches Some(q) ==> q.wf(),
{
    if g == FUNCT_RS3_FP_ADD {
        Some(Instruction::RVF(RVF::Fadds(r)))
    } else if g == FUNCT_RS3_FP_SUB {
        Some(Instruction::RVF(RVF::Fsubs(r)))
    } else if g == FUNCT_RS3_FP_MUL {
        Some(Instruction::RVF(RVF::Fmuls(r)))
    } else if g == FUNCT_RS3_FP_DIV {
        Some(Instruction::RVF(RVF::Fdivs(r)))
    } else if g == FUNCT_RS3_FP_SQRT && rs2 == 0 {
        Some(Instruction::RVF(RVF::Fsqrts(r)))
    } else if g == FUNCT_RS3_FP_MIN_MAX && f3 == FUNCT3_FP_MIN {
        Some(Instruction::RVF(RVF::Fmins(r)))
    } else if g == FUNCT_RS3_FP_MIN_MAX && f3 == FUNCT3_FP_MAX {
        Some(Instruction::RVF(RVF::Fmaxs(r)))
    } else if g == FUNCT_RS3_FP_SGNJ && f3 == FUNCT3_FP_SGNJ {
        Some(Instruction::RVF(RVF::Fsgnjs(r)))
    } else if g == FUNCT_RS3_FP_SGNJ && f3 == FUNCT3_FP_SGNJN {
        Some(Instruction::RVF(RVF::Fsgnjns(r)))
    } else if g == FUNCT_RS3_FP_SGNJ && f3 == FUNCT3_FP_SGNJX {
        Some(Instruction::RVF(RVF::Fsgnjxs(r)))
    } else if g == FUNCT_RS3_FP_CMP && f3 == FUNCT3_FP_EQ {
        Some(Instruction::RVF(RVF::Feqs(r)))
    } else if g == FUNCT_RS3_FP_CMP && f3 == FUNCT3_FP_LT {
        Some(Instruction::RVF(RVF::Flts(r)))
    } else if g == FUNCT_RS3_FP_CMP && f3 == FUNCT3_FP_LE {
        Some(Instruction::RVF(RVF::Fles(r)))
    } else if g == FUNCT_RS3_FP_FCVTX && rs2 == FUNCT_RS2_CVT_W {
        Some(Instruction::RVF(RVF::Fcvtws(r)))
    } else if g == FUNCT_RS3_FP_FCVTX && rs2 == FUNCT_RS2_CVT_WU {
        Some(Instruction::RVF(RVF::Fcvtwus(r)))
    } else if g == FUNCT_RS3_FP_FCVTX && rs2 == FUNCT_RS2_CVT_L && x != Xlen::X32 {
        Some(Instruction::RVF(RVF::Fcvtls(r)))
    } else if g == FUNCT_RS3_FP_FCVTX && rs2 == FUNCT_RS2_CVT_LU && x != Xlen::X32 {
        Some(Instruction::RVF(RVF::Fcvtlus(r)))
    } else if g == FUNCT_RS3_FP_XCVTF && rs2 == FUNCT_RS2_CVT_W {
        Some(Instruction::RVF(RVF::Fcvtsw(r)))
    } else if g == FUNCT_RS3_FP_XCVTF && rs2 == FUNCT_RS2_CVT_WU {
        Some(Instruction::RVF(RVF::Fcvtswu(r)))
    } else if g == FUNCT_RS3_FP_XCVTF && rs2 == FUNCT_RS2_CVT_L && x != Xlen::X32 {
        Some(Instruction::RVF(RVF::Fcvtsl(r)))
    } else if g == FUNCT_RS3_FP_XCVTF && rs2 == FUNCT_RS2_CVT_LU && x != Xlen::X32 {
        Some(Instruction::RVF(RVF::Fcvtslu(r)))
    } else if g == FUNCT_RS3_FP_FMVX_CLASS && rs2 == 0 && f3 == 0 {
        Some(Instruction::RVF(RVF::Fmvxw(r)))
    } else if g == FUNCT_RS3_FP_FMVX_CLASS && rs2 == 0 && f3 == 1 {
        Some(Instruction::RVF(RVF::Fclasss(r)))
    } else if g == FUNCT_RS3_FP_XMVF && rs2 == 0 && f3 == 0 {
        Some(Instruction::RVF(RVF::Fmvwx(r)))
    } else {
        None
    }
}

/// AMO: width from funct3 (the quad width only at 128 bits), operation from bits 31..27;
/// the acquire and release bits are carried in funct7 and otherwise ignored.
pub open spec fn amo_of(f3: u8, f5: u8, r: RType, x: Xlen) -> Option<Instruction> {
    if f3 == FUNCT3_WIDTH_W {
        if f5 == FUNCT5_A_LR {
            Some(Instruction::RV32A(RV32A::Lrw(r)))
        } else if f5 == FUNCT5_A_SC {
            Some(Instruction::RV32A(RV32A::Scw(r)))
        } else if f5 == FUNCT5_A_AMOSWAP {
            Some(Instruction::RV32A(RV32A::Amoswapw(r)))
        } else if f5 == FUNCT5_A_AMOADD {
            Some(Instruction::RV32A(RV32A::Amoaddw(r)))
        } else if f5 == FUNCT5_A_AMOXOR {
            Some(Instruction::RV32A(RV32A::Amoxorw(r)))
        } else if f5 == FUNCT5_A_AMOAND {
            Some(Instruction::RV32A(RV32A::Amoandw(r)))
        } else if f5 == FUNCT5_A_AMOOR {
            Some(Instruction::RV32A(RV32A::Amoorw(r)))
        } else if f5 == FUNCT5_A_AMOMIN {
            Some(Instruction::RV32A(RV32A::Amominw(r)))
        } else if f5 == FUNCT5_A_AMOMAX {
            Some(Instruction::RV32A(RV32A::Amomaxw(r)))
        } else if f5 == FUNCT5_A_AMOMINU {
            Some(Instruction::RV32A(RV32A::Amominuw(r)))
        } else if f5 == FUNCT5_A_AMOMAXU {
            Some(Instruction::RV32A(RV32A::Amomaxuw(r)))
        } else {
            None
        }
    } else if f3 == FUNCT3_A_WIDTH_D {
        if f5 == FUNCT5_A_LR {
            Some(Instruction::RV64A(RV64A::Lrd(r)))
        } else if f5 == FUNCT5_A_SC {
            Some(Instruction::RV64A(RV64A::Scd(r)))
        } else if f5 == FUNCT5_A_AMOSWAP {
            Some(Instruction::RV64A(RV64A::Amoswapd(r)))
        } else if f5 == FUNCT5_A_AMOADD {
            Some(Instruction::RV64A(RV64A::Amoaddd(r)))
        } else if f5 == FUNCT5_A_AMOXOR {
            Some(Instruction::RV64A(RV64A::Amoxord(r)))
        } else if f5 == FUNCT5_A_AMOAND {
            Some(Instruction::RV64A(RV64A::Amoandd(r)))
        } else if f5 == FUNCT5_A_AMOOR {
            Some(Instruction::RV64A(RV64A::Amoord(r)))
        } else if f5 == FUNCT5_A_AMOMIN {
            Some(Instruction::RV64A(RV64A::Amomind(r)))
        } else if f5 == FUNCT5_A_AMOMAX {
            Some(Instruction::RV64A(RV64A::Amomaxd(r)))
        } else if f5 == FUNCT5_A_AMOMINU {
            Some(Instruction::RV64A(RV64A::Amominud(r)))
        } else if f5 == FUNCT5_A_AMOMAXU {
            Some(Instruction::RV64A(RV64A::Amomaxud(r)))
        } else {
            None
        }
    } else if f3 == FUNCT3_A_WIDTH_Q && x == Xlen::X128 {
        if f5 == FUNCT5_A_LR {
            Some(Instruction::RV128A(RV128A::Lrq(r)))
        } else if f5 == FUNCT5_A_SC {
            Some(Instruction::RV128A(RV128A::Scq(r)))
        } else if f5 == FUNCT5_A_AMOSWAP {
            Some(Instruction::RV128A(RV128A::Amoswapq(r)))
        } else if f5 == FUNCT5_A_AMOADD {
            Some(Instruction::RV128A(RV128A::Amoaddq(r)))
        } else if f5 == FUNCT5_A_AMOXOR {
            Some(Instruction::RV128A(RV128A::Amoxorq(r)))
        } else if f5 == FUNCT5_A_AMOAND {
            Some(Instruction::RV128A(RV128A::Amoandq(r)))
        } else if f5 == FUNCT5_A_AMOOR {
            Some(Instruction::RV128A(RV128A::Amoorq(r)))
        } else if f5 == FUNCT5_A_AMOMIN {
            Some(Instruction::RV128A(RV128A::Amominq(r)))
        } else if f5 == FUNCT5_A_AMOMAX {
            Some(Instruction::RV128A(RV128A::Amomaxq(r)))
        } else if f5 == FUNCT5_A_AMOMINU {
            Some(Instruction::RV128A(RV128A::Amominuq(r)))
        } else if f5 == FUNCT5_A_AMOMAXU {
            Some(Instruction::RV128A(RV128A::Amomaxuq(r)))
        } else {
            None
        }
    } else {
        None
    }
}

fn decode_amo(f3: u8, f5: u8, r: RType, x: Xlen) -> (res: Option<Instruction>)
    requires
        r.wf(),
    ensures
        res == amo_of(f3, f5, r, x),
        res matches Some(q) ==> q.wf(),
{
    if f3 == FUNCT3_WIDTH_W {
        if f5 == FUNCT5_A_LR {
            Some(Instruction::RV32A(RV32A::Lrw(r)))
        } else if f5 == FUNCT5_A_SC {
            Some(Instruction::RV32A(RV32A::Scw(r)))
        } else if f5 == FUNCT5_A_AMOSWAP {
            Some(Instruction::RV32A(RV32A::Amoswapw(r)))
        } else if f5 == FUNCT5_A_AMOADD {
            Some(Instruction::RV32A(RV32A::Amoaddw(r)))
        } else if f5 == FUNCT5_A_AMOXOR {
            Some(Instruction::RV32A(RV32A::Amoxorw(r)))
        } else if f5 == FUNCT5_A_AMOAND {
            Some(Instruction::RV32A(RV32A::Amoandw(r)))
        } else if f5 == FUNCT5_A_AMOOR {
            Some(Instruction::RV32A(RV32A::Amoorw(r)))
        } else if f5 == FUNCT5_A_AMOMIN {
            Some(Instruction::RV32A(RV32A::Amominw(r)))
        } else if f5 == FUNCT5_A_AMOMAX {
            Some(Instruction::RV32A(RV32A::Amomaxw(r)))
        } else if f5 == FUNCT5_A_AMOMINU {
            Some(Instruction::RV32A(RV32A::Amominuw(r)))
        } else if f5 == FUNCT5_A_AMOMAXU {
            Some(Instruction::RV32A(RV32A::Amomaxuw(r)))
        } else {
            None
        }
    } else if f3 == FUNCT3_A_WIDTH_D {
        if f5 == FUNCT5_A_LR {
            Some(Instruction::RV64A(RV64A::Lrd(r)))
        } else if f5 == FUNCT5_A_SC {
            Some(Instruction::RV64A(RV64A::Scd(r)))
        } else if f5 == FUNCT5_A_AMOSWAP {
            Some(Instruction::RV64A(RV64A::Amoswapd(r)))
        } else if f5 == FUNCT5_A_AMOADD {
            Some(Instruction::RV64A(RV64A::Amoaddd(r)))
        } else if f5 == FUNCT5_A_AMOXOR {
            Some(Instruction::RV64A(RV64A::Amoxord(r)))
        } else if f5 == FUNCT5_A_AMOAND {
            Some(Instruction::RV64A(RV64A::Amoandd(r)))
        } else if f5 == FUNCT5_A_AMOOR {
            Some(Instruction::RV64A(RV64A::Amoord(r)))
        } else if f5 == FUNCT5_A_AMOMIN {
            Some(Instruction::RV64A(RV64A::Amomind(r)))
        } else if f5 == FUNCT5_A_AMOMAX {
            Some(Instruction::RV64A(RV64A::Amomaxd(r)))
        } else if f5 == FUNCT5_A_AMOMINU {
            Some(Instruction::RV64A(RV64A::Amominud(r)))
        } else if f5 == FUNCT5_A_AMOMAXU {
            Some(Instruction::RV64A(RV64A::Amomaxud(r)))
        } else {
            None
        }
    } else if f3 == FUNCT3_A_WIDTH_Q && x == Xlen::X128 {
        if f5 == FUNCT5_A_LR {
            Some(Instruction::RV128A(RV128A::Lrq(r)))
        } else if f5 == FUNCT5_A_SC {
            Some(Instruction::RV128A(RV128A::Scq(r)))
        } else if f5 == FUNCT5_A_AMOSWAP {
            Some(Instruction::RV128A(RV128A::Amoswapq(r)))
        } else if f5 == FUNCT5_A_AMOADD {
            Some(Instruction::RV128A(RV128A::Amoaddq(r)))
        } else if f5 == FUNCT5_A_AMOXOR {
            Some(Instruction::RV128A(RV128A::Amoxorq(r)))
        } else if f5 == FUNCT5_A_AMOAND {
            Some(Instruction::RV128A(RV128A::Amoandq(r)))
        } else if f5 == FUNCT5_A_AMOOR {
            Some(Instruction::RV128A(RV128A::Amoorq(r)))
        } else if f5 == FUNCT5_A_AMOMIN {
            Some(Instruction::RV128A(RV128A::Amominq(r)))
        } else if f5 == FUNCT5_A_AMOMAX {
            Some(Instruction::RV128A(RV128A::Amomaxq(r)))
        } else if f5 == FUNCT5_A_AMOMINU {
            Some(Instruction::RV128A(RV128A::Amominuq(r)))
        } else if f5 == FUNCT5_A_AMOMAXU {
            Some(Instruction::RV128A(RV128A::Amomaxuq(r)))
        } else {
            None
        }
    } else {
        None
    }
}

/// The instruction a 32-bit word denotes at the given register width, if any.
pub open spec fn decode32(w: u32, x: Xlen) -> Option<Instruction> {
    let op = opcode_of(w);
    let f3 = funct3_of(w);
    if op == OPCODE_LUI {
        Some(Instruction::RV32I(RV32I::Lui(u_fields(w))))
    } else if op == OPCODE_AUIPC {
        Some(Instruction::RV32I(RV32I::Auipc(u_fields(w))))
    } else if op == OPCODE_JAL {
        Some(Instruction::RV32I(RV32I::Jal(j_fields(w))))
    } else if op == OPCODE_JALR {
        if f3 == 0 {
            Some(Instruction::RV32I(RV32I::Jalr(i_fields(w))))
        } else {
            None
        }
    } else if op == OPCODE_BRANCH {
        branch_of(f3, b_fields(w))
    } else if op == OPCODE_LOAD {
        load_of(f3, i_fields(w), x)
    } else if op == OPCODE_STORE {
        store_of(f3, s_fields(w), x)
    } else if op == OPCODE_MISC_MEM {
        if f3 == FUNCT3_MISC_MEM_FENCE {
            Some(Instruction::RV32I(RV32I::Fence))
        } else if f3 == FUNCT3_MISC_MEM_FENCE_I {
            Some(Instruction::RV32I(RV32I::FenceI))
        } else {
            None
        }
    } else if op == OPCODE_SYSTEM {
        system_of(w)
    } else if op == OPCODE_OP_IMM {
        op_imm_of(w, x)
    } else if op == OPCODE_OP {
        op_of(f3, funct7_of(w), r_fields(w), x)
    } else if op == OPCODE_OP_IMM32 {
        if x != Xlen::X32 {
            op_imm32_of(w)
        } else {
            None
        }
    } else if op == OPCODE_OP_32 {
        if x != Xlen::X32 {
            op32_of(f3, funct7_of(w), r_fields(w))
        } else {
            None
        }
    } else if op == OPCODE_LOAD_FP {
        if f3 == FUNCT3_WIDTH_W {
            Some(Instruction::RVF(RVF::Flw(i_fields(w))))
        } else {
            None
        }
    } else if op == OPCODE_STORE_FP {
        if f3 == FUNCT3_WIDTH_W {
            Some(Instruction::RVF(RVF::Fsw(s_fields(w))))
        } else {
            None
        }
    } else if op == OPCODE_FMADD || op == OPCODE_FMSUB || op == OPCODE_FNMSUB || op
        == OPCODE_FNMADD {
        fused_of(op, r4_fields(w))
    } else if op == OPCODE_FP {
        if funct2_of(w) == FUNCT2_FMT_S {
            fp_of(funct5_of(w), f3, rs2_of(w), r_fields(w), x)
        } else {
            None
        }
    } else if op == OPCODE_A {
        amo_of(f3, funct5_of(w), r_fields(w), x)
    } else {
        None
    }
}

/// Decodes a 32-bit instruction word at the given register width.
/// Fails exactly on the words that denote no supported instruction at that width.
pub fn resolve_u32(ins: u32, xlen: Xlen) -> (r: Result<Instruction, ()>)
    ensures
        r matches Ok(i) ==> decode32(ins, xlen) == Some(i) && i.wf(),
        r is Err <==> decode32(ins, xlen) is None,
{
    let op = ins % 128;
    let f3 = ((ins / 4096) % 8) as u8;
    let f7 = (ins / 33554432) as u8;
    let ans = if op == OPCODE_LUI {
        Some(Instruction::RV32I(RV32I::Lui(get_u(ins))))
    } else if op == OPCODE_AUIPC {
        Some(Instruction::RV32I(RV32I::Auipc(get_u(ins))))
    } else if op == OPCODE_JAL {
        Some(Instruction::RV32I(RV32I::Jal(get_j(ins))))
    } else if op == OPCODE_JALR {
        if f3 == 0 {
            Some(Instruction::RV32I(RV32I::Jalr(get_i(ins))))
        } else {
            None
        }
    } else if op == OPCODE_BRANCH {
        decode_branch(f3, get_b(ins))
    } else if op == OPCODE_LOAD {
        decode_load(f3, get_i(ins), xlen)
    } else if op == OPCODE_STORE {
        decode_store(f3, get_s(ins), xlen)
    } else if op == OPCODE_MISC_MEM {
        if f3 == FUNCT3_MISC_MEM_FENCE {
            Some(Instruction::RV32I(RV32I::Fence))
        } else if f3 == FUNCT3_MISC_MEM_FENCE_I {
            Some(Instruction::RV32I(RV32I::FenceI))
        } else {
            None
        }
    } else if op == OPCODE_SYSTEM {
        decode_system(ins)
    } else if op == OPCODE_OP_IMM {
        decode_op_imm(ins, xlen)
    } else if op == OPCODE_OP {
        decode_op(f3, f7, get_r(ins), xlen)
    } else if op == OPCODE_OP_IMM32 {
        if xlen != Xlen::X32 {
            decode_op_imm32(ins)
        } else {
            None
        }
    } else if op == OPCODE_OP_32 {
        if xlen != Xlen::X32 {
            decode_op32(f3, f7, get_r(ins))
        } else {
            None
        }
    } else if op == OPCODE_LOAD_FP {
        if f3 == FUNCT3_WIDTH_W {
            Some(Instruction::RVF(RVF::Flw(get_i(ins))))
        } else {
            None
        }
    } else if op == OPCODE_STORE_FP {
        if f3 == FUNCT3_WIDTH_W {
            Some(Instruction::RVF(RVF::Fsw(get_s(ins))))
        } else {
            None
        }
    } else if op == OPCODE_FMADD || op == OPCODE_FMSUB || op == OPCODE_FNMSUB || op
        == OPCODE_FNMADD {
        decode_fused(op, get_r4(ins))
    } else if op == OPCODE_FP {
        if ((ins / 33554432) % 4) as u8 == FUNCT2_FMT_S {
            decode_fp((ins / 134217728) as u8, f3, ((ins / 1048576) % 32) as u8, get_r(ins), xlen)
        } else {
            None
        }
    } else if op == OPCODE_A {
        decode_amo(f3, (ins / 134217728) as u8, get_r(ins), xlen)
    } else {
        None
    };
    match ans {
        Some(i) => Ok(i),
        None => Err(()),
    }
}

} // verus!
