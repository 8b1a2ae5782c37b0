//! The base integer group, with the M extension and the fence and environment calls.
use vstd::prelude::*;
use super::{
    BType, IType, JType, RType, SType, UType, fmt2, fmt3, mem, reg_name, put2, put3, mnem, reg,
    mem_op,
};
use crate::text::{dec, sdec, dec_string, sdec_string};

verus! {

/// Base integer instructions available at every register width.
#[derive(Debug, Clone, Copy, PartialEq, Eq, Structural)]
pub enum RV32I {
    Lui(UType),
    Auipc(UType),
    Jal(JType),
    Jalr(IType),
    Beq(BType),
    Bne(BType),
    Blt(BType),
    Bge(BType),
    Bltu(BType),
    Bgeu(BType),
    Lb(IType),
    Lh(IType),
    Lw(IType),
    Lbu(IType),
    Lhu(IType),
    Sb(SType),
    Sh(SType),
    Sw(SType),
    Addi(IType),
    Slti(IType),
    Sltiu(IType),
    Xori(IType),
    Ori(IType),
    Andi(IType),
    Slli(IType),
    Srli(IType),
    Srai(IType),
    Add(RType),
    Sub(RType),
    Sll(RType),
    Slt(RType),
    Sltu(RType),
    Xor(RType),
    Srl(RType),
    Sra(RType),
    Or(RType),
    And(RType),
    Mul(RType),
    Mulh(RType),
    Mulhsu(RType),
    Mulhu(RType),
    Div(RType),
    Divu(RType),
    Rem(RType),
    Remu(RType),
    Fence,
    FenceI,
    Ecall,
    Ebreak,
}

impl RV32I {
    /// The mnemonic, as it opens the disassembly text.
    pub open spec fn mnemonic(self) -> Seq<char> {
        match self {
            RV32I::Lui(_) => "lui"@,
            RV32I::Auipc(_) => "auipc"@,
            RV32I::Jal(_) => "jal"@,
            RV32I::Jalr(_) => "jalr"@,
            RV32I::Beq(_) => "beq"@,
            RV32I::Bne(_) => "bne"@,
            RV32I::Blt(_) => "blt"@,
            RV32I::Bge(_) => "bge"@,
            RV32I::Bltu(_) => "bltu"@,
            RV32I::Bgeu(_) => "bgeu"@,
            RV32I::Lb(_) => "lb"@,
            RV32I::Lh(_) => "lh"@,
            RV32I::Lw(_) => "lw"@,
            RV32I::Lbu(_) => "lbu"@,
            RV32I::Lhu(_) => "lhu"@,
            RV32I::Sb(_) => "sb"@,
            RV32I::Sh(_) => "sh"@,
            RV32I::Sw(_) => "sw"@,
            RV32I::Addi(_) => "addi"@,
            RV32I::Slti(_) => "slti"@,
            RV32I::Sltiu(_) => "sltiu"@,
            RV32I::Xori(_) => "xori"@,
            RV32I::Ori(_) => "ori"@,
            RV32I::Andi(_) => "andi"@,
            RV32I::Slli(_) => "slli"@,
            RV32I::Srli(_) => "srli"@,
            RV32I::Srai(_) => "srai"@,
            RV32I::Add(_) => "add"@,
            RV32I::Sub(_) => "sub"@,
            RV32I::Sll(_) => "sll"@,
            RV32I::Slt(_) => "slt"@,
            RV32I::Sltu(_) => "sltu"@,
            RV32I::Xor(_) => "xor"@,
            RV32I::Srl(_) => "srl"@,
            RV32I::Sra(_) => "sra"@,
            RV32I::Or(_) => "or"@,
            RV32I::And(_) => "and"@,
            RV32I::Mul(_) => "mul"@,
            RV32I::Mulh(_) => "mulh"@,
            RV32I::Mulhsu(_) => "mulhsu"@,
            RV32I::Mulhu(_) => "mulhu"@,
            RV32I::Div(_) => "div"@,
            RV32I::Divu(_) => "divu"@,
            RV32I::Rem(_) => "rem"@,
            RV32I::Remu(_) => "remu"@,
            RV32I::Fence => "fence"@,
            RV32I::FenceI => "fence.i"@,
            RV32I::Ecall => "ecall"@,
            RV32I::Ebreak => "ebreak"@,
        }
    }

    /// Every field of the carried record is within its width.
    pub open spec fn wf(self) -> bool {
        match self {
            RV32I::Lui(t) => t.wf(),
            RV32I::Auipc(t) => t.wf(),
            RV32I::Jal(t) => t.wf(),
            RV32I::Jalr(t) => t.wf(),
            RV32I::Beq(t) => t.wf(),
            RV32I::Bne(t) => t.wf(),
            RV32I::Blt(t) => t.wf(),
            RV32I::Bge(t) => t.wf(),
            RV32I::Bltu(t) => t.wf(),
            RV32I::Bgeu(t) => t.wf(),
            RV32I::Lb(t) => t.wf(),
            RV32I::Lh(t) => t.wf(),
            RV32I::Lw(t) => t.wf(),
            RV32I::Lbu(t) => t.wf(),
            RV32I::Lhu(t) => t.wf(),
            RV32I::Sb(t) => t.wf(),
            RV32I::Sh(t) => t.wf(),
            RV32I::Sw(t) => t.wf(),
            RV32I::Addi(t) => t.wf(),
            RV32I::Slti(t) => t.wf(),
            RV32I::Sltiu(t) => t.wf(),
            RV32I::Xori(t) => t.wf(),
            RV32I::Ori(t) => t.wf(),
            RV32I::Andi(t) => t.wf(),
            RV32I::Slli(t) => t.wf(),
            RV32I::Srli(t) => t.wf(),
            RV32I::Srai(t) => t.wf(),
            RV32I::Add(t) => t.wf(),
            RV32I::Sub(t) => t.wf(),
            RV32I::Sll(t) => t.wf(),
            RV32I::Slt(t) => t.wf(),
            RV32I::Sltu(t) => t.wf(),
            RV32I::Xor(t) => t.wf(),
            RV32I::Srl(t) => t.wf(),
            RV32I::Sra(t) => t.wf(),
            RV32I::Or(t) => t.wf(),
            RV32I::And(t) => t.wf(),
            RV32I::Mul(t) => t.wf(),
            RV32I::Mulh(t) => t.wf(),
            RV32I::Mulhsu(t) => t.wf(),
            RV32I::Mulhu(t) => t.wf(),
            RV32I::Div(t) => t.wf(),
            RV32I::Divu(t) => t.wf(),
            RV32I::Rem(t) => t.wf(),
            RV32I::Remu(t) => t.wf(),
            RV32I::Fence => true,
            RV32I::FenceI => true,
            RV32I::Ecall => true,
            RV32I::Ebreak => true,
        }
    }

    /// The disassembly text: mnemonic, then the operands in assembler order.
    pub open spec fn text(self) -> Seq<char> {
        match self {
            RV32I::Lui(t) => fmt2("lui"@, reg_name(t.rd), dec((t.imm.bits / 4096) as nat)),
            RV32I::Auipc(t) => fmt2("auipc"@, reg_name(t.rd), dec((t.imm.bits / 4096) as nat)),
            RV32I::Jal(t) => fmt2("jal"@, reg_name(t.rd), sdec(t.imm.value())),
            RV32I::Jalr(t) => fmt2("jalr"@, reg_name(t.rd), mem(sdec(t.imm.value()), t.rs1)),
            RV32I::Beq(t) => fmt3("beq"@, reg_name(t.rs1), reg_name(t.rs2), sdec(t.imm.value())),
            RV32I::Bne(t) => fmt3("bne"@, reg_name(t.rs1), reg_name(t.rs2), sdec(t.imm.value())),
            RV32I::Blt(t) => fmt3("blt"@, reg_name(t.rs1), reg_name(t.rs2), sdec(t.imm.value())),
            RV32I::Bge(t) => fmt3("bge"@, reg_name(t.rs1), reg_name(t.rs2), sdec(t.imm.value())),
            RV32I::Bltu(t) => fmt3("bltu"@, reg_name(t.rs1), reg_name(t.rs2), sdec(t.imm.value())),
            RV32I::Bgeu(t) => fmt3("bgeu"@, reg_name(t.rs1), reg_name(t.rs2), sdec(t.imm.value())),
            RV32I::Lb(t) => fmt2("lb"@, reg_name(t.rd), mem(sdec(t.imm.value()), t.rs1)),
            RV32I::Lh(t) => fmt2("lh"@, reg_name(t.rd), mem(sdec(t.imm.value()), t.rs1)),
            RV32I::Lw(t) => fmt2("lw"@, reg_name(t.rd), mem(sdec(t.imm.value()), t.rs1)),
            RV32I::Lbu(t) => fmt2("lbu"@, reg_name(t.rd), mem(sdec(t.imm.value()), t.rs1)),
            RV32I::Lhu(t) => fmt2("lhu"@, reg_name(t.rd), mem(sdec(t.imm.value()), t.rs1)),
            RV32I::Sb(t) => fmt2("sb"@, reg_name(t.rs2), mem(sdec(t.imm.value()), t.rs1)),
            RV32I::Sh(t) => fmt2("sh"@, reg_name(t.rs2), mem(sdec(t.imm.value()), t.rs1)),
            RV32I::Sw(t) => fmt2("sw"@, reg_name(t.rs2), mem(sdec(t.imm.value()), t.rs1)),
            RV32I::Addi(t) => fmt3("addi"@, reg_name(t.rd), reg_name(t.rs1), sdec(t.imm.value())),
            RV32I::Slti(t) => fmt3("slti"@, reg_name(t.rd), reg_name(t.rs1), sdec(t.imm.value())),
            RV32I::Sltiu(t) => fmt3("sltiu"@, reg_name(t.rd), reg_name(t.rs1), sdec(t.imm.value())),
            RV32I::Xori(t) => fmt3("xori"@, reg_name(t.rd), reg_name(t.rs1), sdec(t.imm.value())),
            RV32I::Ori(t) => fmt3("ori"@, reg_name(t.rd), reg_name(t.rs1), sdec(t.imm.value())),
            RV32I::Andi(t) => fmt3("andi"@, reg_name(t.rd), reg_name(t.rs1), sdec(t.imm.value())),
            RV32I::Slli(t) => fmt3("slli"@, reg_name(t.rd), reg_name(t.rs1), dec(t.imm.bits as nat)),
            RV32I::Srli(t) => fmt3("srli"@, reg_name(t.rd), reg_name(t.rs1), dec(t.imm.bits as nat)),
            RV32I::Srai(t) => fmt3("srai"@, reg_name(t.rd), reg_name(t.rs1), dec(t.imm.bits as nat)),
            RV32I::Add(t) => fmt3("add"@, reg_name(t.rd), reg_name(t.rs1), reg_name(t.rs2)),
            RV32I::Sub(t) => fmt3("sub"@, reg_name(t.rd), reg_name(t.rs1), reg_name(t.rs2)),
            RV32I::Sll(t) => fmt3("sll"@, reg_name(t.rd), reg_name(t.rs1), reg_name(t.rs2)),
            RV32I::Slt(t) => fmt3("slt"@, reg_name(t.rd), reg_name(t.rs1), reg_name(t.rs2)),
            RV32I::Sltu(t) => fmt3("sltu"@, reg_name(t.rd), reg_name(t.rs1), reg_name(t.rs2)),
            RV32I::Xor(t) => fmt3("xor"@, reg_name(t.rd), reg_name(t.rs1), reg_name(t.rs2)),
            RV32I::Srl(t) => fmt3("srl"@, reg_name(t.rd), reg_name(t.rs1), reg_name(t.rs2)),
            RV32I::Sra(t) => fmt3("sra"@, reg_name(t.rd), reg_name(t.rs1), reg_name(t.rs2)),
            RV32I::Or(t) => fmt3("or"@, reg_name(t.rd), reg_name(t.rs1), reg_name(t.rs2)),
            RV32I::And(t) => fmt3("and"@, reg_name(t.rd), reg_name(t.rs1), reg_name(t.rs2)),
            RV32I::Mul(t) => fmt3("mul"@, reg_name(t.rd), reg_name(t.rs1), reg_name(t.rs2)),
            RV32I::Mulh(t) => fmt3("mulh"@, reg_name(t.rd), reg_name(t.rs1), reg_name(t.rs2)),
            RV32I::Mulhsu(t) => fmt3("mulhsu"@, reg_name(t.rd), reg_name(t.rs1), reg_name(t.rs2)),
            RV32I::Mulhu(t) => fmt3("mulhu"@, reg_name(t.rd), reg_name(t.rs1), reg_name(t.rs2)),
            RV32I::Div(t) => fmt3("div"@, reg_name(t.rd), reg_name(t.rs1), reg_name(t.rs2)),
            RV32I::Divu(t) => fmt3("divu"@, reg_name(t.rd), reg_name(t.rs1), reg_name(t.rs2)),
            RV32I::Rem(t) => fmt3("rem"@, reg_name(t.rd), reg_name(t.rs1), reg_name(t.rs2)),
            RV32I::Remu(t) => fmt3("remu"@, reg_name(t.rd), reg_name(t.rs1), reg_name(t.rs2)),
            RV32I::Fence => "fence"@,
            RV32I::FenceI => "fence.i"@,
            RV32I::Ecall => "ecall"@,
            RV32I::Ebreak => "ebreak"@,
        }
    }

    /// Renders the instruction as text.
    pub fn to_string(&self) -> (r: String)
        requires
            self.wf(),
        ensures
            r@ == self.text(),
    {
        match self {
            RV32I::Lui(t) => put2("lui", reg(t.rd), dec_string((t.imm.bits / 4096) as u64)),
            RV32I::Auipc(t) => put2("auipc", reg(t.rd), dec_string((t.imm.bits / 4096) as u64)),
            RV32I::Jal(t) => put2("jal", reg(t.rd), sdec_string(t.imm.signed())),
            RV32I::Jalr(t) => put2("jalr", reg(t.rd), mem_op(sdec_string(t.imm.signed()), t.rs1)),
            RV32I::Beq(t) => put3("beq", reg(t.rs1), reg(t.rs2), sdec_string(t.imm.signed())),
            RV32I::Bne(t) => put3("bne", reg(t.rs1), reg(t.rs2), sdec_string(t.imm.signed())),
            RV32I::Blt(t) => put3("blt", reg(t.rs1), reg(t.rs2), sdec_string(t.imm.signed())),
            RV32I::Bge(t) => put3("bge", reg(t.rs1), reg(t.rs2), sdec_string(t.imm.signed())),
            RV32I::Bltu(t) => put3("bltu", reg(t.rs1), reg(t.rs2), sdec_string(t.imm.signed())),
            RV32I::Bgeu(t) => put3("bgeu", reg(t.rs1), reg(t.rs2), sdec_string(t.imm.signed())),
            RV32I::Lb(t) => put2("lb", reg(t.rd), mem_op(sdec_string(t.imm.signed()), t.rs1)),
            RV32I::Lh(t) => put2("lh", reg(t.rd), mem_op(sdec_string(t.imm.signed()), t.rs1)),
            RV32I::Lw(t) => put2("lw", reg(t.rd), mem_op(sdec_string(t.imm.signed()), t.rs1)),
            RV32I::Lbu(t) => put2("lbu", reg(t.rd), mem_op(sdec_string(t.imm.signed()), t.rs1)),
            RV32I::Lhu(t) => put2("lhu", reg(t.rd), mem_op(sdec_string(t.imm.signed()), t.rs1)),
            RV32I::Sb(t) => put2("sb", reg(t.rs2), mem_op(sdec_string(t.imm.signed()), t.rs1)),
            RV32I::Sh(t) => put2("sh", reg(t.rs2), mem_op(sdec_string(t.imm.signed()), t.rs1)),
            RV32I::Sw(t) => put2("sw", reg(t.rs2), mem_op(sdec_string(t.imm.signed()), t.rs1)),
            RV32I::Addi(t) => put3("addi", reg(t.rd), reg(t.rs1), sdec_string(t.imm.signed())),
            RV32I::Slti(t) => put3("slti", reg(t.rd), reg(t.rs1), sdec_string(t.imm.signed())),
            RV32I::Sltiu(t) => put3("sltiu", reg(t.rd), reg(t.rs1), sdec_string(t.imm.signed())),
            RV32I::Xori(t) => put3("xori", reg(t.rd), reg(t.rs1), sdec_string(t.imm.signed())),
            RV32I::Ori(t) => put3("ori", reg(t.rd), reg(t.rs1), sdec_string(t.imm.signed())),
            RV32I::Andi(t) => put3("andi", reg(t.rd), reg(t.rs1), sdec_string(t.imm.signed())),
            RV32I::Slli(t) => put3("slli", reg(t.rd), reg(t.rs1), dec_string(t.imm.bits as u64)),
            RV32I::Srli(t) => put3("srli", reg(t.rd), reg(t.rs1), dec_string(t.imm.bits as u64)),
            RV32I::Srai(t) => put3("srai", reg(t.rd), reg(t.rs1), dec_string(t.imm.bits as u64)),
            RV32I::Add(t) => put3("add", reg(t.rd), reg(t.rs1), reg(t.rs2)),
            RV32I::Sub(t) => put3("sub", reg(t.rd), reg(t.rs1), reg(t.rs2)),
            RV32I::Sll(t) => put3("sll", reg(t.rd), reg(t.rs1), reg(t.rs2)),
            RV32I::Slt(t) => put3("slt", reg(t.rd), reg(t.rs1), reg(t.rs2)),
            RV32I::Sltu(t) => put3("sltu", reg(t.rd), reg(t.rs1), reg(t.rs2)),
            RV32I::Xor(t) => put3("xor", reg(t.rd), reg(t.rs1), reg(t.rs2)),
            RV32I::Srl(t) => put3("srl", reg(t.rd), reg(t.rs1), reg(t.rs2)),
            RV32I::Sra(t) => put3("sra", reg(t.rd), reg(t.rs1), reg(t.rs2)),
            RV32I::Or(t) => put3("or", reg(t.rd), reg(t.rs1), reg(t.rs2)),
            RV32I::And(t) => put3("and", reg(t.rd), reg(t.rs1), reg(t.rs2)),
            RV32I::Mul(t) => put3("mul", reg(t.rd), reg(t.rs1), reg(t.rs2)),
            RV32I::Mulh(t) => put3("mulh", reg(t.rd), reg(t.rs1), reg(t.rs2)),
            RV32I::Mulhsu(t) => put3("mulhsu", reg(t.rd), reg(t.rs1), reg(t.rs2)),
            RV32I::Mulhu(t) => put3("mulhu", reg(t.rd), reg(t.rs1), reg(t.rs2)),
            RV32I::Div(t) => put3("div", reg(t.rd), reg(t.rs1), reg(t.rs2)),
            RV32I::Divu(t) => put3("divu", reg(t.rd), reg(t.rs1), reg(t.rs2)),
            RV32I::Rem(t) => put3("rem", reg(t.rd), reg(t.rs1), reg(t.rs2)),
            RV32I::Remu(t) => put3("remu", reg(t.rd), reg(t.rs1), reg(t.rs2)),
            RV32I::Fence => mnem("fence"),
            RV32I::FenceI => mnem("fence.i"),
            RV32I::Ecall => mnem("ecall"),
            RV32I::Ebreak => mnem("ebreak"),
        }
    }
}

} // verus!
