//! Instructions that exist only when registers are 64 or 128 bits wide.
use vstd::prelude::*;
use super::{IType, RType, SType, fmt2, fmt3, mem, reg_name, put2, put3, reg, mem_op};
use crate::text::{dec, sdec, dec_string, sdec_string};

verus! {

/// Wide loads and stores, 6-bit shifts, and the 32-bit word operations.
#[derive(Debug, Clone, Copy, PartialEq, Eq, Structural)]
pub enum RV64I {
    Lwu(IType),
    Ld(IType),
    Sd(SType),
    Slli(IType),
    Srli(IType),
    Srai(IType),
    Addiw(IType),
    Slliw(IType),
    Srliw(IType),
    Sraiw(IType),
    Addw(RType),
    Subw(RType),
    Sllw(RType),
    Srlw(RType),
    Sraw(RType),
}

impl RV64I {
    /// The mnemonic, as it opens the disassembly text.
    pub open spec fn mnemonic(self) -> Seq<char> {
        match self {
            RV64I::Lwu(_) => "lwu"@,
            RV64I::Ld(_) => "ld"@,
            RV64I::Sd(_) => "sd"@,
            RV64I::Slli(_) => "slli"@,
            RV64I::Srli(_) => "srli"@,
            RV64I::Srai(_) => "srai"@,
            RV64I::Addiw(_) => "addiw"@,
            RV64I::Slliw(_) => "slliw"@,
            RV64I::Srliw(_) => "srliw"@,
            RV64I::Sraiw(_) => "sraiw"@,
            RV64I::Addw(_) => "addw"@,
            RV64I::Subw(_) => "subw"@,
            RV64I::Sllw(_) => "sllw"@,
            RV64I::Srlw(_) => "srlw"@,
            RV64I::Sraw(_) => "sraw"@,
        }
    }

    /// Every field of the carried record is within its width.
    pub open spec fn wf(self) -> bool {
        match self {
            RV64I::Lwu(t) => t.wf(),
            RV64I::Ld(t) => t.wf(),
            RV64I::Sd(t) => t.wf(),
            RV64I::Slli(t) => t.wf(),
            RV64I::Srli(t) => t.wf(),
            RV64I::Srai(t) => t.wf(),
            RV64I::Addiw(t) => t.wf(),
            RV64I::Slliw(t) => t.wf(),
            RV64I::Srliw(t) => t.wf(),
            RV64I::Sraiw(t) => t.wf(),
            RV64I::Addw(t) => t.wf(),
            RV64I::Subw(t) => t.wf(),
            RV64I::Sllw(t) => t.wf(),
            RV64I::Srlw(t) => t.wf(),
            RV64I::Sraw(t) => t.wf(),
        }
    }

    /// The disassembly text: mnemonic, then the operands in assembler order.
    pub open spec fn text(self) -> Seq<char> {
        match self {
            RV64I::Lwu(t) => fmt2("lwu"@, reg_name(t.rd), mem(sdec(t.imm.value()), t.rs1)),
            RV64I::Ld(t) => fmt2("ld"@, reg_name(t.rd), mem(sdec(t.imm.value()), t.rs1)),
            RV64I::Sd(t) => fmt2("sd"@, reg_name(t.rs2), mem(sdec(t.imm.value()), t.rs1)),
            RV64I::Slli(t) => fmt3("slli"@, reg_name(t.rd), reg_name(t.rs1), dec(t.imm.bits as nat)),
            RV64I::Srli(t) => fmt3("srli"@, reg_name(t.rd), reg_name(t.rs1), dec(t.imm.bits as nat)),
            RV64I::Srai(t) => fmt3("srai"@, reg_name(t.rd), reg_name(t.rs1), dec(t.imm.bits as nat)),
            RV64I::Addiw(t) => fmt3("addiw"@, reg_name(t.rd), reg_name(t.rs1), sdec(t.imm.value())),
            RV64I::Slliw(t) => fmt3("slliw"@, reg_name(t.rd), reg_name(t.rs1), dec(t.imm.bits as nat)),
            RV64I::Srliw(t) => fmt3("srliw"@, reg_name(t.rd), reg_name(t.rs1), dec(t.imm.bits as nat)),
            RV64I::Sraiw(t) => fmt3("sraiw"@, reg_name(t.rd), reg_name(t.rs1), dec(t.imm.bits as nat)),
            RV64I::Addw(t) => fmt3("addw"@, reg_name(t.rd), reg_name(t.rs1), reg_name(t.rs2)),
            RV64I::Subw(t) => fmt3("subw"@, reg_name(t.rd), reg_name(t.rs1), reg_name(t.rs2)),
            RV64I::Sllw(t) => fmt3("sllw"@, reg_name(t.rd), reg_name(t.rs1), reg_name(t.rs2)),
            RV64I::Srlw(t) => fmt3("srlw"@, reg_name(t.rd), reg_name(t.rs1), reg_name(t.rs2)),
            RV64I::Sraw(t) => fmt3("sraw"@, reg_name(t.rd), reg_name(t.rs1), reg_name(t.rs2)),
        }
    }

    /// Renders the instruction as text.
    pub fn to_string(&self) -> (r: String)
        requires
            self.wf(),
        ensures
            r@ == self.text(),
    {
        match self {
            RV64I::Lwu(t) => put2("lwu", reg(t.rd), mem_op(sdec_string(t.imm.signed()), t.rs1)),
            RV64I::Ld(t) => put2("ld", reg(t.rd), mem_op(sdec_string(t.imm.signed()), t.rs1)),
            RV64I::Sd(t) => put2("sd", reg(t.rs2), mem_op(sdec_string(t.imm.signed()), t.rs1)),
            RV64I::Slli(t) => put3("slli", reg(t.rd), reg(t.rs1), dec_string(t.imm.bits as u64)),
            RV64I::Srli(t) => put3("srli", reg(t.rd), reg(t.rs1), dec_string(t.imm.bits as u64)),
            RV64I::Srai(t) => put3("srai", reg(t.rd), reg(t.rs1), dec_string(t.imm.bits as u64)),
            RV64I::Addiw(t) => put3("addiw", reg(t.rd), reg(t.rs1), sdec_string(t.imm.signed())),
            RV64I::Slliw(t) => put3("slliw", reg(t.rd), reg(t.rs1), dec_string(t.imm.bits as u64)),
            RV64I::Srliw(t) => put3("srliw", reg(t.rd), reg(t.rs1), dec_string(t.imm.bits as u64)),
            RV64I::Sraiw(t) => put3("sraiw", reg(t.rd), reg(t.rs1), dec_string(t.imm.bits as u64)),
            RV64I::Addw(t) => put3("addw", reg(t.rd), reg(t.rs1), reg(t.rs2)),
            RV64I::Subw(t) => put3("subw", reg(t.rd), reg(t.rs1), reg(t.rs2)),
            RV64I::Sllw(t) => put3("sllw", reg(t.rd), reg(t.rs1), reg(t.rs2)),
            RV64I::Srlw(t) => put3("srlw", reg(t.rd), reg(t.rs1), reg(t.rs2)),
            RV64I::Sraw(t) => put3("sraw", reg(t.rd), reg(t.rs1), reg(t.rs2)),
        }
    }
}

} // verus!
