//! The compressed 16-bit instructions.
use vstd::prelude::*;
use super::{
    CAType, CBType, CIType, CIWType, CJType, CLType, CRType, CSSType, CSType, fmt1, fmt2, mem,
    reg_name, put1, put2, mnem, reg, mem_op,
};
use crate::text::{dec, sdec, dec_string, sdec_string};

verus! {

/// Compressed instructions; `rd'`/`rs1'`/`rs2'` slots hold full register numbers in x8..x15.
#[derive(Debug, Clone, Copy, PartialEq, Eq, Structural)]
pub enum RVC {
    Caddi4spn(CIWType),
    Cnop(CIType),
    Caddi(CIType),
    Cli(CIType),
    Caddi16sp(CIType),
    Caddiw(CIType),
    Clw(CLType),
    Csw(CSType),
    Clwsp(CIType),
    Cswsp(CSSType),
    Cld(CLType),
    Csd(CSType),
    Cldsp(CIType),
    Csdsp(CSSType),
    Cslli(CIType),
    Csrli(CIType),
    Csrai(CIType),
    Candi(CIType),
    Csub(CAType),
    Cxor(CAType),
    Cor(CAType),
    Cand(CAType),
    Csubw(CAType),
    Caddw(CAType),
    Cj(CJType),
    Cjal(CJType),
    Cjr(CRType),
    Cjalr(CRType),
    Cmv(CRType),
    Cadd(CRType),
    Cbeqz(CBType),
    Cbnez(CBType),
}

impl RVC {
    /// The mnemonic, as it opens the disassembly text.
    pub open spec fn mnemonic(self) -> Seq<char> {
        match self {
            RVC::Caddi4spn(_) => "c.addi4spn"@,
            RVC::Cnop(_) => "c.nop"@,
            RVC::Caddi(_) => "c.addi"@,
            RVC::Cli(_) => "c.li"@,
            RVC::Caddi16sp(_) => "c.addi16sp"@,
            RVC::Caddiw(_) => "c.addiw"@,
            RVC::Clw(_) => "c.lw"@,
            RVC::Csw(_) => "c.sw"@,
            RVC::Clwsp(_) => "c.lwsp"@,
            RVC::Cswsp(_) => "c.swsp"@,
            RVC::Cld(_) => "c.ld"@,
            RVC::Csd(_) => "c.sd"@,
            RVC::Cldsp(_) => "c.ldsp"@,
            RVC::Csdsp(_) => "c.sdsp"@,
            RVC::Cslli(_) => "c.slli"@,
            RVC::Csrli(_) => "c.srli"@,
            RVC::Csrai(_) => "c.srai"@,
            RVC::Candi(_) => "c.andi"@,
            RVC::Csub(_) => "c.sub"@,
            RVC::Cxor(_) => "c.xor"@,
            RVC::Cor(_) => "c.or"@,
            RVC::Cand(_) => "c.and"@,
            RVC::Csubw(_) => "c.subw"@,
            RVC::Caddw(_) => "c.addw"@,
            RVC::Cj(_) => "c.j"@,
            RVC::Cjal(_) => "c.jal"@,
            RVC::Cjr(_) => "c.jr"@,
            RVC::Cjalr(_) => "c.jalr"@,
            RVC::Cmv(_) => "c.mv"@,
            RVC::Cadd(_) => "c.add"@,
            RVC::Cbeqz(_) => "c.beqz"@,
            RVC::Cbnez(_) => "c.bnez"@,
        }
    }

    /// Every field of the carried record is within its width.
    pub open spec fn wf(self) -> bool {
        match self {
            RVC::Caddi4spn(t) => t.wf(),
            RVC::Cnop(t) => t.wf(),
            RVC::Caddi(t) => t.wf(),
            RVC::Cli(t) => t.wf(),
            RVC::Caddi16sp(t) => t.wf(),
            RVC::Caddiw(t) => t.wf(),
            RVC::Clw(t) => t.wf(),
            RVC::Csw(t) => t.wf(),
            RVC::Clwsp(t) => t.wf(),
            RVC::Cswsp(t) => t.wf(),
            RVC::Cld(t) => t.wf(),
            RVC::Csd(t) => t.wf(),
            RVC::Cldsp(t) => t.wf(),
            RVC::Csdsp(t) => t.wf(),
            RVC::Cslli(t) => t.wf(),
            RVC::Csrli(t) => t.wf(),
            RVC::Csrai(t) => t.wf(),
            RVC::Candi(t) => t.wf(),
            RVC::Csub(t) => t.wf(),
            RVC::Cxor(t) => t.wf(),
            RVC::Cor(t) => t.wf(),
            RVC::Cand(t) => t.wf(),
            RVC::Csubw(t) => t.wf(),
            RVC::Caddw(t) => t.wf(),
            RVC::Cj(t) => t.wf(),
            RVC::Cjal(t) => t.wf(),
            RVC::Cjr(t) => t.wf(),
            RVC::Cjalr(t) => t.wf(),
            RVC::Cmv(t) => t.wf(),
            RVC::Cadd(t) => t.wf(),
            RVC::Cbeqz(t) => t.wf(),
            RVC::Cbnez(t) => t.wf(),
        }
    }

    /// The disassembly text: mnemonic, then the operands in assembler order.
    pub open spec fn text(self) -> Seq<char> {
        match self {
            RVC::Caddi4spn(t) => fmt2("c.addi4spn"@, reg_name(t.rd), dec(t.uimm.bits as nat)),
            RVC::Cnop(t) => "c.nop"@,
            RVC::Caddi(t) => fmt2("c.addi"@, reg_name(t.rdrs1), sdec(t.imm.value())),
            RVC::Cli(t) => fmt2("c.li"@, reg_name(t.rdrs1), sdec(t.imm.value())),
            RVC::Caddi16sp(t) => fmt1("c.addi16sp"@, sdec(t.imm.value())),
            RVC::Caddiw(t) => fmt2("c.addiw"@, reg_name(t.rdrs1), sdec(t.imm.value())),
            RVC::Clw(t) => fmt2("c.lw"@, reg_name(t.rd), mem(dec(t.imm.bits as nat), t.rs1)),
            RVC::Csw(t) => fmt2("c.sw"@, reg_name(t.rs2), mem(dec(t.imm.bits as nat), t.rs1)),
            RVC::Clwsp(t) => fmt2("c.lwsp"@, reg_name(t.rdrs1), mem(dec(t.imm.bits as nat), 2)),
            RVC::Cswsp(t) => fmt2("c.swsp"@, reg_name(t.rs2), mem(dec(t.imm.bits as nat), 2)),
            RVC::Cld(t) => fmt2("c.ld"@, reg_name(t.rd), mem(dec(t.imm.bits as nat), t.rs1)),
            RVC::Csd(t) => fmt2("c.sd"@, reg_name(t.rs2), mem(dec(t.imm.bits as nat), t.rs1)),
            RVC::Cldsp(t) => fmt2("c.ldsp"@, reg_name(t.rdrs1), mem(dec(t.imm.bits as nat), 2)),
            RVC::Csdsp(t) => fmt2("c.sdsp"@, reg_name(t.rs2), mem(dec(t.imm.bits as nat), 2)),
            RVC::Cslli(t) => fmt2("c.slli"@, reg_name(t.rdrs1), dec(t.imm.bits as nat)),
            RVC::Csrli(t) => fmt2("c.srli"@, reg_name(t.rdrs1), dec(t.imm.bits as nat)),
            RVC::Csrai(t) => fmt2("c.srai"@, reg_name(t.rdrs1), dec(t.imm.bits as nat)),
            RVC::Candi(t) => fmt2("c.andi"@, reg_name(t.rdrs1), sdec(t.imm.value())),
            RVC::Csub(t) => fmt2("c.sub"@, reg_name(t.rdrs1), reg_name(t.rs2)),
            RVC::Cxor(t) => fmt2("c.xor"@, reg_name(t.rdrs1), reg_name(t.rs2)),
            RVC::Cor(t) => fmt2("c.or"@, reg_name(t.rdrs1), reg_name(t.rs2)),
            RVC::Cand(t) => fmt2("c.and"@, reg_name(t.rdrs1), reg_name(t.rs2)),
            RVC::Csubw(t) => fmt2("c.subw"@, reg_name(t.rdrs1), reg_name(t.rs2)),
            RVC::Caddw(t) => fmt2("c.addw"@, reg_name(t.rdrs1), reg_name(t.rs2)),
            RVC::Cj(t) => fmt1("c.j"@, sdec(t.target.value())),
            RVC::Cjal(t) => fmt1("c.jal"@, sdec(t.target.value())),
            RVC::Cjr(t) => fmt1("c.jr"@, reg_name(t.rdrs1)),
            RVC::Cjalr(t) => fmt1("c.jalr"@, reg_name(t.rdrs1)),
            RVC::Cmv(t) => fmt2("c.mv"@, reg_name(t.rdrs1), reg_name(t.rs2)),
            RVC::Cadd(t) => fmt2("c.add"@, reg_name(t.rdrs1), reg_name(t.rs2)),
            RVC::Cbeqz(t) => fmt2("c.beqz"@, reg_name(t.rs1), sdec(t.off.value())),
            RVC::Cbnez(t) => fmt2("c.bnez"@, reg_name(t.rs1), sdec(t.off.value())),
        }
    }

    /// Renders the instruction as text.
    pub fn to_string(&self) -> (r: String)
        requires
            self.wf(),
        ensures
            r@ == self.text(),
    {
        match self {
            RVC::Caddi4spn(t) => put2("c.addi4spn", reg(t.rd), dec_string(t.uimm.bits as u64)),
            RVC::Cnop(t) => mnem("c.nop"),
            RVC::Caddi(t) => put2("c.addi", reg(t.rdrs1), sdec_string(t.imm.signed())),
            RVC::Cli(t) => put2("c.li", reg(t.rdrs1), sdec_string(t.imm.signed())),
            RVC::Caddi16sp(t) => put1("c.addi16sp", sdec_string(t.imm.signed())),
            RVC::Caddiw(t) => put2("c.addiw", reg(t.rdrs1), sdec_string(t.imm.signed())),
            RVC::Clw(t) => put2("c.lw", reg(t.rd), mem_op(dec_string(t.imm.bits as u64), t.rs1)),
            RVC::Csw(t) => put2("c.sw", reg(t.rs2), mem_op(dec_string(t.imm.bits as u64), t.rs1)),
            RVC::Clwsp(t) => put2("c.lwsp", reg(t.rdrs1), mem_op(dec_string(t.imm.bits as u64), 2)),
            RVC::Cswsp(t) => put2("c.swsp", reg(t.rs2), mem_op(dec_string(t.imm.bits as u64), 2)),
            RVC::Cld(t) => put2("c.ld", reg(t.rd), mem_op(dec_string(t.imm.bits as u64), t.rs1)),
            RVC::Csd(t) => put2("c.sd", reg(t.rs2), mem_op(dec_string(t.imm.bits as u64), t.rs1)),
            RVC::Cldsp(t) => put2("c.ldsp", reg(t.rdrs1), mem_op(dec_string(t.imm.bits as u64), 2)),
            RVC::Csdsp(t) => put2("c.sdsp", reg(t.rs2), mem_op(dec_string(t.imm.bits as u64), 2)),
            RVC::Cslli(t) => put2("c.slli", reg(t.rdrs1), dec_string(t.imm.bits as u64)),
            RVC::Csrli(t) => put2("c.srli", reg(t.rdrs1), dec_string(t.imm.bits as u64)),
            RVC::Csrai(t) => put2("c.srai", reg(t.rdrs1), dec_string(t.imm.bits as u64)),
            RVC::Candi(t) => put2("c.andi", reg(t.rdrs1), sdec_string(t.imm.signed())),
            RVC::Csub(t) => put2("c.sub", reg(t.rdrs1), reg(t.rs2)),
            RVC::Cxor(t) => put2("c.xor", reg(t.rdrs1), reg(t.rs2)),
            RVC::Cor(t) => put2("c.or", reg(t.rdrs1), reg(t.rs2)),
            RVC::Cand(t) => put2("c.and", reg(t.rdrs1), reg(t.rs2)),
            RVC::Csubw(t) => put2("c.subw", reg(t.rdrs1), reg(t.rs2)),
            RVC::Caddw(t) => put2("c.addw", reg(t.rdrs1), reg(t.rs2)),
            RVC::Cj(t) => put1("c.j", sdec_string(t.target.signed())),
            RVC::Cjal(t) => put1("c.jal", sdec_string(t.target.signed())),
            RVC::Cjr(t) => put1("c.jr", reg(t.rdrs1)),
            RVC::Cjalr(t) => put1("c.jalr", reg(t.rdrs1)),
            RVC::Cmv(t) => put2("c.mv", reg(t.rdrs1), reg(t.rs2)),
            RVC::Cadd(t) => put2("c.add", reg(t.rdrs1), reg(t.rs2)),
            RVC::Cbeqz(t) => put2("c.beqz", reg(t.rs1), sdec_string(t.off.signed())),
            RVC::Cbnez(t) => put2("c.bnez", reg(t.rs1), sdec_string(t.off.signed())),
        }
    }
}

} // verus!
