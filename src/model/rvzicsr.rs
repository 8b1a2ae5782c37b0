//! Control and status register access.
use vstd::prelude::*;
use super::{CsrIType, CsrRType, fmt3, reg_name, put3, reg};
use crate::text::{dec, dec_string};

verus! {

/// The six CSR read-modify-write instructions.
#[derive(Debug, Clone, Copy, PartialEq, Eq, Structural)]
pub enum RVZicsr {
    Csrrw(CsrRType),
    Csrrs(CsrRType),
    Csrrc(CsrRType),
    Csrrwi(CsrIType),
    Csrrsi(CsrIType),
    Csrrci(CsrIType),
}

impl RVZicsr {
    /// The mnemonic, as it opens the disassembly text.
    pub open spec fn mnemonic(self) -> Seq<char> {
        match self {
            RVZicsr::Csrrw(_) => "csrrw"@,
            RVZicsr::Csrrs(_) => "csrrs"@,
            RVZicsr::Csrrc(_) => "csrrc"@,
            RVZicsr::Csrrwi(_) => "csrrwi"@,
            RVZicsr::Csrrsi(_) => "csrrsi"@,
            RVZicsr::Csrrci(_) => "csrrci"@,
        }
    }

    /// Every field of the carried record is within its width.
    pub open spec fn wf(self) -> bool {
        match self {
            RVZicsr::Csrrw(t) => t.wf(),
            RVZicsr::Csrrs(t) => t.wf(),
            RVZicsr::Csrrc(t) => t.wf(),
            RVZicsr::Csrrwi(t) => t.wf(),
            RVZicsr::Csrrsi(t) => t.wf(),
            RVZicsr::Csrrci(t) => t.wf(),
        }
    }

    /// The disassembly text: mnemonic, then the operands in assembler order.
    pub open spec fn text(self) -> Seq<char> {
        match self {
            RVZicsr::Csrrw(t) => fmt3("csrrw"@, reg_name(t.rd), dec(t.csr as nat), reg_name(t.rs1)),
            RVZicsr::Csrrs(t) => fmt3("csrrs"@, reg_name(t.rd), dec(t.csr as nat), reg_name(t.rs1)),
            RVZicsr::Csrrc(t) => fmt3("csrrc"@, reg_name(t.rd), dec(t.csr as nat), reg_name(t.rs1)),
            RVZicsr::Csrrwi(t) => fmt3("csrrwi"@, reg_name(t.rd), dec(t.csr as nat), dec(t.uimm.bits as nat)),
            RVZicsr::Csrrsi(t) => fmt3("csrrsi"@, reg_name(t.rd), dec(t.csr as nat), dec(t.uimm.bits as nat)),
            RVZicsr::Csrrci(t) => fmt3("csrrci"@, reg_name(t.rd), dec(t.csr as nat), dec(t.uimm.bits as nat)),
        }
    }

    /// Renders the instruction as text.
    pub fn to_string(&self) -> (r: String)
        requires
            self.wf(),
        ensures
            r@ == self.text(),
    {
        match self {
            RVZicsr::Csrrw(t) => put3("csrrw", reg(t.rd), dec_string(t.csr as u64), reg(t.rs1)),
            RVZicsr::Csrrs(t) => put3("csrrs", reg(t.rd), dec_string(t.csr as u64), reg(t.rs1)),
            RVZicsr::Csrrc(t) => put3("csrrc", reg(t.rd), dec_string(t.csr as u64), reg(t.rs1)),
            RVZicsr::Csrrwi(t) => put3("csrrwi", reg(t.rd), dec_string(t.csr as u64), dec_string(t.uimm.bits as u64)),
            RVZicsr::Csrrsi(t) => put3("csrrsi", reg(t.rd), dec_string(t.csr as u64), dec_string(t.uimm.bits as u64)),
            RVZicsr::Csrrci(t) => put3("csrrci", reg(t.rd), dec_string(t.csr as u64), dec_string(t.uimm.bits as u64)),
        }
    }
}

} // verus!
