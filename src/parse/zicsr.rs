//! The CSR parser: the register and immediate forms of the three CSR operations.
use vstd::prelude::*;
use crate::imm::Xlen;
use crate::model::{Instruction, RVZicsr};
use super::forms::{form_csri, form_csrr, parse_csri, parse_csrr};
use crate::text::{eq_lit, views};

verus! {

/// What the CSR parser makes of a mnemonic and its operands.
/// `None` when the mnemonic is not one of this group's; `Some(None)` when its operands are rejected.
pub open spec fn csr_parse(
    m: Seq<char>,
    ops: Seq<Seq<char>>,
    x: Xlen,
) -> Option<Option<Instruction>> {
    if m == "csrrw"@ {
        Some(
            match form_csrr(ops) {
                Some(t) => Some(Instruction::RVZicsr(RVZicsr::Csrrw(t))),
                None => None,
            },
        )
    } else if m == "csrrs"@ {
        Some(
            match form_csrr(ops) {
                Some(t) => Some(Instruction::RVZicsr(RVZicsr::Csrrs(t))),
                None => None,
            },
        )
    } else if m == "csrrc"@ {
        Some(
            match form_csrr(ops) {
                Some(t) => Some(Instruction::RVZicsr(RVZicsr::Csrrc(t))),
                None => None,
            },
        )
    } else if m == "csrrwi"@ {
        Some(
            match form_csri(ops) {
                Some(t) => Some(Instruction::RVZicsr(RVZicsr::Csrrwi(t))),
                None => None,
            },
        )
    } else if m == "csrrsi"@ {
        Some(
            match form_csri(ops) {
                Some(t) => Some(Instruction::RVZicsr(RVZicsr::Csrrsi(t))),
                None => None,
            },
        )
    } else if m == "csrrci"@ {
        Some(
            match form_csri(ops) {
                Some(t) => Some(Instruction::RVZicsr(RVZicsr::Csrrci(t))),
                None => None,
            },
        )
    } else {
        None
    }
}

/// Parses the operands of a mnemonic of this group.
pub fn try_parse(
    mnem: &Vec<char>,
    ops: &Vec<Vec<char>>,
    xlen: Xlen,
) -> (r: Option<Result<Instruction, String>>)
    ensures
        r is None <==> csr_parse(mnem@, views(ops@), xlen) is None,
        r matches Some(Ok(i)) ==> csr_parse(mnem@, views(ops@), xlen) == Some(Some(i)) && i.wf(),
        r matches Some(Err(_)) ==> csr_parse(mnem@, views(ops@), xlen) == Some(None::<Instruction>),
{
    if eq_lit(mnem, "csrrw") {
        return Some(
            match parse_csrr(ops) {
                Ok(t) => Ok(Instruction::RVZicsr(RVZicsr::Csrrw(t))),
                Err(e) => Err(e),
            },
        );
    }
    if eq_lit(mnem, "csrrs") {
        return Some(
            match parse_csrr(ops) {
                Ok(t) => Ok(Instruction::RVZicsr(RVZicsr::Csrrs(t))),
                Err(e) => Err(e),
            },
        );
    }
    if eq_lit(mnem, "csrrc") {
        return Some(
            match parse_csrr(ops) {
                Ok(t) => Ok(Instruction::RVZicsr(RVZicsr::Csrrc(t))),
                Err(e) => Err(e),
            },
        );
    }
    if eq_lit(mnem, "csrrwi") {
        return Some(
            match parse_csri(ops) {
                Ok(t) => Ok(Instruction::RVZicsr(RVZicsr::Csrrwi(t))),
                Err(e) => Err(e),
            },
        );
    }
    if eq_lit(mnem, "csrrsi") {
        return Some(
            match parse_csri(ops) {
                Ok(t) => Ok(Instruction::RVZicsr(RVZicsr::Csrrsi(t))),
                Err(e) => Err(e),
            },
        );
    }
    if eq_lit(mnem, "csrrci") {
        return Some(
            match parse_csri(ops) {
                Ok(t) => Ok(Instruction::RVZicsr(RVZicsr::Csrrci(t))),
                Err(e) => Err(e),
            },
        );
    }
    None
}

} // verus!
