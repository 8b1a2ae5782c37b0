//! The system parser: environment calls and fences, whose operands (such as a
//! fence's ordering sets) carry nothing the encoding keeps.
use vstd::prelude::*;
use crate::model::{Instruction, RV32I};
use crate::text::eq_lit;

verus! {

/// The fixed-encoding instruction a mnemonic names, if any.
pub open spec fn system_parse(m: Seq<char>) -> Option<Instruction> {
    if m == "ecall"@ {
        Some(Instruction::RV32I(RV32I::Ecall))
    } else if m == "ebreak"@ {
        Some(Instruction::RV32I(RV32I::Ebreak))
    } else if m == "fence"@ {
        Some(Instruction::RV32I(RV32I::Fence))
    } else if m == "fence.i"@ || m == "fencei"@ {
        Some(Instruction::RV32I(RV32I::FenceI))
    } else {
        None
    }
}

pub fn try_parse(mnem: &Vec<char>) -> (r: Option<Instruction>)
    ensures
        r == system_parse(mnem@),
        r matches Some(i) ==> i.wf(),
{
    if eq_lit(mnem, "ecall") {
        Some(Instruction::RV32I(RV32I::Ecall))
    } else if eq_lit(mnem, "ebreak") {
        Some(Instruction::RV32I(RV32I::Ebreak))
    } else if eq_lit(mnem, "fence") {
        Some(Instruction::RV32I(RV32I::Fence))
    } else if eq_lit(mnem, "fence.i") || eq_lit(mnem, "fencei") {
        Some(Instruction::RV32I(RV32I::FenceI))
    } else {
        None
    }
}

} // verus!
