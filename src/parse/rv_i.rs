//! The base integer parser: loads, stores, jumps, branches, ALU operations,
//! the M extension, and the word operations of the wider profiles.
use vstd::prelude::*;
use crate::imm::Xlen;
use crate::model::{Instruction, RV32I, RV64I};
use super::forms::{
    form_b, form_j, form_jalr, form_load, form_rri, form_rrr, form_sh5, form_sh6, form_store,
        form_u, parse_b,
    parse_j, parse_jalr, parse_load, parse_rri, parse_rrr, parse_sh5, parse_sh6, parse_store,
        parse_u,
};
use crate::text::{eq_lit, views};

verus! {

/// What the base integer parser makes of a mnemonic and its operands.
/// `None` when the mnemonic is not one of this group's; `Some(None)` when its operands are rejected.
pub open spec fn base_parse(
    m: Seq<char>,
    ops: Seq<Seq<char>>,
    x: Xlen,
) -> Option<Option<Instruction>> {
    if m == "lui"@ {
        Some(
            match form_u(ops) {
                Some(t) => Some(Instruction::RV32I(RV32I::Lui(t))),
                None => None,
            },
        )
    } else if m == "auipc"@ {
        Some(
            match form_u(ops) {
                Some(t) => Some(Instruction::RV32I(RV32I::Auipc(t))),
                None => None,
            },
        )
    } else if m == "jal"@ {
        Some(
            match form_j(ops) {
                Some(t) => Some(Instruction::RV32I(RV32I::Jal(t))),
                None => None,
            },
        )
    } else if m == "jalr"@ {
        Some(
            match form_jalr(ops) {
                Some(t) => Some(Instruction::RV32I(RV32I::Jalr(t))),
                None => None,
            },
        )
    } else if m == "beq"@ {
        Some(
            match form_b(ops) {
                Some(t) => Some(Instruction::RV32I(RV32I::Beq(t))),
                None => None,
            },
        )
    } else if m == "bne"@ {
        Some(
            match form_b(ops) {
                Some(t) => Some(Instruction::RV32I(RV32I::Bne(t))),
                None => None,
            },
        )
    } else if m == "blt"@ {
        Some(
            match form_b(ops) {
                Some(t) => Some(Instruction::RV32I(RV32I::Blt(t))),
                None => None,
            },
        )
    } else if m == "bge"@ {
        Some(
            match form_b(ops) {
                Some(t) => Some(Instruction::RV32I(RV32I::Bge(t))),
                None => None,
            },
        )
    } else if m == "bltu"@ {
        Some(
            match form_b(ops) {
                Some(t) => Some(Instruction::RV32I(RV32I::Bltu(t))),
                None => None,
            },
        )
    } else if m == "bgeu"@ {
        Some(
            match form_b(ops) {
                Some(t) => Some(Instruction::RV32I(RV32I::Bgeu(t))),
                None => None,
            },
        )
    } else if m == "lb"@ {
        Some(
            match form_load(ops) {
                Some(t) => Some(Instruction::RV32I(RV32I::Lb(t))),
                None => None,
            },
        )
    } else if m == "lh"@ {
        Some(
            match form_load(ops) {
                Some(t) => Some(Instruction::RV32I(RV32I::Lh(t))),
                None => None,
            },
        )
    } else if m == "lw"@ {
        Some(
            match form_load(ops) {
                Some(t) => Some(Instruction::RV32I(RV32I::Lw(t))),
                None => None,
            },
        )
    } else if m == "lbu"@ {
        Some(
            match form_load(ops) {
                Some(t) => Some(Instruction::RV32I(RV32I::Lbu(t))),
                None => None,
            },
        )
    } else if m == "lhu"@ {
        Some(
            match form_load(ops) {
                Some(t) => Some(Instruction::RV32I(RV32I::Lhu(t))),
                None => None,
            },
        )
    } else if m == "lwu"@ {
        Some(
            match form_load(ops) {
                Some(t) => if x == Xlen::X32 {
                    None
                } else {
                    Some(Instruction::RV64I(RV64I::Lwu(t)))
                },
                None => None,
            },
        )
    } else if m == "ld"@ {
        Some(
            match form_load(ops) {
                Some(t) => if x == Xlen::X32 {
                    None
                } else {
                    Some(Instruction::RV64I(RV64I::Ld(t)))
                },
                None => None,
            },
        )
    } else if m == "sb"@ {
        Some(
            match form_store(ops) {
                Some(t) => Some(Instruction::RV32I(RV32I::Sb(t))),
                None => None,
            },
        )
    } else if m == "sh"@ {
        Some(
            match form_store(ops) {
                Some(t) => Some(Instruction::RV32I(RV32I::Sh(t))),
                None => None,
            },
        )
    } else if m == "sw"@ {
        Some(
            match form_store(ops) {
                Some(t) => Some(Instruction::RV32I(RV32I::Sw(t))),
                None => None,
            },
        )
    } else if m == "sd"@ {
        Some(
            match form_store(ops) {
                Some(t) => if x == Xlen::X32 {
                    None
                } else {
                    Some(Instruction::RV64I(RV64I::Sd(t)))
                },
                None => None,
            },
        )
    } else if m == "addi"@ {
        Some(
            match form_rri(ops) {
                Some(t) => Some(Instruction::RV32I(RV32I::Addi(t))),
                None => None,
            },
        )
    } else if m == "slti"@ {
        Some(
            match form_rri(ops) {
                Some(t) => Some(Instruction::RV32I(RV32I::Slti(t))),
                None => None,
            },
        )
    } else if m == "sltiu"@ {
        Some(
            match form_rri(ops) {
                Some(t) => Some(Instruction::RV32I(RV32I::Sltiu(t))),
                None => None,
            },
        )
    } else if m == "xori"@ {
        Some(
            match form_rri(ops) {
                Some(t) => Some(Instruction::RV32I(RV32I::Xori(t))),
                None => None,
            },
        )
    } else if m == "ori"@ {
        Some(
            match form_rri(ops) {
                Some(t) => Some(Instruction::RV32I(RV32I::Ori(t))),
                None => None,
            },
        )
    } else if m == "andi"@ {
        Some(
            match form_rri(ops) {
                Some(t) => Some(Instruction::RV32I(RV32I::Andi(t))),
                None => None,
            },
        )
    } else if m == "slli"@ {
        Some(
            if x == Xlen::X32 {
            match form_sh5(ops) {
                Some(t) => Some(Instruction::RV32I(RV32I::Slli(t))),
                None => None,
            }
        } else {
            match form_sh6(ops) {
                Some(t) => Some(Instruction::RV64I(RV64I::Slli(t))),
                None => None,
            }
        },
        )
    } else if m == "srli"@ {
        Some(
            if x == Xlen::X32 {
            match form_sh5(ops) {
                Some(t) => Some(Instruction::RV32I(RV32I::Srli(t))),
                None => None,
            }
        } else {
            match form_sh6(ops) {
                Some(t) => Some(Instruction::RV64I(RV64I::Srli(t))),
                None => None,
            }
        },
        )
    } else if m == "srai"@ {
        Some(
            if x == Xlen::X32 {
            match form_sh5(ops) {
                Some(t) => Some(Instruction::RV32I(RV32I::Srai(t))),
                None => None,
            }
        } else {
            match form_sh6(ops) {
                Some(t) => Some(Instruction::RV64I(RV64I::Srai(t))),
                None => None,
            }
        },
        )
    } else if m == "add"@ {
        Some(
            match form_rrr(ops) {
                Some(t) => Some(Instruction::RV32I(RV32I::Add(t))),
                None => None,
            },
        )
    } else if m == "sub"@ {
        Some(
            match form_rrr(ops) {
                Some(t) => Some(Instruction::RV32I(RV32I::Sub(t))),
                None => None,
            },
        )
    } else if m == "sll"@ {
        Some(
            match form_rrr(ops) {
                Some(t) => Some(Instruction::RV32I(RV32I::Sll(t))),
                None => None,
            },
        )
    } else if m == "slt"@ {
        Some(
            match form_rrr(ops) {
                Some(t) => Some(Instruction::RV32I(RV32I::Slt(t))),
                None => None,
            },
        )
    } else if m == "sltu"@ {
        Some(
            match form_rrr(ops) {
                Some(t) => Some(Instruction::RV32I(RV32I::Sltu(t))),
                None => None,
            },
        )
    } else if m == "xor"@ {
        Some(
            match form_rrr(ops) {
                Some(t) => Some(Instruction::RV32I(RV32I::Xor(t))),
                None => None,
            },
        )
    } else if m == "srl"@ {
        Some(
            match form_rrr(ops) {
                Some(t) => Some(Instruction::RV32I(RV32I::Srl(t))),
                None => None,
            },
        )
    } else if m == "sra"@ {
        Some(
            match form_rrr(ops) {
                Some(t) => Some(Instruction::RV32I(RV32I::Sra(t))),
                None => None,
            },
        )
    } else if m == "or"@ {
        Some(
            match form_rrr(ops) {
                Some(t) => Some(Instruction::RV32I(RV32I::Or(t))),
                None => None,
            },
        )
    } else if m == "and"@ {
        Some(
            match form_rrr(ops) {
                Some(t) => Some(Instruction::RV32I(RV32I::And(t))),
                None => None,
            },
        )
    } else if m == "mul"@ {
        Some(
            match form_rrr(ops) {
                Some(t) => Some(Instruction::RV32I(RV32I::Mul(t))),
                None => None,
            },
        )
    } else if m == "mulh"@ {
        Some(
            match form_rrr(ops) {
                Some(t) => Some(Instruction::RV32I(RV32I::Mulh(t))),
                None => None,
            },
        )
    } else if m == "mulhsu"@ {
        Some(
            match form_rrr(ops) {
                Some(t) => Some(Instruction::RV32I(RV32I::Mulhsu(t))),
                None => None,
            },
        )
    } else if m == "mulhu"@ {
        Some(
            match form_rrr(ops) {
                Some(t) => Some(Instruction::RV32I(RV32I::Mulhu(t))),
                None => None,
            },
        )
    } else if m == "div"@ {
        Some(
            match form_rrr(ops) {
                Some(t) => Some(Instruction::RV32I(RV32I::Div(t))),
                None => None,
            },
        )
    } else if m == "divu"@ {
        Some(
            match form_rrr(ops) {
                Some(t) => Some(Instruction::RV32I(RV32I::Divu(t))),
                None => None,
            },
        )
    } else if m == "rem"@ {
        Some(
            match form_rrr(ops) {
                Some(t) => Some(Instruction::RV32I(RV32I::Rem(t))),
                None => None,
            },
        )
    } else if m == "remu"@ {
        Some(
            match form_rrr(ops) {
                Some(t) => Some(Instruction::RV32I(RV32I::Remu(t))),
                None => None,
            },
        )
    } else if m == "addiw"@ {
        Some(
            match form_rri(ops) {
                Some(t) => if x == Xlen::X32 {
                    None
                } else {
                    Some(Instruction::RV64I(RV64I::Addiw(t)))
                },
                None => None,
            },
        )
    } else if m == "slliw"@ {
        Some(
            match form_sh5(ops) {
                Some(t) => if x == Xlen::X32 {
                    None
                } else {
                    Some(Instruction::RV64I(RV64I::Slliw(t)))
                },
                None => None,
            },
        )
    } else if m == "srliw"@ {
        Some(
            match form_sh5(ops) {
                Some(t) => if x == Xlen::X32 {
                    None
                } else {
                    Some(Instruction::RV64I(RV64I::Srliw(t)))
                },
                None => None,
            },
        )
    } else if m == "sraiw"@ {
        Some(
            match form_sh5(ops) {
                Some(t) => if x == Xlen::X32 {
                    None
                } else {
                    Some(Instruction::RV64I(RV64I::Sraiw(t)))
                },
                None => None,
            },
        )
    } else if m == "addw"@ {
        Some(
            match form_rrr(ops) {
                Some(t) => if x == Xlen::X32 {
                    None
                } else {
                    Some(Instruction::RV64I(RV64I::Addw(t)))
                },
                None => None,
            },
        )
    } else if m == "subw"@ {
        Some(
            match form_rrr(ops) {
                Some(t) => if x == Xlen::X32 {
                    None
                } else {
                    Some(Instruction::RV64I(RV64I::Subw(t)))
                },
                None => None,
            },
        )
    } else if m == "sllw"@ {
        Some(
            match form_rrr(ops) {
                Some(t) => if x == Xlen::X32 {
                    None
                } else {
                    Some(Instruction::RV64I(RV64I::Sllw(t)))
                },
                None => None,
            },
        )
    } else if m == "srlw"@ {
        Some(
            match form_rrr(ops) {
                Some(t) => if x == Xlen::X32 {
                    None
                } else {
                    Some(Instruction::RV64I(RV64I::Srlw(t)))
                },
                None => None,
            },
        )
    } else if m == "sraw"@ {
        Some(
            match form_rrr(ops) {
                Some(t) => if x == Xlen::X32 {
                    None
                } else {
                    Some(Instruction::RV64I(RV64I::Sraw(t)))
                },
                None => None,
            },
        )
    } else {
        None
    }
}

/// Parses the operands of a mnemonic of this group.
pub fn try_parse(
    mnem: &Vec<char>,
    ops: &Vec<Vec<char>>,
    xlen: Xlen,
) -> (r: Option<Result<Instruction, String>>)
    ensures
        r is None <==> base_parse(mnem@, views(ops@), xlen) is None,
        r matches Some(Ok(i)) ==> base_parse(mnem@, views(ops@), xlen) == Some(Some(i)) && i.wf(),
        r matches Some(Err(_))
            ==> base_parse(mnem@, views(ops@), xlen) == Some(None::<Instruction>),
{
    if eq_lit(mnem, "lui") {
        return Some(
            match parse_u(ops) {
                Ok(t) => Ok(Instruction::RV32I(RV32I::Lui(t))),
                Err(e) => Err(e),
            },
        );
    }
    if eq_lit(mnem, "auipc") {
        return Some(
            match parse_u(ops) {
                Ok(t) => Ok(Instruction::RV32I(RV32I::Auipc(t))),
                Err(e) => Err(e),
            },
        );
    }
    if eq_lit(mnem, "jal") {
        return Some(
            match parse_j(ops) {
                Ok(t) => Ok(Instruction::RV32I(RV32I::Jal(t))),
                Err(e) => Err(e),
            },
        );
    }
    if eq_lit(mnem, "jalr") {
        return Some(
            match parse_jalr(ops) {
                Ok(t) => Ok(Instruction::RV32I(RV32I::Jalr(t))),
                Err(e) => Err(e),
            },
        );
    }
    if eq_lit(mnem, "beq") {
        return Some(
            match parse_b(ops) {
                Ok(t) => Ok(Instruction::RV32I(RV32I::Beq(t))),
                Err(e) => Err(e),
            },
        );
    }
    if eq_lit(mnem, "bne") {
        return Some(
            match parse_b(ops) {
                Ok(t) => Ok(Instruction::RV32I(RV32I::Bne(t))),
                Err(e) => Err(e),
            },
        );
    }
    if eq_lit(mnem, "blt") {
        return Some(
            match parse_b(ops) {
                Ok(t) => Ok(Instruction::RV32I(RV32I::Blt(t))),
                Err(e) => Err(e),
            },
        );
    }
    if eq_lit(mnem, "bge") {
        return Some(
            match parse_b(ops) {
                Ok(t) => Ok(Instruction::RV32I(RV32I::Bge(t))),
                Err(e) => Err(e),
            },
        );
    }
    if eq_lit(mnem, "bltu") {
        return Some(
            match parse_b(ops) {
                Ok(t) => Ok(Instruction::RV32I(RV32I::Bltu(t))),
                Err(e) => Err(e),
            },
        );
    }
    if eq_lit(mnem, "bgeu") {
        return Some(
            match parse_b(ops) {
                Ok(t) => Ok(Instruction::RV32I(RV32I::Bgeu(t))),
                Err(e) => Err(e),
            },
        );
    }
    if eq_lit(mnem, "lb") {
        return Some(
            match parse_load(ops) {
                Ok(t) => Ok(Instruction::RV32I(RV32I::Lb(t))),
                Err(e) => Err(e),
            },
        );
    }
    if eq_lit(mnem, "lh") {
        return Some(
            match parse_load(ops) {
                Ok(t) => Ok(Instruction::RV32I(RV32I::Lh(t))),
                Err(e) => Err(e),
            },
        );
    }
    if eq_lit(mnem, "lw") {
        return Some(
            match parse_load(ops) {
                Ok(t) => Ok(Instruction::RV32I(RV32I::Lw(t))),
                Err(e) => Err(e),
            },
        );
    }
    if eq_lit(mnem, "lbu") {
        return Some(
            match parse_load(ops) {
                Ok(t) => Ok(Instruction::RV32I(RV32I::Lbu(t))),
                Err(e) => Err(e),
            },
        );
    }
    if eq_lit(mnem, "lhu") {
        return Some(
            match parse_load(ops) {
                Ok(t) => Ok(Instruction::RV32I(RV32I::Lhu(t))),
                Err(e) => Err(e),
            },
        );
    }
    if eq_lit(mnem, "lwu") {
        return Some(
            match parse_load(ops) {
                Ok(t) => if xlen == Xlen::X32 {
                    Err("lwu needs a 64- or 128-bit register width".to_owned())
                } else {
                    Ok(Instruction::RV64I(RV64I::Lwu(t)))
                },
                Err(e) => Err(e),
            },
        );
    }
    if eq_lit(mnem, "ld") {
        return Some(
            match parse_load(ops) {
                Ok(t) => if xlen == Xlen::X32 {
                    Err("ld needs a 64- or 128-bit register width".to_owned())
                } else {
                    Ok(Instruction::RV64I(RV64I::Ld(t)))
                },
                Err(e) => Err(e),
            },
        );
    }
    if eq_lit(mnem, "sb") {
        return Some(
            match parse_store(ops) {
                Ok(t) => Ok(Instruction::RV32I(RV32I::Sb(t))),
                Err(e) => Err(e),
            },
        );
    }
    if eq_lit(mnem, "sh") {
        return Some(
            match parse_store(ops) {
                Ok(t) => Ok(Instruction::RV32I(RV32I::Sh(t))),
                Err(e) => Err(e),
            },
        );
    }
    if eq_lit(mnem, "sw") {
        return Some(
            match parse_store(ops) {
                Ok(t) => Ok(Instruction::RV32I(RV32I::Sw(t))),
                Err(e) => Err(e),
            },
        );
    }
    if eq_lit(mnem, "sd") {
        return Some(
            match parse_store(ops) {
                Ok(t) => if xlen == Xlen::X32 {
                    Err("sd needs a 64- or 128-bit register width".to_owned())
                } else {
                    Ok(Instruction::RV64I(RV64I::Sd(t)))
                },
                Err(e) => Err(e),
            },
        );
    }
    if eq_lit(mnem, "addi") {
        return Some(
            match parse_rri(ops) {
                Ok(t) => Ok(Instruction::RV32I(RV32I::Addi(t))),
                Err(e) => Err(e),
            },
        );
    }
    if eq_lit(mnem, "slti") {
        return Some(
            match parse_rri(ops) {
                Ok(t) => Ok(Instruction::RV32I(RV32I::Slti(t))),
                Err(e) => Err(e),
            },
        );
    }
    if eq_lit(mnem, "sltiu") {
        return Some(
            match parse_rri(ops) {
                Ok(t) => Ok(Instruction::RV32I(RV32I::Sltiu(t))),
                Err(e) => Err(e),
            },
        );
    }
    if eq_lit(mnem, "xori") {
        return Some(
            match parse_rri(ops) {
                Ok(t) => Ok(Instruction::RV32I(RV32I::Xori(t))),
                Err(e) => Err(e),
            },
        );
    }
    if eq_lit(mnem, "ori") {
        return Some(
            match parse_rri(ops) {
                Ok(t) => Ok(Instruction::RV32I(RV32I::Ori(t))),
                Err(e) => Err(e),
            },
        );
    }
    if eq_lit(mnem, "andi") {
        return Some(
            match parse_rri(ops) {
                Ok(t) => Ok(Instruction::RV32I(RV32I::Andi(t))),
                Err(e) => Err(e),
            },
        );
    }
    if eq_lit(mnem, "slli") {
        return Some(
            if xlen == Xlen::X32 {
            match parse_sh5(ops) {
                Ok(t) => Ok(Instruction::RV32I(RV32I::Slli(t))),
                Err(e) => Err(e),
            }
        } else {
            match parse_sh6(ops) {
                Ok(t) => Ok(Instruction::RV64I(RV64I::Slli(t))),
                Err(e) => Err(e),
            }
        },
        );
    }
    if eq_lit(mnem, "srli") {
        return Some(
            if xlen == Xlen::X32 {
            match parse_sh5(ops) {
                Ok(t) => Ok(Instruction::RV32I(RV32I::Srli(t))),
                Err(e) => Err(e),
            }
        } else {
            match parse_sh6(ops) {
                Ok(t) => Ok(Instruction::RV64I(RV64I::Srli(t))),
                Err(e) => Err(e),
            }
        },
        );
    }
    if eq_lit(mnem, "srai") {
        return Some(
            if xlen == Xlen::X32 {
            match parse_sh5(ops) {
                Ok(t) => Ok(Instruction::RV32I(RV32I::Srai(t))),
                Err(e) => Err(e),
            }
        } else {
            match parse_sh6(ops) {
                Ok(t) => Ok(Instruction::RV64I(RV64I::Srai(t))),
                Err(e) => Err(e),
            }
        },
        );
    }
    if eq_lit(mnem, "add") {
        return Some(
            match parse_rrr(ops) {
                Ok(t) => Ok(Instruction::RV32I(RV32I::Add(t))),
                Err(e) => Err(e),
            },
        );
    }
    if eq_lit(mnem, "sub") {
        return Some(
            match parse_rrr(ops) {
                Ok(t) => Ok(Instruction::RV32I(RV32I::Sub(t))),
                Err(e) => Err(e),
            },
        );
    }
    if eq_lit(mnem, "sll") {
        return Some(
            match parse_rrr(ops) {
                Ok(t) => Ok(Instruction::RV32I(RV32I::Sll(t))),
                Err(e) => Err(e),
            },
        );
    }
    if eq_lit(mnem, "slt") {
        return Some(
            match parse_rrr(ops) {
                Ok(t) => Ok(Instruction::RV32I(RV32I::Slt(t))),
                Err(e) => Err(e),
            },
        );
    }
    if eq_lit(mnem, "sltu") {
        return Some(
            match parse_rrr(ops) {
                Ok(t) => Ok(Instruction::RV32I(RV32I::Sltu(t))),
                Err(e) => Err(e),
            },
        );
    }
    if eq_lit(mnem, "xor") {
        return Some(
            match parse_rrr(ops) {
                Ok(t) => Ok(Instruction::RV32I(RV32I::Xor(t))),
                Err(e) => Err(e),
            },
        );
    }
    if eq_lit(mnem, "srl") {
        return Some(
            match parse_rrr(ops) {
                Ok(t) => Ok(Instruction::RV32I(RV32I::Srl(t))),
                Err(e) => Err(e),
            },
        );
    }
    if eq_lit(mnem, "sra") {
        return Some(
            match parse_rrr(ops) {
                Ok(t) => Ok(Instruction::RV32I(RV32I::Sra(t))),
                Err(e) => Err(e),
            },
        );
    }
    if eq_lit(mnem, "or") {
        return Some(
            match parse_rrr(ops) {
                Ok(t) => Ok(Instruction::RV32I(RV32I::Or(t))),
                Err(e) => Err(e),
            },
        );
    }
    if eq_lit(mnem, "and") {
        return Some(
            match parse_rrr(ops) {
                Ok(t) => Ok(Instruction::RV32I(RV32I::And(t))),
                Err(e) => Err(e),
            },
        );
    }
    if eq_lit(mnem, "mul") {
        return Some(
            match parse_rrr(ops) {
                Ok(t) => Ok(Instruction::RV32I(RV32I::Mul(t))),
                Err(e) => Err(e),
            },
        );
    }
    if eq_lit(mnem, "mulh") {
        return Some(
            match parse_rrr(ops) {
                Ok(t) => Ok(Instruction::RV32I(RV32I::Mulh(t))),
                Err(e) => Err(e),
            },
        );
    }
    if eq_lit(mnem, "mulhsu") {
        return Some(
            match parse_rrr(ops) {
                Ok(t) => Ok(Instruction::RV32I(RV32I::Mulhsu(t))),
                Err(e) => Err(e),
            },
        );
    }
    if eq_lit(mnem, "mulhu") {
        return Some(
            match parse_rrr(ops) {
                Ok(t) => Ok(Instruction::RV32I(RV32I::Mulhu(t))),
                Err(e) => Err(e),
            },
        );
    }
    if eq_lit(mnem, "div") {
        return Some(
            match parse_rrr(ops) {
                Ok(t) => Ok(Instruction::RV32I(RV32I::Div(t))),
                Err(e) => Err(e),
            },
        );
    }
    if eq_lit(mnem, "divu") {
        return Some(
            match parse_rrr(ops) {
                Ok(t) => Ok(Instruction::RV32I(RV32I::Divu(t))),
                Err(e) => Err(e),
            },
        );
    }
    if eq_lit(mnem, "rem") {
        return Some(
            match parse_rrr(ops) {
                Ok(t) => Ok(Instruction::RV32I(RV32I::Rem(t))),
                Err(e) => Err(e),
            },
        );
    }
    if eq_lit(mnem, "remu") {
        return Some(
            match parse_rrr(ops) {
                Ok(t) => Ok(Instruction::RV32I(RV32I::Remu(t))),
                Err(e) => Err(e),
            },
        );
    }
    if eq_lit(mnem, "addiw") {
        return Some(
            match parse_rri(ops) {
                Ok(t) => if xlen == Xlen::X32 {
                    Err("addiw needs a 64- or 128-bit register width".to_owned())
                } else {
                    Ok(Instruction::RV64I(RV64I::Addiw(t)))
                },
                Err(e) => Err(e),
            },
        );
    }
    if eq_lit(mnem, "slliw") {
        return Some(
            match parse_sh5(ops) {
                Ok(t) => if xlen == Xlen::X32 {
                    Err("slliw needs a 64- or 128-bit register width".to_owned())
                } else {
                    Ok(Instruction::RV64I(RV64I::Slliw(t)))
                },
                Err(e) => Err(e),
            },
        );
    }
    if eq_lit(mnem, "srliw") {
        return Some(
            match parse_sh5(ops) {
                Ok(t) => if xlen == Xlen::X32 {
                    Err("srliw needs a 64- or 128-bit register width".to_owned())
                } else {
                    Ok(Instruction::RV64I(RV64I::Srliw(t)))
                },
                Err(e) => Err(e),
            },
        );
    }
    if eq_lit(mnem, "sraiw") {
        return Some(
            match parse_sh5(ops) {
                Ok(t) => if xlen == Xlen::X32 {
                    Err("sraiw needs a 64- or 128-bit register width".to_owned())
                } else {
                    Ok(Instruction::RV64I(RV64I::Sraiw(t)))
                },
                Err(e) => Err(e),
            },
        );
    }
    if eq_lit(mnem, "addw") {
        return Some(
            match parse_rrr(ops) {
                Ok(t) => if xlen == Xlen::X32 {
                    Err("addw needs a 64- or 128-bit register width".to_owned())
                } else {
                    Ok(Instruction::RV64I(RV64I::Addw(t)))
                },
                Err(e) => Err(e),
            },
        );
    }
    if eq_lit(mnem, "subw") {
        return Some(
            match parse_rrr(ops) {
                Ok(t) => if xlen == Xlen::X32 {
                    Err("subw needs a 64- or 128-bit register width".to_owned())
                } else {
                    Ok(Instruction::RV64I(RV64I::Subw(t)))
                },
                Err(e) => Err(e),
            },
        );
    }
    if eq_lit(mnem, "sllw") {
        return Some(
            match parse_rrr(ops) {
                Ok(t) => if xlen == Xlen::X32 {
                    Err("sllw needs a 64- or 128-bit register width".to_owned())
                } else {
                    Ok(Instruction::RV64I(RV64I::Sllw(t)))
                },
                Err(e) => Err(e),
            },
        );
    }
    if eq_lit(mnem, "srlw") {
        return Some(
            match parse_rrr(ops) {
                Ok(t) => if xlen == Xlen::X32 {
                    Err("srlw needs a 64- or 128-bit register width".to_owned())
                } else {
                    Ok(Instruction::RV64I(RV64I::Srlw(t)))
                },
                Err(e) => Err(e),
            },
        );
    }
    if eq_lit(mnem, "sraw") {
        return Some(
            match parse_rrr(ops) {
                Ok(t) => if xlen == Xlen::X32 {
                    Err("sraw needs a 64- or 128-bit register width".to_owned())
                } else {
                    Ok(Instruction::RV64I(RV64I::Sraw(t)))
                },
                Err(e) => Err(e),
            },
        );
    }
    None
}

} // verus!
