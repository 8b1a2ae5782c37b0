//! The compressed-instruction parser. Register classes and alignment are
//! left to the encoder; sp-relative forms must name sp as their base.
use vstd::prelude::*;
use crate::imm::Xlen;
use crate::model::{Instruction, RVC};
use super::forms::{
    form_ca, form_cb, form_ci, form_ci16, form_cisp, form_cj, form_cl, form_cr1, form_cr2, form_cs,
    form_cshift, form_css, form_ciw, form_none, parse_ca, parse_cb, parse_ci, parse_ci16,
        parse_cisp,
    parse_cj, parse_cl, parse_cr1, parse_cr2, parse_cs, parse_cshift, parse_css, parse_ciw,
        parse_none,
};
use crate::text::{eq_lit, views};

verus! {

/// What the compressed parser makes of a mnemonic and its operands.
/// `None` when the mnemonic is not one of this group's; `Some(None)` when its operands are rejected.
pub open spec fn rvc_parse(
    m: Seq<char>,
    ops: Seq<Seq<char>>,
    x: Xlen,
) -> Option<Option<Instruction>> {
    if m == "c.addi4spn"@ {
        Some(
            match form_ciw(ops) {
                Some(t) => Some(Instruction::RVC(RVC::Caddi4spn(t))),
                None => None,
            },
        )
    } else if m == "c.j"@ {
        Some(
            match form_cj(ops) {
                Some(t) => Some(Instruction::RVC(RVC::Cj(t))),
                None => None,
            },
        )
    } else if m == "c.jal"@ {
        Some(
            match form_cj(ops) {
                Some(t) => if x != Xlen::X32 {
                    None
                } else {
                    Some(Instruction::RVC(RVC::Cjal(t)))
                },
                None => None,
            },
        )
    } else if m == "c.beqz"@ {
        Some(
            match form_cb(ops) {
                Some(t) => Some(Instruction::RVC(RVC::Cbeqz(t))),
                None => None,
            },
        )
    } else if m == "c.bnez"@ {
        Some(
            match form_cb(ops) {
                Some(t) => Some(Instruction::RVC(RVC::Cbnez(t))),
                None => None,
            },
        )
    } else if m == "c.addi"@ {
        Some(
            match form_ci(ops) {
                Some(t) => Some(Instruction::RVC(RVC::Caddi(t))),
                None => None,
            },
        )
    } else if m == "c.addi16sp"@ {
        Some(
            match form_ci16(ops) {
                Some(t) => Some(Instruction::RVC(RVC::Caddi16sp(t))),
                None => None,
            },
        )
    } else if m == "c.addiw"@ {
        Some(
            match form_ci(ops) {
                Some(t) => if x == Xlen::X32 {
                    None
                } else {
                    Some(Instruction::RVC(RVC::Caddiw(t)))
                },
                None => None,
            },
        )
    } else if m == "c.slli"@ {
        Some(
            match form_cshift(ops) {
                Some(t) => Some(Instruction::RVC(RVC::Cslli(t))),
                None => None,
            },
        )
    } else if m == "c.srli"@ {
        Some(
            match form_cshift(ops) {
                Some(t) => Some(Instruction::RVC(RVC::Csrli(t))),
                None => None,
            },
        )
    } else if m == "c.srai"@ {
        Some(
            match form_cshift(ops) {
                Some(t) => Some(Instruction::RVC(RVC::Csrai(t))),
                None => None,
            },
        )
    } else if m == "c.andi"@ {
        Some(
            match form_ci(ops) {
                Some(t) => Some(Instruction::RVC(RVC::Candi(t))),
                None => None,
            },
        )
    } else if m == "c.sub"@ {
        Some(
            match form_ca(ops) {
                Some(t) => Some(Instruction::RVC(RVC::Csub(t))),
                None => None,
            },
        )
    } else if m == "c.xor"@ {
        Some(
            match form_ca(ops) {
                Some(t) => Some(Instruction::RVC(RVC::Cxor(t))),
                None => None,
            },
        )
    } else if m == "c.or"@ {
        Some(
            match form_ca(ops) {
                Some(t) => Some(Instruction::RVC(RVC::Cor(t))),
                None => None,
            },
        )
    } else if m == "c.and"@ {
        Some(
            match form_ca(ops) {
                Some(t) => Some(Instruction::RVC(RVC::Cand(t))),
                None => None,
            },
        )
    } else if m == "c.subw"@ {
        Some(
            match form_ca(ops) {
                Some(t) => if x == Xlen::X32 {
                    None
                } else {
                    Some(Instruction::RVC(RVC::Csubw(t)))
                },
                None => None,
            },
        )
    } else if m == "c.addw"@ {
        Some(
            match form_ca(ops) {
                Some(t) => if x == Xlen::X32 {
                    None
                } else {
                    Some(Instruction::RVC(RVC::Caddw(t)))
                },
                None => None,
            },
        )
    } else if m == "c.mv"@ {
        Some(
            match form_cr2(ops) {
                Some(t) => Some(Instruction::RVC(RVC::Cmv(t))),
                None => None,
            },
        )
    } else if m == "c.add"@ {
        Some(
            match form_cr2(ops) {
                Some(t) => Some(Instruction::RVC(RVC::Cadd(t))),
                None => None,
            },
        )
    } else if m == "c.jr"@ {
        Some(
            match form_cr1(ops) {
                Some(t) => Some(Instruction::RVC(RVC::Cjr(t))),
                None => None,
            },
        )
    } else if m == "c.jalr"@ {
        Some(
            match form_cr1(ops) {
                Some(t) => Some(Instruction::RVC(RVC::Cjalr(t))),
                None => None,
            },
        )
    } else if m == "c.li"@ {
        Some(
            match form_ci(ops) {
                Some(t) => Some(Instruction::RVC(RVC::Cli(t))),
                None => None,
            },
        )
    } else if m == "c.nop"@ {
        Some(
            match form_none(ops) {
                Some(t) => Some(Instruction::RVC(RVC::Cnop(t))),
                None => None,
            },
        )
    } else if m == "c.lw"@ {
        Some(
            match form_cl(ops) {
                Some(t) => Some(Instruction::RVC(RVC::Clw(t))),
                None => None,
            },
        )
    } else if m == "c.sw"@ {
        Some(
            match form_cs(ops) {
                Some(t) => Some(Instruction::RVC(RVC::Csw(t))),
                None => None,
            },
        )
    } else if m == "c.lwsp"@ {
        Some(
            match form_cisp(ops) {
                Some(t) => Some(Instruction::RVC(RVC::Clwsp(t))),
                None => None,
            },
        )
    } else if m == "c.swsp"@ {
        Some(
            match form_css(ops) {
                Some(t) => Some(Instruction::RVC(RVC::Cswsp(t))),
                None => None,
            },
        )
    } else if m == "c.ld"@ {
        Some(
            match form_cl(ops) {
                Some(t) => if x == Xlen::X32 {
                    None
                } else {
                    Some(Instruction::RVC(RVC::Cld(t)))
                },
                None => None,
            },
        )
    } else if m == "c.sd"@ {
        Some(
            match form_cs(ops) {
                Some(t) => if x == Xlen::X32 {
                    None
                } else {
                    Some(Instruction::RVC(RVC::Csd(t)))
                },
                None => None,
            },
        )
    } else if m == "c.ldsp"@ {
        Some(
            match form_cisp(ops) {
                Some(t) => if x == Xlen::X32 {
                    None
                } else {
                    Some(Instruction::RVC(RVC::Cldsp(t)))
                },
                None => None,
            },
        )
    } else if m == "c.sdsp"@ {
        Some(
            match form_css(ops) {
                Some(t) => if x == Xlen::X32 {
                    None
                } else {
                    Some(Instruction::RVC(RVC::Csdsp(t)))
                },
                None => None,
            },
        )
    } else {
        None
    }
}

/// Parses the operands of a mnemonic of this group.
pub fn try_parse(
    mnem: &Vec<char>,
    ops: &Vec<Vec<char>>,
    xlen: Xlen,
) -> (r: Option<Result<Instruction, String>>)
    ensures
        r is None <==> rvc_parse(mnem@, views(ops@), xlen) is None,
        r matches Some(Ok(i)) ==> rvc_parse(mnem@, views(ops@), xlen) == Some(Some(i)) && i.wf(),
        r matches Some(Err(_)) ==> rvc_parse(mnem@, views(ops@), xlen) == Some(None::<Instruction>),
{
    if eq_lit(mnem, "c.addi4spn") {
        return Some(
            match parse_ciw(ops) {
                Ok(t) => Ok(Instruction::RVC(RVC::Caddi4spn(t))),
                Err(e) => Err(e),
            },
        );
    }
    if eq_lit(mnem, "c.j") {
        return Some(
            match parse_cj(ops) {
                Ok(t) => Ok(Instruction::RVC(RVC::Cj(t))),
                Err(e) => Err(e),
            },
        );
    }
    if eq_lit(mnem, "c.jal") {
        return Some(
            match parse_cj(ops) {
                Ok(t) => if xlen != Xlen::X32 {
                    Err("c.jal exists only at a 32-bit register width".to_owned())
                } else {
                    Ok(Instruction::RVC(RVC::Cjal(t)))
                },
                Err(e) => Err(e),
            },
        );
    }
    if eq_lit(mnem, "c.beqz") {
        return Some(
            match parse_cb(ops) {
                Ok(t) => Ok(Instruction::RVC(RVC::Cbeqz(t))),
                Err(e) => Err(e),
            },
        );
    }
    if eq_lit(mnem, "c.bnez") {
        return Some(
            match parse_cb(ops) {
                Ok(t) => Ok(Instruction::RVC(RVC::Cbnez(t))),
                Err(e) => Err(e),
            },
        );
    }
    if eq_lit(mnem, "c.addi") {
        return Some(
            match parse_ci(ops) {
                Ok(t) => Ok(Instruction::RVC(RVC::Caddi(t))),
                Err(e) => Err(e),
            },
        );
    }
    if eq_lit(mnem, "c.addi16sp") {
        return Some(
            match parse_ci16(ops) {
                Ok(t) => Ok(Instruction::RVC(RVC::Caddi16sp(t))),
                Err(e) => Err(e),
            },
        );
    }
    if eq_lit(mnem, "c.addiw") {
        return Some(
            match parse_ci(ops) {
                Ok(t) => if xlen == Xlen::X32 {
                    Err("c.addiw needs a 64- or 128-bit register width".to_owned())
                } else {
                    Ok(Instruction::RVC(RVC::Caddiw(t)))
                },
                Err(e) => Err(e),
            },
        );
    }
    if eq_lit(mnem, "c.slli") {
        return Some(
            match parse_cshift(ops) {
                Ok(t) => Ok(Instruction::RVC(RVC::Cslli(t))),
                Err(e) => Err(e),
            },
        );
    }
    if eq_lit(mnem, "c.srli") {
        return Some(
            match parse_cshift(ops) {
                Ok(t) => Ok(Instruction::RVC(RVC::Csrli(t))),
                Err(e) => Err(e),
            },
        );
    }
    if eq_lit(mnem, "c.srai") {
        return Some(
            match parse_cshift(ops) {
                Ok(t) => Ok(Instruction::RVC(RVC::Csrai(t))),
                Err(e) => Err(e),
            },
        );
    }
    if eq_lit(mnem, "c.andi") {
        return Some(
            match parse_ci(ops) {
                Ok(t) => Ok(Instruction::RVC(RVC::Candi(t))),
                Err(e) => Err(e),
            },
        );
    }
    if eq_lit(mnem, "c.sub") {
        return Some(
            match parse_ca(ops) {
                Ok(t) => Ok(Instruction::RVC(RVC::Csub(t))),
                Err(e) => Err(e),
            },
        );
    }
    if eq_lit(mnem, "c.xor") {
        return Some(
            match parse_ca(ops) {
                Ok(t) => Ok(Instruction::RVC(RVC::Cxor(t))),
                Err(e) => Err(e),
            },
        );
    }
    if eq_lit(mnem, "c.or") {
        return Some(
            match parse_ca(ops) {
                Ok(t) => Ok(Instruction::RVC(RVC::Cor(t))),
                Err(e) => Err(e),
            },
        );
    }
    if eq_lit(mnem, "c.and") {
        return Some(
            match parse_ca(ops) {
                Ok(t) => Ok(Instruction::RVC(RVC::Cand(t))),
                Err(e) => Err(e),
            },
        );
    }
    if eq_lit(mnem, "c.subw") {
        return Some(
            match parse_ca(ops) {
                Ok(t) => if xlen == Xlen::X32 {
                    Err("c.subw needs a 64- or 128-bit register width".to_owned())
                } else {
                    Ok(Instruction::RVC(RVC::Csubw(t)))
                },
                Err(e) => Err(e),
            },
        );
    }
    if eq_lit(mnem, "c.addw") {
        return Some(
            match parse_ca(ops) {
                Ok(t) => if xlen == Xlen::X32 {
                    Err("c.addw needs a 64- or 128-bit register width".to_owned())
                } else {
                    Ok(Instruction::RVC(RVC::Caddw(t)))
                },
                Err(e) => Err(e),
            },
        );
    }
    if eq_lit(mnem, "c.mv") {
        return Some(
            match parse_cr2(ops) {
                Ok(t) => Ok(Instruction::RVC(RVC::Cmv(t))),
                Err(e) => Err(e),
            },
        );
    }
    if eq_lit(mnem, "c.add") {
        return Some(
            match parse_cr2(ops) {
                Ok(t) => Ok(Instruction::RVC(RVC::Cadd(t))),
                Err(e) => Err(e),
            },
        );
    }
    if eq_lit(mnem, "c.jr") {
        return Some(
            match parse_cr1(ops) {
                Ok(t) => Ok(Instruction::RVC(RVC::Cjr(t))),
                Err(e) => Err(e),
            },
        );
    }
    if eq_lit(mnem, "c.jalr") {
        return Some(
            match parse_cr1(ops) {
                Ok(t) => Ok(Instruction::RVC(RVC::Cjalr(t))),
                Err(e) => Err(e),
            },
        );
    }
    if eq_lit(mnem, "c.li") {
        return Some(
            match parse_ci(ops) {
                Ok(t) => Ok(Instruction::RVC(RVC::Cli(t))),
                Err(e) => Err(e),
            },
        );
    }
    if eq_lit(mnem, "c.nop") {
        return Some(
            match parse_none(ops) {
                Ok(t) => Ok(Instruction::RVC(RVC::Cnop(t))),
                Err(e) => Err(e),
            },
        );
    }
    if eq_lit(mnem, "c.lw") {
        return Some(
            match parse_cl(ops) {
                Ok(t) => Ok(Instruction::RVC(RVC::Clw(t))),
                Err(e) => Err(e),
            },
        );
    }
    if eq_lit(mnem, "c.sw") {
        return Some(
            match parse_cs(ops) {
                Ok(t) => Ok(Instruction::RVC(RVC::Csw(t))),
                Err(e) => Err(e),
            },
        );
    }
    if eq_lit(mnem, "c.lwsp") {
        return Some(
            match parse_cisp(ops) {
                Ok(t) => Ok(Instruction::RVC(RVC::Clwsp(t))),
                Err(e) => Err(e),
            },
        );
    }
    if eq_lit(mnem, "c.swsp") {
        return Some(
            match parse_css(ops) {
                Ok(t) => Ok(Instruction::RVC(RVC::Cswsp(t))),
                Err(e) => Err(e),
            },
        );
    }
    if eq_lit(mnem, "c.ld") {
        return Some(
            match parse_cl(ops) {
                Ok(t) => if xlen == Xlen::X32 {
                    Err("c.ld needs a 64- or 128-bit register width".to_owned())
                } else {
                    Ok(Instruction::RVC(RVC::Cld(t)))
                },
                Err(e) => Err(e),
            },
        );
    }
    if eq_lit(mnem, "c.sd") {
        return Some(
            match parse_cs(ops) {
                Ok(t) => if xlen == Xlen::X32 {
                    Err("c.sd needs a 64- or 128-bit register width".to_owned())
                } else {
                    Ok(Instruction::RVC(RVC::Csd(t)))
                },
                Err(e) => Err(e),
            },
        );
    }
    if eq_lit(mnem, "c.ldsp") {
        return Some(
            match parse_cisp(ops) {
                Ok(t) => if xlen == Xlen::X32 {
                    Err("c.ldsp needs a 64- or 128-bit register width".to_owned())
                } else {
                    Ok(Instruction::RVC(RVC::Cldsp(t)))
                },
                Err(e) => Err(e),
            },
        );
    }
    if eq_lit(mnem, "c.sdsp") {
        return Some(
            match parse_css(ops) {
                Ok(t) => if xlen == Xlen::X32 {
                    Err("c.sdsp needs a 64- or 128-bit register width".to_owned())
                } else {
                    Ok(Instruction::RVC(RVC::Csdsp(t)))
                },
                Err(e) => Err(e),
            },
        );
    }
    None
}

} // verus!
