//! Single-precision floating-point instructions.
use vstd::prelude::*;
use super::{
    IType, R4Type, RType, SType, fmt2, fmt3, fmt4, mem, reg_name, put2, put3, put4, reg, mem_op,
};
use crate::text::{sdec, sdec_string};

verus! {

/// Loads, stores, arithmetic, comparisons, conversions and moves of single-precision values.
#[derive(Debug, Clone, Copy, PartialEq, Eq, Structural)]
pub enum RVF {
    Flw(IType),
    Fsw(SType),
    Fmadds(R4Type),
    Fmsubs(R4Type),
    Fnmsubs(R4Type),
    Fnmadds(R4Type),
    Fadds(RType),
    Fsubs(RType),
    Fmuls(RType),
    Fdivs(RType),
    Fsqrts(RType),
    Fmins(RType),
    Fmaxs(RType),
    Fsgnjs(RType),
    Fsgnjns(RType),
    Fsgnjxs(RType),
    Feqs(RType),
    Flts(RType),
    Fles(RType),
    Fcvtws(RType),
    Fcvtwus(RType),
    Fcvtls(RType),
    Fcvtlus(RType),
    Fcvtsw(RType),
    Fcvtswu(RType),
    Fcvtsl(RType),
    Fcvtslu(RType),
    Fmvxw(RType),
    Fclasss(RType),
    Fmvwx(RType),
}

impl RVF {
    /// The mnemonic, as it opens the disassembly text.
    pub open spec fn mnemonic(self) -> Seq<char> {
        match self {
            RVF::Flw(_) => "flw"@,
            RVF::Fsw(_) => "fsw"@,
            RVF::Fmadds(_) => "fmadd.s"@,
            RVF::Fmsubs(_) => "fmsub.s"@,
            RVF::Fnmsubs(_) => "fnmsub.s"@,
            RVF::Fnmadds(_) => "fnmadd.s"@,
            RVF::Fadds(_) => "fadd.s"@,
            RVF::Fsubs(_) => "fsub.s"@,
            RVF::Fmuls(_) => "fmul.s"@,
            RVF::Fdivs(_) => "fdiv.s"@,
            RVF::Fsqrts(_) => "fsqrt.s"@,
            RVF::Fmins(_) => "fmin.s"@,
            RVF::Fmaxs(_) => "fmax.s"@,
            RVF::Fsgnjs(_) => "fsgnj.s"@,
            RVF::Fsgnjns(_) => "fsgnjn.s"@,
            RVF::Fsgnjxs(_) => "fsgnjx.s"@,
            RVF::Feqs(_) => "feq.s"@,
            RVF::Flts(_) => "flt.s"@,
            RVF::Fles(_) => "fle.s"@,
            RVF::Fcvtws(_) => "fcvt.w.s"@,
            RVF::Fcvtwus(_) => "fcvt.wu.s"@,
            RVF::Fcvtls(_) => "fcvt.l.s"@,
            RVF::Fcvtlus(_) => "fcvt.lu.s"@,
            RVF::Fcvtsw(_) => "fcvt.s.w"@,
            RVF::Fcvtswu(_) => "fcvt.s.wu"@,
            RVF::Fcvtsl(_) => "fcvt.s.l"@,
            RVF::Fcvtslu(_) => "fcvt.s.lu"@,
            RVF::Fmvxw(_) => "fmv.x.w"@,
            RVF::Fclasss(_) => "fclass.s"@,
            RVF::Fmvwx(_) => "fmv.w.x"@,
        }
    }

    /// Every field of the carried record is within its width.
    pub open spec fn wf(self) -> bool {
        match self {
            RVF::Flw(t) => t.wf(),
            RVF::Fsw(t) => t.wf(),
            RVF::Fmadds(t) => t.wf(),
            RVF::Fmsubs(t) => t.wf(),
            RVF::Fnmsubs(t) => t.wf(),
            RVF::Fnmadds(t) => t.wf(),
            RVF::Fadds(t) => t.wf(),
            RVF::Fsubs(t) => t.wf(),
            RVF::Fmuls(t) => t.wf(),
            RVF::Fdivs(t) => t.wf(),
            RVF::Fsqrts(t) => t.wf(),
            RVF::Fmins(t) => t.wf(),
            RVF::Fmaxs(t) => t.wf(),
            RVF::Fsgnjs(t) => t.wf(),
            RVF::Fsgnjns(t) => t.wf(),
            RVF::Fsgnjxs(t) => t.wf(),
            RVF::Feqs(t) => t.wf(),
            RVF::Flts(t) => t.wf(),
            RVF::Fles(t) => t.wf(),
            RVF::Fcvtws(t) => t.wf(),
            RVF::Fcvtwus(t) => t.wf(),
            RVF::Fcvtls(t) => t.wf(),
            RVF::Fcvtlus(t) => t.wf(),
            RVF::Fcvtsw(t) => t.wf(),
            RVF::Fcvtswu(t) => t.wf(),
            RVF::Fcvtsl(t) => t.wf(),
            RVF::Fcvtslu(t) => t.wf(),
            RVF::Fmvxw(t) => t.wf(),
            RVF::Fclasss(t) => t.wf(),
            RVF::Fmvwx(t) => t.wf(),
        }
    }

    /// The disassembly text: mnemonic, then the operands in assembler order.
    pub open spec fn text(self) -> Seq<char> {
        match self {
            RVF::Flw(t) => fmt2("flw"@, reg_name(t.rd), mem(sdec(t.imm.value()), t.rs1)),
            RVF::Fsw(t) => fmt2("fsw"@, reg_name(t.rs2), mem(sdec(t.imm.value()), t.rs1)),
            RVF::Fmadds(t) => fmt4("fmadd.s"@, reg_name(t.rd), reg_name(t.rs1), reg_name(t.rs2), reg_name(t.rs3)),
            RVF::Fmsubs(t) => fmt4("fmsub.s"@, reg_name(t.rd), reg_name(t.rs1), reg_name(t.rs2), reg_name(t.rs3)),
            RVF::Fnmsubs(t) => fmt4("fnmsub.s"@, reg_name(t.rd), reg_name(t.rs1), reg_name(t.rs2), reg_name(t.rs3)),
            RVF::Fnmadds(t) => fmt4("fnmadd.s"@, reg_name(t.rd), reg_name(t.rs1), reg_name(t.rs2), reg_name(t.rs3)),
            RVF::Fadds(t) => fmt3("fadd.s"@, reg_name(t.rd), reg_name(t.rs1), reg_name(t.rs2)),
            RVF::Fsubs(t) => fmt3("fsub.s"@, reg_name(t.rd), reg_name(t.rs1), reg_name(t.rs2)),
            RVF::Fmuls(t) => fmt3("fmul.s"@, reg_name(t.rd), reg_name(t.rs1), reg_name(t.rs2)),
            RVF::Fdivs(t) => fmt3("fdiv.s"@, reg_name(t.rd), reg_name(t.rs1), reg_name(t.rs2)),
            RVF::Fsqrts(t) => fmt2("fsqrt.s"@, reg_name(t.rd), reg_name(t.rs1)),
            RVF::Fmins(t) => fmt3("fmin.s"@, reg_name(t.rd), reg_name(t.rs1), reg_name(t.rs2)),
            RVF::Fmaxs(t) => fmt3("fmax.s"@, reg_name(t.rd), reg_name(t.rs1), reg_name(t.rs2)),
            RVF::Fsgnjs(t) => fmt3("fsgnj.s"@, reg_name(t.rd), reg_name(t.rs1), reg_name(t.rs2)),
            RVF::Fsgnjns(t) => fmt3("fsgnjn.s"@, reg_name(t.rd), reg_name(t.rs1), reg_name(t.rs2)),
            RVF::Fsgnjxs(t) => fmt3("fsgnjx.s"@, reg_name(t.rd), reg_name(t.rs1), reg_name(t.rs2)),
            RVF::Feqs(t) => fmt3("feq.s"@, reg_name(t.rd), reg_name(t.rs1), reg_name(t.rs2)),
            RVF::Flts(t) => fmt3("flt.s"@, reg_name(t.rd), reg_name(t.rs1), reg_name(t.rs2)),
            RVF::Fles(t) => fmt3("fle.s"@, reg_name(t.rd), reg_name(t.rs1), reg_name(t.rs2)),
            RVF::Fcvtws(t) => fmt2("fcvt.w.s"@, reg_name(t.rd), reg_name(t.rs1)),
            RVF::Fcvtwus(t) => fmt2("fcvt.wu.s"@, reg_name(t.rd), reg_name(t.rs1)),
            RVF::Fcvtls(t) => fmt2("fcvt.l.s"@, reg_name(t.rd), reg_name(t.rs1)),
            RVF::Fcvtlus(t) => fmt2("fcvt.lu.s"@, reg_name(t.rd), reg_name(t.rs1)),
            RVF::Fcvtsw(t) => fmt2("fcvt.s.w"@, reg_name(t.rd), reg_name(t.rs1)),
            RVF::Fcvtswu(t) => fmt2("fcvt.s.wu"@, reg_name(t.rd), reg_name(t.rs1)),
            RVF::Fcvtsl(t) => fmt2("fcvt.s.l"@, reg_name(t.rd), reg_name(t.rs1)),
            RVF::Fcvtslu(t) => fmt2("fcvt.s.lu"@, reg_name(t.rd), reg_name(t.rs1)),
            RVF::Fmvxw(t) => fmt2("fmv.x.w"@, reg_name(t.rd), reg_name(t.rs1)),
            RVF::Fclasss(t) => fmt2("fclass.s"@, reg_name(t.rd), reg_name(t.rs1)),
            RVF::Fmvwx(t) => fmt2("fmv.w.x"@, reg_name(t.rd), reg_name(t.rs1)),
        }
    }

    /// Renders the instruction as text.
    pub fn to_string(&self) -> (r: String)
        requires
            self.wf(),
        ensures
            r@ == self.text(),
    {
        match self {
            RVF::Flw(t) => put2("flw", reg(t.rd), mem_op(sdec_string(t.imm.signed()), t.rs1)),
            RVF::Fsw(t) => put2("fsw", reg(t.rs2), mem_op(sdec_string(t.imm.signed()), t.rs1)),
            RVF::Fmadds(t) => put4("fmadd.s", reg(t.rd), reg(t.rs1), reg(t.rs2), reg(t.rs3)),
            RVF::Fmsubs(t) => put4("fmsub.s", reg(t.rd), reg(t.rs1), reg(t.rs2), reg(t.rs3)),
            RVF::Fnmsubs(t) => put4("fnmsub.s", reg(t.rd), reg(t.rs1), reg(t.rs2), reg(t.rs3)),
            RVF::Fnmadds(t) => put4("fnmadd.s", reg(t.rd), reg(t.rs1), reg(t.rs2), reg(t.rs3)),
            RVF::Fadds(t) => put3("fadd.s", reg(t.rd), reg(t.rs1), reg(t.rs2)),
            RVF::Fsubs(t) => put3("fsub.s", reg(t.rd), reg(t.rs1), reg(t.rs2)),
            RVF::Fmuls(t) => put3("fmul.s", reg(t.rd), reg(t.rs1), reg(t.rs2)),
            RVF::Fdivs(t) => put3("fdiv.s", reg(t.rd), reg(t.rs1), reg(t.rs2)),
            RVF::Fsqrts(t) => put2("fsqrt.s", reg(t.rd), reg(t.rs1)),
            RVF::Fmins(t) => put3("fmin.s", reg(t.rd), reg(t.rs1), reg(t.rs2)),
            RVF::Fmaxs(t) => put3("fmax.s", reg(t.rd), reg(t.rs1), reg(t.rs2)),
            RVF::Fsgnjs(t) => put3("fsgnj.s", reg(t.rd), reg(t.rs1), reg(t.rs2)),
            RVF::Fsgnjns(t) => put3("fsgnjn.s", reg(t.rd), reg(t.rs1), reg(t.rs2)),
            RVF::Fsgnjxs(t) => put3("fsgnjx.s", reg(t.rd), reg(t.rs1), reg(t.rs2)),
            RVF::Feqs(t) => put3("feq.s", reg(t.rd), reg(t.rs1), reg(t.rs2)),
            RVF::Flts(t) => put3("flt.s", reg(t.rd), reg(t.rs1), reg(t.rs2)),
            RVF::Fles(t) => put3("fle.s", reg(t.rd), reg(t.rs1), reg(t.rs2)),
            RVF::Fcvtws(t) => put2("fcvt.w.s", reg(t.rd), reg(t.rs1)),
            RVF::Fcvtwus(t) => put2("fcvt.wu.s", reg(t.rd), reg(t.rs1)),
            RVF::Fcvtls(t) => put2("fcvt.l.s", reg(t.rd), reg(t.rs1)),
            RVF::Fcvtlus(t) => put2("fcvt.lu.s", reg(t.rd), reg(t.rs1)),
            RVF::Fcvtsw(t) => put2("fcvt.s.w", reg(t.rd), reg(t.rs1)),
            RVF::Fcvtswu(t) => put2("fcvt.s.wu", reg(t.rd), reg(t.rs1)),
            RVF::Fcvtsl(t) => put2("fcvt.s.l", reg(t.rd), reg(t.rs1)),
            RVF::Fcvtslu(t) => put2("fcvt.s.lu", reg(t.rd), reg(t.rs1)),
            RVF::Fmvxw(t) => put2("fmv.x.w", reg(t.rd), reg(t.rs1)),
            RVF::Fclasss(t) => put2("fclass.s", reg(t.rd), reg(t.rs1)),
            RVF::Fmvwx(t) => put2("fmv.w.x", reg(t.rd), reg(t.rs1)),
        }
    }
}

} // verus!
