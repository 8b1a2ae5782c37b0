//! The atomic extension at its three widths: load-reserved, store-conditional
//! and the read-modify-write memory operations.
use vstd::prelude::*;
use super::{RType, fmt2, fmt3, paren, reg_name, put2, put3, reg, paren_op};

verus! {

/// Atomic word (32-bit) operations.
#[derive(Debug, Clone, Copy, PartialEq, Eq, Structural)]
pub enum RV32A {
    Lrw(RType),
    Scw(RType),
    Amoswapw(RType),
    Amoaddw(RType),
    Amoxorw(RType),
    Amoandw(RType),
    Amoorw(RType),
    Amominw(RType),
    Amomaxw(RType),
    Amominuw(RType),
    Amomaxuw(RType),
}

impl RV32A {
    /// The mnemonic, as it opens the disassembly text.
    pub open spec fn mnemonic(self) -> Seq<char> {
        match self {
            RV32A::Lrw(_) => "lr.w"@,
            RV32A::Scw(_) => "sc.w"@,
            RV32A::Amoswapw(_) => "amoswap.w"@,
            RV32A::Amoaddw(_) => "amoadd.w"@,
            RV32A::Amoxorw(_) => "amoxor.w"@,
            RV32A::Amoandw(_) => "amoand.w"@,
            RV32A::Amoorw(_) => "amoor.w"@,
            RV32A::Amominw(_) => "amomin.w"@,
            RV32A::Amomaxw(_) => "amomax.w"@,
            RV32A::Amominuw(_) => "amominu.w"@,
            RV32A::Amomaxuw(_) => "amomaxu.w"@,
        }
    }

    /// Every field of the carried record is within its width.
    pub open spec fn wf(self) -> bool {
        match self {
            RV32A::Lrw(t) => t.wf(),
            RV32A::Scw(t) => t.wf(),
            RV32A::Amoswapw(t) => t.wf(),
            RV32A::Amoaddw(t) => t.wf(),
            RV32A::Amoxorw(t) => t.wf(),
            RV32A::Amoandw(t) => t.wf(),
            RV32A::Amoorw(t) => t.wf(),
            RV32A::Amominw(t) => t.wf(),
            RV32A::Amomaxw(t) => t.wf(),
            RV32A::Amominuw(t) => t.wf(),
            RV32A::Amomaxuw(t) => t.wf(),
        }
    }

    /// The disassembly text: mnemonic, then the operands in assembler order.
    pub open spec fn text(self) -> Seq<char> {
        match self {
            RV32A::Lrw(t) => fmt2("lr.w"@, reg_name(t.rd), paren(t.rs1)),
            RV32A::Scw(t) => fmt3("sc.w"@, reg_name(t.rd), reg_name(t.rs2), paren(t.rs1)),
            RV32A::Amoswapw(t) => fmt3("amoswap.w"@, reg_name(t.rd), reg_name(t.rs2), paren(t.rs1)),
            RV32A::Amoaddw(t) => fmt3("amoadd.w"@, reg_name(t.rd), reg_name(t.rs2), paren(t.rs1)),
            RV32A::Amoxorw(t) => fmt3("amoxor.w"@, reg_name(t.rd), reg_name(t.rs2), paren(t.rs1)),
            RV32A::Amoandw(t) => fmt3("amoand.w"@, reg_name(t.rd), reg_name(t.rs2), paren(t.rs1)),
            RV32A::Amoorw(t) => fmt3("amoor.w"@, reg_name(t.rd), reg_name(t.rs2), paren(t.rs1)),
            RV32A::Amominw(t) => fmt3("amomin.w"@, reg_name(t.rd), reg_name(t.rs2), paren(t.rs1)),
            RV32A::Amomaxw(t) => fmt3("amomax.w"@, reg_name(t.rd), reg_name(t.rs2), paren(t.rs1)),
            RV32A::Amominuw(t) => fmt3("amominu.w"@, reg_name(t.rd), reg_name(t.rs2), paren(t.rs1)),
            RV32A::Amomaxuw(t) => fmt3("amomaxu.w"@, reg_name(t.rd), reg_name(t.rs2), paren(t.rs1)),
        }
    }

    /// Renders the instruction as text.
    pub fn to_string(&self) -> (r: String)
        requires
            self.wf(),
        ensures
            r@ == self.text(),
    {
        match self {
            RV32A::Lrw(t) => put2("lr.w", reg(t.rd), paren_op(t.rs1)),
            RV32A::Scw(t) => put3("sc.w", reg(t.rd), reg(t.rs2), paren_op(t.rs1)),
            RV32A::Amoswapw(t) => put3("amoswap.w", reg(t.rd), reg(t.rs2), paren_op(t.rs1)),
            RV32A::Amoaddw(t) => put3("amoadd.w", reg(t.rd), reg(t.rs2), paren_op(t.rs1)),
            RV32A::Amoxorw(t) => put3("amoxor.w", reg(t.rd), reg(t.rs2), paren_op(t.rs1)),
            RV32A::Amoandw(t) => put3("amoand.w", reg(t.rd), reg(t.rs2), paren_op(t.rs1)),
            RV32A::Amoorw(t) => put3("amoor.w", reg(t.rd), reg(t.rs2), paren_op(t.rs1)),
            RV32A::Amominw(t) => put3("amomin.w", reg(t.rd), reg(t.rs2), paren_op(t.rs1)),
            RV32A::Amomaxw(t) => put3("amomax.w", reg(t.rd), reg(t.rs2), paren_op(t.rs1)),
            RV32A::Amominuw(t) => put3("amominu.w", reg(t.rd), reg(t.rs2), paren_op(t.rs1)),
            RV32A::Amomaxuw(t) => put3("amomaxu.w", reg(t.rd), reg(t.rs2), paren_op(t.rs1)),
        }
    }
}

/// Atomic double-word (64-bit) operations; legal when registers are at least 64 bits wide.
#[derive(Debug, Clone, Copy, PartialEq, Eq, Structural)]
pub enum RV64A {
    Lrd(RType),
    Scd(RType),
    Amoswapd(RType),
    Amoaddd(RType),
    Amoxord(RType),
    Amoandd(RType),
    Amoord(RType),
    Amomind(RType),
    Amomaxd(RType),
    Amominud(RType),
    Amomaxud(RType),
}

impl RV64A {
    /// The mnemonic, as it opens the disassembly text.
    pub open spec fn mnemonic(self) -> Seq<char> {
        match self {
            RV64A::Lrd(_) => "lr.d"@,
            RV64A::Scd(_) => "sc.d"@,
            RV64A::Amoswapd(_) => "amoswap.d"@,
            RV64A::Amoaddd(_) => "amoadd.d"@,
            RV64A::Amoxord(_) => "amoxor.d"@,
            RV64A::Amoandd(_) => "amoand.d"@,
            RV64A::Amoord(_) => "amoor.d"@,
            RV64A::Amomind(_) => "amomin.d"@,
            RV64A::Amomaxd(_) => "amomax.d"@,
            RV64A::Amominud(_) => "amominu.d"@,
            RV64A::Amomaxud(_) => "amomaxu.d"@,
        }
    }

    /// Every field of the carried record is within its width.
    pub open spec fn wf(self) -> bool {
        match self {
            RV64A::Lrd(t) => t.wf(),
            RV64A::Scd(t) => t.wf(),
            RV64A::Amoswapd(t) => t.wf(),
            RV64A::Amoaddd(t) => t.wf(),
            RV64A::Amoxord(t) => t.wf(),
            RV64A::Amoandd(t) => t.wf(),
            RV64A::Amoord(t) => t.wf(),
            RV64A::Amomind(t) => t.wf(),
            RV64A::Amomaxd(t) => t.wf(),
            RV64A::Amominud(t) => t.wf(),
            RV64A::Amomaxud(t) => t.wf(),
        }
    }

    /// The disassembly text: mnemonic, then the operands in assembler order.
    pub open spec fn text(self) -> Seq<char> {
        match self {
            RV64A::Lrd(t) => fmt2("lr.d"@, reg_name(t.rd), paren(t.rs1)),
            RV64A::Scd(t) => fmt3("sc.d"@, reg_name(t.rd), reg_name(t.rs2), paren(t.rs1)),
            RV64A::Amoswapd(t) => fmt3("amoswap.d"@, reg_name(t.rd), reg_name(t.rs2), paren(t.rs1)),
            RV64A::Amoaddd(t) => fmt3("amoadd.d"@, reg_name(t.rd), reg_name(t.rs2), paren(t.rs1)),
            RV64A::Amoxord(t) => fmt3("amoxor.d"@, reg_name(t.rd), reg_name(t.rs2), paren(t.rs1)),
            RV64A::Amoandd(t) => fmt3("amoand.d"@, reg_name(t.rd), reg_name(t.rs2), paren(t.rs1)),
            RV64A::Amoord(t) => fmt3("amoor.d"@, reg_name(t.rd), reg_name(t.rs2), paren(t.rs1)),
            RV64A::Amomind(t) => fmt3("amomin.d"@, reg_name(t.rd), reg_name(t.rs2), paren(t.rs1)),
            RV64A::Amomaxd(t) => fmt3("amomax.d"@, reg_name(t.rd), reg_name(t.rs2), paren(t.rs1)),
            RV64A::Amominud(t) => fmt3("amominu.d"@, reg_name(t.rd), reg_name(t.rs2), paren(t.rs1)),
            RV64A::Amomaxud(t) => fmt3("amomaxu.d"@, reg_name(t.rd), reg_name(t.rs2), paren(t.rs1)),
        }
    }

    /// Renders the instruction as text.
    pub fn to_string(&self) -> (r: String)
        requires
            self.wf(),
        ensures
            r@ == self.text(),
    {
        match self {
            RV64A::Lrd(t) => put2("lr.d", reg(t.rd), paren_op(t.rs1)),
            RV64A::Scd(t) => put3("sc.d", reg(t.rd), reg(t.rs2), paren_op(t.rs1)),
            RV64A::Amoswapd(t) => put3("amoswap.d", reg(t.rd), reg(t.rs2), paren_op(t.rs1)),
            RV64A::Amoaddd(t) => put3("amoadd.d", reg(t.rd), reg(t.rs2), paren_op(t.rs1)),
            RV64A::Amoxord(t) => put3("amoxor.d", reg(t.rd), reg(t.rs2), paren_op(t.rs1)),
            RV64A::Amoandd(t) => put3("amoand.d", reg(t.rd), reg(t.rs2), paren_op(t.rs1)),
            RV64A::Amoord(t) => put3("amoor.d", reg(t.rd), reg(t.rs2), paren_op(t.rs1)),
            RV64A::Amomind(t) => put3("amomin.d", reg(t.rd), reg(t.rs2), paren_op(t.rs1)),
            RV64A::Amomaxd(t) => put3("amomax.d", reg(t.rd), reg(t.rs2), paren_op(t.rs1)),
            RV64A::Amominud(t) => put3("amominu.d", reg(t.rd), reg(t.rs2), paren_op(t.rs1)),
            RV64A::Amomaxud(t) => put3("amomaxu.d", reg(t.rd), reg(t.rs2), paren_op(t.rs1)),
        }
    }
}

/// Atomic quad-word (128-bit) operations; legal only when registers are 128 bits wide.
#[derive(Debug, Clone, Copy, PartialEq, Eq, Structural)]
pub enum RV128A {
    Lrq(RType),
    Scq(RType),
    Amoswapq(RType),
    Amoaddq(RType),
    Amoxorq(RType),
    Amoandq(RType),
    Amoorq(RType),
    Amominq(RType),
    Amomaxq(RType),
    Amominuq(RType),
    Amomaxuq(RType),
}

impl RV128A {
    /// The mnemonic, as it opens the disassembly text.
    pub open spec fn mnemonic(self) -> Seq<char> {
        match self {
            RV128A::Lrq(_) => "lr.q"@,
            RV128A::Scq(_) => "sc.q"@,
            RV128A::Amoswapq(_) => "amoswap.q"@,
            RV128A::Amoaddq(_) => "amoadd.q"@,
            RV128A::Amoxorq(_) => "amoxor.q"@,
            RV128A::Amoandq(_) => "amoand.q"@,
            RV128A::Amoorq(_) => "amoor.q"@,
            RV128A::Amominq(_) => "amomin.q"@,
            RV128A::Amomaxq(_) => "amomax.q"@,
            RV128A::Amominuq(_) => "amominu.q"@,
            RV128A::Amomaxuq(_) => "amomaxu.q"@,
        }
    }

    /// Every field of the carried record is within its width.
    pub open spec fn wf(self) -> bool {
        match self {
            RV128A::Lrq(t) => t.wf(),
            RV128A::Scq(t) => t.wf(),
            RV128A::Amoswapq(t) => t.wf(),
            RV128A::Amoaddq(t) => t.wf(),
            RV128A::Amoxorq(t) => t.wf(),
            RV128A::Amoandq(t) => t.wf(),
            RV128A::Amoorq(t) => t.wf(),
            RV128A::Amominq(t) => t.wf(),
            RV128A::Amomaxq(t) => t.wf(),
            RV128A::Amominuq(t) => t.wf(),
            RV128A::Amomaxuq(t) => t.wf(),
        }
    }

    /// The disassembly text: mnemonic, then the operands in assembler order.
    pub open spec fn text(self) -> Seq<char> {
        match self {
            RV128A::Lrq(t) => fmt2("lr.q"@, reg_name(t.rd), paren(t.rs1)),
            RV128A::Scq(t) => fmt3("sc.q"@, reg_name(t.rd), reg_name(t.rs2), paren(t.rs1)),
            RV128A::Amoswapq(t) => fmt3("amoswap.q"@, reg_name(t.rd), reg_name(t.rs2), paren(t.rs1)),
            RV128A::Amoaddq(t) => fmt3("amoadd.q"@, reg_name(t.rd), reg_name(t.rs2), paren(t.rs1)),
            RV128A::Amoxorq(t) => fmt3("amoxor.q"@, reg_name(t.rd), reg_name(t.rs2), paren(t.rs1)),
            RV128A::Amoandq(t) => fmt3("amoand.q"@, reg_name(t.rd), reg_name(t.rs2), paren(t.rs1)),
            RV128A::Amoorq(t) => fmt3("amoor.q"@, reg_name(t.rd), reg_name(t.rs2), paren(t.rs1)),
            RV128A::Amominq(t) => fmt3("amomin.q"@, reg_name(t.rd), reg_name(t.rs2), paren(t.rs1)),
            RV128A::Amomaxq(t) => fmt3("amomax.q"@, reg_name(t.rd), reg_name(t.rs2), paren(t.rs1)),
            RV128A::Amominuq(t) => fmt3("amominu.q"@, reg_name(t.rd), reg_name(t.rs2), paren(t.rs1)),
            RV128A::Amomaxuq(t) => fmt3("amomaxu.q"@, reg_name(t.rd), reg_name(t.rs2), paren(t.rs1)),
        }
    }

    /// Renders the instruction as text.
    pub fn to_string(&self) -> (r: String)
        requires
            self.wf(),
        ensures
            r@ == self.text(),
    {
        match self {
            RV128A::Lrq(t) => put2("lr.q", reg(t.rd), paren_op(t.rs1)),
            RV128A::Scq(t) => put3("sc.q", reg(t.rd), reg(t.rs2), paren_op(t.rs1)),
            RV128A::Amoswapq(t) => put3("amoswap.q", reg(t.rd), reg(t.rs2), paren_op(t.rs1)),
            RV128A::Amoaddq(t) => put3("amoadd.q", reg(t.rd), reg(t.rs2), paren_op(t.rs1)),
            RV128A::Amoxorq(t) => put3("amoxor.q", reg(t.rd), reg(t.rs2), paren_op(t.rs1)),
            RV128A::Amoandq(t) => put3("amoand.q", reg(t.rd), reg(t.rs2), paren_op(t.rs1)),
            RV128A::Amoorq(t) => put3("amoor.q", reg(t.rd), reg(t.rs2), paren_op(t.rs1)),
            RV128A::Amominq(t) => put3("amomin.q", reg(t.rd), reg(t.rs2), paren_op(t.rs1)),
            RV128A::Amomaxq(t) => put3("amomax.q", reg(t.rd), reg(t.rs2), paren_op(t.rs1)),
            RV128A::Amominuq(t) => put3("amominu.q", reg(t.rd), reg(t.rs2), paren_op(t.rs1)),
            RV128A::Amomaxuq(t) => put3("amomaxu.q", reg(t.rd), reg(t.rs2), paren_op(t.rs1)),
        }
    }
}

} // verus!
