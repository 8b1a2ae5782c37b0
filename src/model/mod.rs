//! The instruction model: format records, the instruction groups, register
//! names, and the text forms that disassembly produces.
use vstd::prelude::*;
use crate::imm::{Imm, Uimm};
use crate::text::{
    chars_of, lower_seq, lower_vec, parse_digits, bounded_digits, trim, trim_vec,
    eq_lit,
};

pub mod rv32i;
pub mod rv64i;
pub mod rva;
pub mod rvc;
pub mod rvf;
pub mod rvzicsr;
pub mod same;

pub use rv32i::RV32I;
pub use rv64i::RV64I;
pub use rva::{RV128A, RV32A, RV64A};
pub use rvc::RVC;
pub use rvf::RVF;
pub use rvzicsr::RVZicsr;

verus! {

/// One decoded or parsed instruction, tagged by its extension group.
#[derive(Debug, Clone, Copy, PartialEq, Eq, Structural)]
pub enum Instruction {
    RV32I(RV32I),
    RV64I(RV64I),
    RVC(RVC),
    RVZicsr(RVZicsr),
    RVF(RVF),
    RV32A(RV32A),
    RV64A(RV64A),
    RV128A(RV128A),
}

impl Instruction {
    /// Every field of the carried record is within its width.
    pub open spec fn wf(self) -> bool {
        match self {
            Instruction::RV32I(i) => i.wf(),
            Instruction::RV64I(i) => i.wf(),
            Instruction::RVC(i) => i.wf(),
            Instruction::RVZicsr(i) => i.wf(),
            Instruction::RVF(i) => i.wf(),
            Instruction::RV32A(i) => i.wf(),
            Instruction::RV64A(i) => i.wf(),
            Instruction::RV128A(i) => i.wf(),
        }
    }

    /// The mnemonic, as it opens the disassembly text.
    pub open spec fn mnemonic(self) -> Seq<char> {
        match self {
            Instruction::RV32I(i) => i.mnemonic(),
            Instruction::RV64I(i) => i.mnemonic(),
            Instruction::RVC(i) => i.mnemonic(),
            Instruction::RVZicsr(i) => i.mnemonic(),
            Instruction::RVF(i) => i.mnemonic(),
            Instruction::RV32A(i) => i.mnemonic(),
            Instruction::RV64A(i) => i.mnemonic(),
            Instruction::RV128A(i) => i.mnemonic(),
        }
    }

    /// The canonical disassembly text.
    pub open spec fn text(self) -> Seq<char> {
        match self {
            Instruction::RV32I(i) => i.text(),
            Instruction::RV64I(i) => i.text(),
            Instruction::RVC(i) => i.text(),
            Instruction::RVZicsr(i) => i.text(),
            Instruction::RVF(i) => i.text(),
            Instruction::RV32A(i) => i.text(),
            Instruction::RV64A(i) => i.text(),
            Instruction::RV128A(i) => i.text(),
        }
    }

    /// Renders the instruction as mnemonic and comma-separated operands.
    pub fn disassembly(&self) -> (r: String)
        requires
            self.wf(),
        ensures
            r@ == self.text(),
    {
        match self {
            Instruction::RV32I(i) => i.to_string(),
            Instruction::RV64I(i) => i.to_string(),
            Instruction::RVC(i) => i.to_string(),
            Instruction::RVZicsr(i) => i.to_string(),
            Instruction::RVF(i) => i.to_string(),
            Instruction::RV32A(i) => i.to_string(),
            Instruction::RV64A(i) => i.to_string(),
            Instruction::RV128A(i) => i.to_string(),
        }
    }
}

impl From<RV32I> for Instruction {
    fn from(src: RV32I) -> Instruction {
        Instruction::RV32I(src)
    }
}

impl vstd::std_specs::convert::FromSpecImpl<RV32I> for Instruction {
    open spec fn obeys_from_spec() -> bool {
        true
    }

    open spec fn from_spec(src: RV32I) -> Instruction {
        Instruction::RV32I(src)
    }
}

impl From<RV64I> for Instruction {
    fn from(src: RV64I) -> Instruction {
        Instruction::RV64I(src)
    }
}

impl vstd::std_specs::convert::FromSpecImpl<RV64I> for Instruction {
    open spec fn obeys_from_spec() -> bool {
        true
    }

    open spec fn from_spec(src: RV64I) -> Instruction {
        Instruction::RV64I(src)
    }
}

impl From<RVC> for Instruction {
    fn from(src: RVC) -> Instruction {
        Instruction::RVC(src)
    }
}

impl vstd::std_specs::convert::FromSpecImpl<RVC> for Instruction {
    open spec fn obeys_from_spec() -> bool {
        true
    }

    open spec fn from_spec(src: RVC) -> Instruction {
        Instruction::RVC(src)
    }
}

impl From<RVZicsr> for Instruction {
    fn from(src: RVZicsr) -> Instruction {
        Instruction::RVZicsr(src)
    }
}

impl vstd::std_specs::convert::FromSpecImpl<RVZicsr> for Instruction {
    open spec fn obeys_from_spec() -> bool {
        true
    }

    open spec fn from_spec(src: RVZicsr) -> Instruction {
        Instruction::RVZicsr(src)
    }
}

impl From<RVF> for Instruction {
    fn from(src: RVF) -> Instruction {
        Instruction::RVF(src)
    }
}

impl vstd::std_specs::convert::FromSpecImpl<RVF> for Instruction {
    open spec fn obeys_from_spec() -> bool {
        true
    }

    open spec fn from_spec(src: RVF) -> Instruction {
        Instruction::RVF(src)
    }
}

impl From<RV32A> for Instruction {
    fn from(src: RV32A) -> Instruction {
        Instruction::RV32A(src)
    }
}

impl vstd::std_specs::convert::FromSpecImpl<RV32A> for Instruction {
    open spec fn obeys_from_spec() -> bool {
        true
    }

    open spec fn from_spec(src: RV32A) -> Instruction {
        Instruction::RV32A(src)
    }
}

impl From<RV64A> for Instruction {
    fn from(src: RV64A) -> Instruction {
        Instruction::RV64A(src)
    }
}

impl vstd::std_specs::convert::FromSpecImpl<RV64A> for Instruction {
    open spec fn obeys_from_spec() -> bool {
        true
    }

    open spec fn from_spec(src: RV64A) -> Instruction {
        Instruction::RV64A(src)
    }
}

impl From<RV128A> for Instruction {
    fn from(src: RV128A) -> Instruction {
        Instruction::RV128A(src)
    }
}

impl vstd::std_specs::convert::FromSpecImpl<RV128A> for Instruction {
    open spec fn obeys_from_spec() -> bool {
        true
    }

    open spec fn from_spec(src: RV128A) -> Instruction {
        Instruction::RV128A(src)
    }
}

/// U-type: destination and the upper immediate, already shifted into bits 31..12.
#[derive(Debug, Clone, Copy, PartialEq, Eq, Structural)]
pub struct UType {
    pub rd: u8,
    pub imm: Imm,
}

/// J-type: destination and a 21-bit even offset.
#[derive(Debug, Clone, Copy, PartialEq, Eq, Structural)]
pub struct JType {
    pub rd: u8,
    pub imm: Imm,
}

/// I-type: destination, source, function code and a 12-bit immediate
/// (or, for shifts, the shift amount alone).
#[derive(Debug, Clone, Copy, PartialEq, Eq, Structural)]
pub struct IType {
    pub rd: u8,
    pub rs1: u8,
    pub funct3: u8,
    pub imm: Imm,
}

/// S-type: base, source and a 12-bit offset.
#[derive(Debug, Clone, Copy, PartialEq, Eq, Structural)]
pub struct SType {
    pub rs1: u8,
    pub rs2: u8,
    pub funct3: u8,
    pub imm: Imm,
}

/// B-type: two sources and a 13-bit even offset.
#[derive(Debug, Clone, Copy, PartialEq, Eq, Structural)]
pub struct BType {
    pub rs1: u8,
    pub rs2: u8,
    pub funct3: u8,
    pub imm: Imm,
}

/// R-type: three registers and both function codes.
#[derive(Debug, Clone, Copy, PartialEq, Eq, Structural)]
pub struct RType {
    pub rd: u8,
    pub rs1: u8,
    pub rs2: u8,
    pub funct3: u8,
    pub funct7: u8,
}

/// Compressed CR: a full register that is both destination and source, and a second source.
#[derive(Debug, Clone, Copy, PartialEq, Eq, Structural)]
pub struct CRType {
    pub rdrs1: u8,
    pub rs2: u8,
    pub funct4: u8,
}

/// Compressed CI: a full register and an immediate.
#[derive(Debug, Clone, Copy, PartialEq, Eq, Structural)]
pub struct CIType {
    pub rdrs1: u8,
    pub funct3: u8,
    pub imm: Imm,
}

/// Compressed CSS: a source stored at an sp-relative offset.
#[derive(Debug, Clone, Copy, PartialEq, Eq, Structural)]
pub struct CSSType {
    pub rs2: u8,
    pub funct3: u8,
    pub imm: Imm,
}

/// Compressed CIW: a destination in x8..x15 and an unsigned immediate.
#[derive(Debug, Clone, Copy, PartialEq, Eq, Structural)]
pub struct CIWType {
    pub rd: u8,
    pub funct3: u8,
    pub uimm: Uimm,
}

/// Compressed CL: a load between registers of x8..x15.
#[derive(Debug, Clone, Copy, PartialEq, Eq, Structural)]
pub struct CLType {
    pub rd: u8,
    pub rs1: u8,
    pub funct3: u8,
    pub imm: Imm,
}

/// Compressed CS: a store between registers of x8..x15.
#[derive(Debug, Clone, Copy, PartialEq, Eq, Structural)]
pub struct CSType {
    pub rs1: u8,
    pub rs2: u8,
    pub funct3: u8,
    pub imm: Imm,
}

/// Compressed CA: register-register arithmetic on x8..x15.
#[derive(Debug, Clone, Copy, PartialEq, Eq, Structural)]
pub struct CAType {
    pub rdrs1: u8,
    pub rs2: u8,
    pub funct2: u8,
    pub funct6: u8,
}

/// Compressed CB: a register of x8..x15 and a 9-bit even offset.
#[derive(Debug, Clone, Copy, PartialEq, Eq, Structural)]
pub struct CBType {
    pub rs1: u8,
    pub funct3: u8,
    pub off: Imm,
}

/// Compressed CJ: a 12-bit even jump offset.
#[derive(Debug, Clone, Copy, PartialEq, Eq, Structural)]
pub struct CJType {
    pub funct3: u8,
    pub target: Imm,
}

/// CSR access with a register operand.
#[derive(Debug, Clone, Copy, PartialEq, Eq, Structural)]
pub struct CsrRType {
    pub rd: u8,
    pub rs1: u8,
    pub funct3: u8,
    pub csr: u16,
}

/// CSR access with a 5-bit immediate operand.
#[derive(Debug, Clone, Copy, PartialEq, Eq, Structural)]
pub struct CsrIType {
    pub rd: u8,
    pub uimm: Uimm,
    pub funct3: u8,
    pub csr: u16,
}

/// R4-type: the fused multiply-add form with three sources.
#[derive(Debug, Clone, Copy, PartialEq, Eq, Structural)]
pub struct R4Type {
    pub rd: u8,
    pub rs1: u8,
    pub rs2: u8,
    pub rs3: u8,
    pub funct3: u8,
    pub funct2: u8,
}

impl UType {
    pub open spec fn wf(self) -> bool {
        self.rd < 32 && self.imm.wf()
    }
}

impl JType {
    pub open spec fn wf(self) -> bool {
        self.rd < 32 && self.imm.wf()
    }
}

impl IType {
    pub open spec fn wf(self) -> bool {
        self.rd < 32 && self.rs1 < 32 && self.funct3 < 8 && self.imm.wf()
    }
}

impl SType {
    pub open spec fn wf(self) -> bool {
        self.rs1 < 32 && self.rs2 < 32 && self.funct3 < 8 && self.imm.wf()
    }
}

impl BType {
    pub open spec fn wf(self) -> bool {
        self.rs1 < 32 && self.rs2 < 32 && self.funct3 < 8 && self.imm.wf()
    }
}

impl RType {
    pub open spec fn wf(self) -> bool {
        self.rd < 32 && self.rs1 < 32 && self.rs2 < 32 && self.funct3 < 8 && self.funct7 < 128
    }
}

impl CRType {
    pub open spec fn wf(self) -> bool {
        self.rdrs1 < 32 && self.rs2 < 32
    }
}

impl CIType {
    pub open spec fn wf(self) -> bool {
        self.rdrs1 < 32 && self.imm.wf()
    }
}

impl CSSType {
    pub open spec fn wf(self) -> bool {
        self.rs2 < 32 && self.imm.wf()
    }
}

impl CIWType {
    pub open spec fn wf(self) -> bool {
        self.rd < 32 && self.uimm.wf()
    }
}

impl CLType {
    pub open spec fn wf(self) -> bool {
        self.rd < 32 && self.rs1 < 32 && self.imm.wf()
    }
}

impl CSType {
    pub open spec fn wf(self) -> bool {
        self.rs1 < 32 && self.rs2 < 32 && self.imm.wf()
    }
}

impl CAType {
    pub open spec fn wf(self) -> bool {
        self.rdrs1 < 32 && self.rs2 < 32
    }
}

impl CBType {
    pub open spec fn wf(self) -> bool {
        self.rs1 < 32 && self.off.wf()
    }
}

impl CJType {
    pub open spec fn wf(self) -> bool {
        self.target.wf()
    }
}

impl CsrRType {
    pub open spec fn wf(self) -> bool {
        self.rd < 32 && self.rs1 < 32 && self.funct3 < 8 && self.csr < 4096
    }
}

impl CsrIType {
    pub open spec fn wf(self) -> bool {
        self.rd < 32 && self.uimm.wf() && self.uimm.width == 5 && self.funct3 < 8 && self.csr < 4096
    }
}

impl R4Type {
    pub open spec fn wf(self) -> bool {
        self.rd < 32 && self.rs1 < 32 && self.rs2 < 32 && self.rs3 < 32 && self.funct3 < 8
            && self.funct2 < 4
    }
}

/// The ABI name of a register index.
pub open spec fn reg_name(r: u8) -> Seq<char> {
    match r {
        0 => "zero"@,
        1 => "ra"@,
        2 => "sp"@,
        3 => "gp"@,
        4 => "tp"@,
        5 => "t0"@,
        6 => "t1"@,
        7 => "t2"@,
        8 => "s0"@,
        9 => "s1"@,
        10 => "a0"@,
        11 => "a1"@,
        12 => "a2"@,
        13 => "a3"@,
        14 => "a4"@,
        15 => "a5"@,
        16 => "a6"@,
        17 => "a7"@,
        18 => "s2"@,
        19 => "s3"@,
        20 => "s4"@,
        21 => "s5"@,
        22 => "s6"@,
        23 => "s7"@,
        24 => "s8"@,
        25 => "s9"@,
        26 => "s10"@,
        27 => "s11"@,
        28 => "t3"@,
        29 => "t4"@,
        30 => "t5"@,
        31 => "t6"@,
        _ => "unknown"@,
    }
}

pub fn to_register(r: u8) -> (s: &'static str)
    ensures
        s@ == reg_name(r),
{
    match r {
        0 => "zero",
        1 => "ra",
        2 => "sp",
        3 => "gp",
        4 => "tp",
        5 => "t0",
        6 => "t1",
        7 => "t2",
        8 => "s0",
        9 => "s1",
        10 => "a0",
        11 => "a1",
        12 => "a2",
        13 => "a3",
        14 => "a4",
        15 => "a5",
        16 => "a6",
        17 => "a7",
        18 => "s2",
        19 => "s3",
        20 => "s4",
        21 => "s5",
        22 => "s6",
        23 => "s7",
        24 => "s8",
        25 => "s9",
        26 => "s10",
        27 => "s11",
        28 => "t3",
        29 => "t4",
        30 => "t5",
        31 => "t6",
        _ => "unknown",
    }
}

/// The register an ABI name denotes (`fp` being another name for `s0`).
pub open spec fn abi_index(s: Seq<char>) -> Option<u8> {
    if s == "fp"@ {
        Some(8u8)
    } else if exists|r: u8| r < 32 && reg_name(r) == s {
        Some(choose|r: u8| r < 32 && reg_name(r) == s)
    } else {
        None
    }
}

/// The register a name denotes: `x0`..`x31` or an ABI name, in any case,
/// with surrounding whitespace ignored.
pub open spec fn register_of(name: Seq<char>) -> Option<u8> {
    let s = lower_seq(trim(name));
    if s.len() >= 2 && s[0] == 'x' {
        match bounded_digits(s.drop_first(), 10, 31) {
            Some(n) => Some(n as u8),
            None => None,
        }
    } else {
        abi_index(s)
    }
}

fn abi_lookup(s: &Vec<char>) -> (r: Option<u8>)
    requires
        s@.len() < 2 || s@[0] != 'x',
    ensures
        r == abi_index(s@),
{
    if eq_lit(s, "fp") {
        return Some(8);
    }
    let mut r: u8 = 0;
    while r < 32
        invariant
            r <= 32,
            s@ != "fp"@,
            forall|q: u8| q < r ==> reg_name(q) != s@,
        decreases 32 - r,
    {
        if eq_lit(s, to_register(r)) {
            proof {
                assert forall|q: u8| q < 32 && reg_name(q) == s@ implies q == r by {
                    if q != r {
                        lemma_reg_names_distinct(q, r);
                    }
                }
            }
            return Some(r);
        }
        r = r + 1;
    }
    None
}

proof fn lemma_reg_names_distinct(a: u8, b: u8)
    requires
        a < 32,
        b < 32,
        a != b,
    ensures
        reg_name(a) != reg_name(b),
{
    reveal_strlit("zero");
    reveal_strlit("ra");
    reveal_strlit("sp");
    reveal_strlit("gp");
    reveal_strlit("tp");
    reveal_strlit("t0");
    reveal_strlit("t1");
    reveal_strlit("t2");
    reveal_strlit("s0");
    reveal_strlit("s1");
    reveal_strlit("a0");
    reveal_strlit("a1");
    reveal_strlit("a2");
    reveal_strlit("a3");
    reveal_strlit("a4");
    reveal_strlit("a5");
    reveal_strlit("a6");
    reveal_strlit("a7");
    reveal_strlit("s2");
    reveal_strlit("s3");
    reveal_strlit("s4");
    reveal_strlit("s5");
    reveal_strlit("s6");
    reveal_strlit("s7");
    reveal_strlit("s8");
    reveal_strlit("s9");
    reveal_strlit("s10");
    reveal_strlit("s11");
    reveal_strlit("t3");
    reveal_strlit("t4");
    reveal_strlit("t5");
    reveal_strlit("t6");
    if reg_name(a) == reg_name(b) {
        let x = reg_name(a);
        assert(x.len() == reg_name(b).len());
        assert(x[0] == reg_name(b)[0]);
        assert(x.len() >= 2);
        assert(x[1] == reg_name(b)[1]);
        if x.len() == 3 {
            assert(x[2] == reg_name(b)[2]);
        }
        if x.len() == 4 {
            assert(x[2] == reg_name(b)[2]);
            assert(x[3] == reg_name(b)[3]);
        }
    }
}

/// Reads a register name in any of its accepted forms.
pub fn register_from_chars(name: &Vec<char>) -> (r: Option<u8>)
    ensures
        r == register_of(name@),
{
    let t = trim_vec(name);
    let s = lower_vec(&t);
    if s.len() >= 2 && s[0] == 'x' {
        match parse_digits(&s, 1, s.len(), 10, 31) {
            Some(n) => {
                assert(s@.subrange(1, s@.len() as int) =~= s@.drop_first());
                Some(n as u8)
            },
            None => {
                assert(s@.subrange(1, s@.len() as int) =~= s@.drop_first());
                None
            },
        }
    } else {
        abi_lookup(&s)
    }
}

/// Reads a register name: `x0`..`x31` or an ABI name, in any case.
pub fn from_register(name: &str) -> (r: Option<u8>)
    ensures
        r == register_of(name@),
{
    let v = chars_of(name);
    register_from_chars(&v)
}

/// Text-building pieces shared by every group's rendering.
pub open spec fn fmt1(m: Seq<char>, a: Seq<char>) -> Seq<char> {
    m + seq![' '] + a
}

pub open spec fn fmt2(m: Seq<char>, a: Seq<char>, b: Seq<char>) -> Seq<char> {
    fmt1(m, a) + seq![',', ' '] + b
}

pub open spec fn fmt3(m: Seq<char>, a: Seq<char>, b: Seq<char>, c: Seq<char>) -> Seq<char> {
    fmt2(m, a, b) + seq![',', ' '] + c
}

pub open spec fn fmt4(m: Seq<char>, a: Seq<char>, b: Seq<char>, c: Seq<char>,
    d: Seq<char>) -> Seq<char> {
    fmt3(m, a, b, c) + seq![',', ' '] + d
}

/// A memory operand `offset(base)`.
pub open spec fn mem(off: Seq<char>, base: u8) -> Seq<char> {
    off + seq!['('] + reg_name(base) + seq![')']
}

/// A bare address register `(base)`.
pub open spec fn paren(base: u8) -> Seq<char> {
    seq!['('] + reg_name(base) + seq![')']
}

pub fn mnem(m: &str) -> (r: String)
    ensures
        r@ == m@,
{
    m.to_owned()
}

pub fn put1(m: &str, a: String) -> (r: String)
    ensures
        r@ == fmt1(m@, a@),
{
    let mut s = m.to_owned();
    s.append(" ");
    s.append(a.as_str());
    proof {
        reveal_strlit(" ");
    }
    assert(s@ =~= fmt1(m@, a@));
    s
}

pub fn put2(m: &str, a: String, b: String) -> (r: String)
    ensures
        r@ == fmt2(m@, a@, b@),
{
    let mut s = put1(m, a);
    s.append(", ");
    s.append(b.as_str());
    proof {
        reveal_strlit(", ");
    }
    assert(s@ =~= fmt2(m@, a@, b@));
    s
}

pub fn put3(m: &str, a: String, b: String, c: String) -> (r: String)
    ensures
        r@ == fmt3(m@, a@, b@, c@),
{
    let mut s = put2(m, a, b);
    s.append(", ");
    s.append(c.as_str());
    proof {
        reveal_strlit(", ");
    }
    assert(s@ =~= fmt3(m@, a@, b@, c@));
    s
}

pub fn put4(m: &str, a: String, b: String, c: String, d: String) -> (r: String)
    ensures
        r@ == fmt4(m@, a@, b@, c@, d@),
{
    let mut s = put3(m, a, b, c);
    s.append(", ");
    s.append(d.as_str());
    proof {
        reveal_strlit(", ");
    }
    assert(s@ =~= fmt4(m@, a@, b@, c@, d@));
    s
}

pub fn reg(r: u8) -> (s: String)
    ensures
        s@ == reg_name(r),
{
    to_register(r).to_owned()
}

pub fn mem_op(off: String, base: u8) -> (s: String)
    ensures
        s@ == mem(off@, base),
{
    let mut s = off;
    s.append("(");
    s.append(to_register(base));
    s.append(")");
    proof {
        reveal_strlit("(");
        reveal_strlit(")");
    }
    assert(s@ =~= mem(off@, base));
    s
}

pub fn paren_op(base: u8) -> (s: String)
    ensures
        s@ == paren(base),
{
    let mut s = "(".to_owned();
    s.append(to_register(base));
    s.append(")");
    proof {
        reveal_strlit("(");
        reveal_strlit(")");
    }
    assert(s@ =~= paren(base));
    s
}

} // verus!
