//! Structural equality of instructions: the same variant with the same registers
//! and immediate values, whatever the function-code fields and immediate widths hold.
use vstd::prelude::*;
use super::{Instruction, RV128A, RV32A, RV32I, RV64A, RV64I, RVC, RVF, RVZicsr};

verus! {

/// The same RV32I variant with the same registers and the same immediate value.
pub open spec fn same_rv32i(x: RV32I, y: RV32I) -> bool {
    match (x, y) {
        (RV32I::Lui(a), RV32I::Lui(b)) => a.rd == b.rd && a.imm.bits / 4096 == b.imm.bits / 4096,
        (RV32I::Auipc(a), RV32I::Auipc(b)) => a.rd == b.rd && a.imm.bits / 4096 == b.imm.bits / 4096,
        (RV32I::Jal(a), RV32I::Jal(b)) => a.rd == b.rd && a.imm.value() == b.imm.value(),
        (RV32I::Jalr(a), RV32I::Jalr(b)) => a.rd == b.rd && a.rs1 == b.rs1 && a.imm.value() == b.imm.value(),
        (RV32I::Beq(a), RV32I::Beq(b)) => a.rs1 == b.rs1 && a.rs2 == b.rs2 && a.imm.value() == b.imm.value(),
        (RV32I::Bne(a), RV32I::Bne(b)) => a.rs1 == b.rs1 && a.rs2 == b.rs2 && a.imm.value() == b.imm.value(),
        (RV32I::Blt(a), RV32I::Blt(b)) => a.rs1 == b.rs1 && a.rs2 == b.rs2 && a.imm.value() == b.imm.value(),
        (RV32I::Bge(a), RV32I::Bge(b)) => a.rs1 == b.rs1 && a.rs2 == b.rs2 && a.imm.value() == b.imm.value(),
        (RV32I::Bltu(a), RV32I::Bltu(b)) => a.rs1 == b.rs1 && a.rs2 == b.rs2 && a.imm.value() == b.imm.value(),
        (RV32I::Bgeu(a), RV32I::Bgeu(b)) => a.rs1 == b.rs1 && a.rs2 == b.rs2 && a.imm.value() == b.imm.value(),
        (RV32I::Lb(a), RV32I::Lb(b)) => a.rd == b.rd && a.rs1 == b.rs1 && a.imm.value() == b.imm.value(),
        (RV32I::Lh(a), RV32I::Lh(b)) => a.rd == b.rd && a.rs1 == b.rs1 && a.imm.value() == b.imm.value(),
        (RV32I::Lw(a), RV32I::Lw(b)) => a.rd == b.rd && a.rs1 == b.rs1 && a.imm.value() == b.imm.value(),
        (RV32I::Lbu(a), RV32I::Lbu(b)) => a.rd == b.rd && a.rs1 == b.rs1 && a.imm.value() == b.imm.value(),
        (RV32I::Lhu(a), RV32I::Lhu(b)) => a.rd == b.rd && a.rs1 == b.rs1 && a.imm.value() == b.imm.value(),
        (RV32I::Sb(a), RV32I::Sb(b)) => a.rs1 == b.rs1 && a.rs2 == b.rs2 && a.imm.value() == b.imm.value(),
        (RV32I::Sh(a), RV32I::Sh(b)) => a.rs1 == b.rs1 && a.rs2 == b.rs2 && a.imm.value() == b.imm.value(),
        (RV32I::Sw(a), RV32I::Sw(b)) => a.rs1 == b.rs1 && a.rs2 == b.rs2 && a.imm.value() == b.imm.value(),
        (RV32I::Addi(a), RV32I::Addi(b)) => a.rd == b.rd && a.rs1 == b.rs1 && a.imm.value() == b.imm.value(),
        (RV32I::Slti(a), RV32I::Slti(b)) => a.rd == b.rd && a.rs1 == b.rs1 && a.imm.value() == b.imm.value(),
        (RV32I::Sltiu(a), RV32I::Sltiu(b)) => a.rd == b.rd && a.rs1 == b.rs1 && a.imm.value() == b.imm.value(),
        (RV32I::Xori(a), RV32I::Xori(b)) => a.rd == b.rd && a.rs1 == b.rs1 && a.imm.value() == b.imm.value(),
        (RV32I::Ori(a), RV32I::Ori(b)) => a.rd == b.rd && a.rs1 == b.rs1 && a.imm.value() == b.imm.value(),
        (RV32I::Andi(a), RV32I::Andi(b)) => a.rd == b.rd && a.rs1 == b.rs1 && a.imm.value() == b.imm.value(),
        (RV32I::Slli(a), RV32I::Slli(b)) => a.rd == b.rd && a.rs1 == b.rs1 && a.imm.bits == b.imm.bits,
        (RV32I::Srli(a), RV32I::Srli(b)) => a.rd == b.rd && a.rs1 == b.rs1 && a.imm.bits == b.imm.bits,
        (RV32I::Srai(a), RV32I::Srai(b)) => a.rd == b.rd && a.rs1 == b.rs1 && a.imm.bits == b.imm.bits,
        (RV32I::Add(a), RV32I::Add(b)) => a.rd == b.rd && a.rs1 == b.rs1 && a.rs2 == b.rs2,
        (RV32I::Sub(a), RV32I::Sub(b)) => a.rd == b.rd && a.rs1 == b.rs1 && a.rs2 == b.rs2,
        (RV32I::Sll(a), RV32I::Sll(b)) => a.rd == b.rd && a.rs1 == b.rs1 && a.rs2 == b.rs2,
        (RV32I::Slt(a), RV32I::Slt(b)) => a.rd == b.rd && a.rs1 == b.rs1 && a.rs2 == b.rs2,
        (RV32I::Sltu(a), RV32I::Sltu(b)) => a.rd == b.rd && a.rs1 == b.rs1 && a.rs2 == b.rs2,
        (RV32I::Xor(a), RV32I::Xor(b)) => a.rd == b.rd && a.rs1 == b.rs1 && a.rs2 == b.rs2,
        (RV32I::Srl(a), RV32I::Srl(b)) => a.rd == b.rd && a.rs1 == b.rs1 && a.rs2 == b.rs2,
        (RV32I::Sra(a), RV32I::Sra(b)) => a.rd == b.rd && a.rs1 == b.rs1 && a.rs2 == b.rs2,
        (RV32I::Or(a), RV32I::Or(b)) => a.rd == b.rd && a.rs1 == b.rs1 && a.rs2 == b.rs2,
        (RV32I::And(a), RV32I::And(b)) => a.rd == b.rd && a.rs1 == b.rs1 && a.rs2 == b.rs2,
        (RV32I::Mul(a), RV32I::Mul(b)) => a.rd == b.rd && a.rs1 == b.rs1 && a.rs2 == b.rs2,
        (RV32I::Mulh(a), RV32I::Mulh(b)) => a.rd == b.rd && a.rs1 == b.rs1 && a.rs2 == b.rs2,
        (RV32I::Mulhsu(a), RV32I::Mulhsu(b)) => a.rd == b.rd && a.rs1 == b.rs1 && a.rs2 == b.rs2,
        (RV32I::Mulhu(a), RV32I::Mulhu(b)) => a.rd == b.rd && a.rs1 == b.rs1 && a.rs2 == b.rs2,
        (RV32I::Div(a), RV32I::Div(b)) => a.rd == b.rd && a.rs1 == b.rs1 && a.rs2 == b.rs2,
        (RV32I::Divu(a), RV32I::Divu(b)) => a.rd == b.rd && a.rs1 == b.rs1 && a.rs2 == b.rs2,
        (RV32I::Rem(a), RV32I::Rem(b)) => a.rd == b.rd && a.rs1 == b.rs1 && a.rs2 == b.rs2,
        (RV32I::Remu(a), RV32I::Remu(b)) => a.rd == b.rd && a.rs1 == b.rs1 && a.rs2 == b.rs2,
        (RV32I::Fence, RV32I::Fence) => true,
        (RV32I::FenceI, RV32I::FenceI) => true,
        (RV32I::Ecall, RV32I::Ecall) => true,
        (RV32I::Ebreak, RV32I::Ebreak) => true,
        _ => false,
    }
}

/// The same RV64I variant with the same registers and the same immediate value.
pub open spec fn same_rv64i(x: RV64I, y: RV64I) -> bool {
    match (x, y) {
        (RV64I::Lwu(a), RV64I::Lwu(b)) => a.rd == b.rd && a.rs1 == b.rs1 && a.imm.value() == b.imm.value(),
        (RV64I::Ld(a), RV64I::Ld(b)) => a.rd == b.rd && a.rs1 == b.rs1 && a.imm.value() == b.imm.value(),
        (RV64I::Sd(a), RV64I::Sd(b)) => a.rs1 == b.rs1 && a.rs2 == b.rs2 && a.imm.value() == b.imm.value(),
        (RV64I::Slli(a), RV64I::Slli(b)) => a.rd == b.rd && a.rs1 == b.rs1 && a.imm.bits == b.imm.bits,
        (RV64I::Srli(a), RV64I::Srli(b)) => a.rd == b.rd && a.rs1 == b.rs1 && a.imm.bits == b.imm.bits,
        (RV64I::Srai(a), RV64I::Srai(b)) => a.rd == b.rd && a.rs1 == b.rs1 && a.imm.bits == b.imm.bits,
        (RV64I::Addiw(a), RV64I::Addiw(b)) => a.rd == b.rd && a.rs1 == b.rs1 && a.imm.value() == b.imm.value(),
        (RV64I::Slliw(a), RV64I::Slliw(b)) => a.rd == b.rd && a.rs1 == b.rs1 && a.imm.bits == b.imm.bits,
        (RV64I::Srliw(a), RV64I::Srliw(b)) => a.rd == b.rd && a.rs1 == b.rs1 && a.imm.bits == b.imm.bits,
        (RV64I::Sraiw(a), RV64I::Sraiw(b)) => a.rd == b.rd && a.rs1 == b.rs1 && a.imm.bits == b.imm.bits,
        (RV64I::Addw(a), RV64I::Addw(b)) => a.rd == b.rd && a.rs1 == b.rs1 && a.rs2 == b.rs2,
        (RV64I::Subw(a), RV64I::Subw(b)) => a.rd == b.rd && a.rs1 == b.rs1 && a.rs2 == b.rs2,
        (RV64I::Sllw(a), RV64I::Sllw(b)) => a.rd == b.rd && a.rs1 == b.rs1 && a.rs2 == b.rs2,
        (RV64I::Srlw(a), RV64I::Srlw(b)) => a.rd == b.rd && a.rs1 == b.rs1 && a.rs2 == b.rs2,
        (RV64I::Sraw(a), RV64I::Sraw(b)) => a.rd == b.rd && a.rs1 == b.rs1 && a.rs2 == b.rs2,
        _ => false,
    }
}

/// The same RVZicsr variant with the same registers and the same immediate value.
pub open spec fn same_rvzicsr(x: RVZicsr, y: RVZicsr) -> bool {
    match (x, y) {
        (RVZicsr::Csrrw(a), RVZicsr::Csrrw(b)) => a.rd == b.rd && a.rs1 == b.rs1 && a.csr == b.csr,
        (RVZicsr::Csrrs(a), RVZicsr::Csrrs(b)) => a.rd == b.rd && a.rs1 == b.rs1 && a.csr == b.csr,
        (RVZicsr::Csrrc(a), RVZicsr::Csrrc(b)) => a.rd == b.rd && a.rs1 == b.rs1 && a.csr == b.csr,
        (RVZicsr::Csrrwi(a), RVZicsr::Csrrwi(b)) => a.rd == b.rd && a.csr == b.csr && a.uimm.bits == b.uimm.bits,
        (RVZicsr::Csrrsi(a), RVZicsr::Csrrsi(b)) => a.rd == b.rd && a.csr == b.csr && a.uimm.bits == b.uimm.bits,
        (RVZicsr::Csrrci(a), RVZicsr::Csrrci(b)) => a.rd == b.rd && a.csr == b.csr && a.uimm.bits == b.uimm.bits,
        _ => false,
    }
}

/// The same RVF variant with the same registers and the same immediate value.
pub open spec fn same_rvf(x: RVF, y: RVF) -> bool {
    match (x, y) {
        (RVF::Flw(a), RVF::Flw(b)) => a.rd == b.rd && a.rs1 == b.rs1 && a.imm.value() == b.imm.value(),
        (RVF::Fsw(a), RVF::Fsw(b)) => a.rs1 == b.rs1 && a.rs2 == b.rs2 && a.imm.value() == b.imm.value(),
        (RVF::Fmadds(a), RVF::Fmadds(b)) => a.rd == b.rd && a.rs1 == b.rs1 && a.rs2 == b.rs2 && a.rs3 == b.rs3,
        (RVF::Fmsubs(a), RVF::Fmsubs(b)) => a.rd == b.rd && a.rs1 == b.rs1 && a.rs2 == b.rs2 && a.rs3 == b.rs3,
        (RVF::Fnmsubs(a), RVF::Fnmsubs(b)) => a.rd == b.rd && a.rs1 == b.rs1 && a.rs2 == b.rs2 && a.rs3 == b.rs3,
        (RVF::Fnmadds(a), RVF::Fnmadds(b)) => a.rd == b.rd && a.rs1 == b.rs1 && a.rs2 == b.rs2 && a.rs3 == b.rs3,
        (RVF::Fadds(a), RVF::Fadds(b)) => a.rd == b.rd && a.rs1 == b.rs1 && a.rs2 == b.rs2,
        (RVF::Fsubs(a), RVF::Fsubs(b)) => a.rd == b.rd && a.rs1 == b.rs1 && a.rs2 == b.rs2,
        (RVF::Fmuls(a), RVF::Fmuls(b)) => a.rd == b.rd && a.rs1 == b.rs1 && a.rs2 == b.rs2,
        (RVF::Fdivs(a), RVF::Fdivs(b)) => a.rd == b.rd && a.rs1 == b.rs1 && a.rs2 == b.rs2,
        (RVF::Fsqrts(a), RVF::Fsqrts(b)) => a.rd == b.rd && a.rs1 == b.rs1 && a.rs2 == b.rs2,
        (RVF::Fmins(a), RVF::Fmins(b)) => a.rd == b.rd && a.rs1 == b.rs1 && a.rs2 == b.rs2,
        (RVF::Fmaxs(a), RVF::Fmaxs(b)) => a.rd == b.rd && a.rs1 == b.rs1 && a.rs2 == b.rs2,
        (RVF::Fsgnjs(a), RVF::Fsgnjs(b)) => a.rd == b.rd && a.rs1 == b.rs1 && a.rs2 == b.rs2,
        (RVF::Fsgnjns(a), RVF::Fsgnjns(b)) => a.rd == b.rd && a.rs1 == b.rs1 && a.rs2 == b.rs2,
        (RVF::Fsgnjxs(a), RVF::Fsgnjxs(b)) => a.rd == b.rd && a.rs1 == b.rs1 && a.rs2 == b.rs2,
        (RVF::Feqs(a), RVF::Feqs(b)) => a.rd == b.rd && a.rs1 == b.rs1 && a.rs2 == b.rs2,
        (RVF::Flts(a), RVF::Flts(b)) => a.rd == b.rd && a.rs1 == b.rs1 && a.rs2 == b.rs2,
        (RVF::Fles(a), RVF::Fles(b)) => a.rd == b.rd && a.rs1 == b.rs1 && a.rs2 == b.rs2,
        (RVF::Fcvtws(a), RVF::Fcvtws(b)) => a.rd == b.rd && a.rs1 == b.rs1 && a.rs2 == b.rs2,
        (RVF::Fcvtwus(a), RVF::Fcvtwus(b)) => a.rd == b.rd && a.rs1 == b.rs1 && a.rs2 == b.rs2,
        (RVF::Fcvtls(a), RVF::Fcvtls(b)) => a.rd == b.rd && a.rs1 == b.rs1 && a.rs2 == b.rs2,
        (RVF::Fcvtlus(a), RVF::Fcvtlus(b)) => a.rd == b.rd && a.rs1 == b.rs1 && a.rs2 == b.rs2,
        (RVF::Fcvtsw(a), RVF::Fcvtsw(b)) => a.rd == b.rd && a.rs1 == b.rs1 && a.rs2 == b.rs2,
        (RVF::Fcvtswu(a), RVF::Fcvtswu(b)) => a.rd == b.rd && a.rs1 == b.rs1 && a.rs2 == b.rs2,
        (RVF::Fcvtsl(a), RVF::Fcvtsl(b)) => a.rd == b.rd && a.rs1 == b.rs1 && a.rs2 == b.rs2,
        (RVF::Fcvtslu(a), RVF::Fcvtslu(b)) => a.rd == b.rd && a.rs1 == b.rs1 && a.rs2 == b.rs2,
        (RVF::Fmvxw(a), RVF::Fmvxw(b)) => a.rd == b.rd && a.rs1 == b.rs1 && a.rs2 == b.rs2,
        (RVF::Fclasss(a), RVF::Fclasss(b)) => a.rd == b.rd && a.rs1 == b.rs1 && a.rs2 == b.rs2,
        (RVF::Fmvwx(a), RVF::Fmvwx(b)) => a.rd == b.rd && a.rs1 == b.rs1 && a.rs2 == b.rs2,
        _ => false,
    }
}

/// The same RVC variant with the same registers and the same immediate value.
pub open spec fn same_rvc(x: RVC, y: RVC) -> bool {
    match (x, y) {
        (RVC::Caddi4spn(a), RVC::Caddi4spn(b)) => a.rd == b.rd && a.uimm.bits == b.uimm.bits,
        (RVC::Cnop(_), RVC::Cnop(_)) => true,
        (RVC::Caddi(a), RVC::Caddi(b)) => a.rdrs1 == b.rdrs1 && a.imm.value() == b.imm.value(),
        (RVC::Cli(a), RVC::Cli(b)) => a.rdrs1 == b.rdrs1 && a.imm.value() == b.imm.value(),
        (RVC::Caddi16sp(a), RVC::Caddi16sp(b)) => a.imm.value() == b.imm.value(),
        (RVC::Caddiw(a), RVC::Caddiw(b)) => a.rdrs1 == b.rdrs1 && a.imm.value() == b.imm.value(),
        (RVC::Clw(a), RVC::Clw(b)) => a.rd == b.rd && a.rs1 == b.rs1 && a.imm.bits == b.imm.bits,
        (RVC::Csw(a), RVC::Csw(b)) => a.rs1 == b.rs1 && a.rs2 == b.rs2 && a.imm.bits == b.imm.bits,
        (RVC::Clwsp(a), RVC::Clwsp(b)) => a.rdrs1 == b.rdrs1 && a.imm.bits == b.imm.bits,
        (RVC::Cswsp(a), RVC::Cswsp(b)) => a.rs2 == b.rs2 && a.imm.bits == b.imm.bits,
        (RVC::Cld(a), RVC::Cld(b)) => a.rd == b.rd && a.rs1 == b.rs1 && a.imm.bits == b.imm.bits,
        (RVC::Csd(a), RVC::Csd(b)) => a.rs1 == b.rs1 && a.rs2 == b.rs2 && a.imm.bits == b.imm.bits,
        (RVC::Cldsp(a), RVC::Cldsp(b)) => a.rdrs1 == b.rdrs1 && a.imm.bits == b.imm.bits,
        (RVC::Csdsp(a), RVC::Csdsp(b)) => a.rs2 == b.rs2 && a.imm.bits == b.imm.bits,
        (RVC::Cslli(a), RVC::Cslli(b)) => a.rdrs1 == b.rdrs1 && a.imm.bits == b.imm.bits,
        (RVC::Csrli(a), RVC::Csrli(b)) => a.rdrs1 == b.rdrs1 && a.imm.bits == b.imm.bits,
        (RVC::Csrai(a), RVC::Csrai(b)) => a.rdrs1 == b.rdrs1 && a.imm.bits == b.imm.bits,
        (RVC::Candi(a), RVC::Candi(b)) => a.rdrs1 == b.rdrs1 && a.imm.value() == b.imm.value(),
        (RVC::Csub(a), RVC::Csub(b)) => a.rdrs1 == b.rdrs1 && a.rs2 == b.rs2,
        (RVC::Cxor(a), RVC::Cxor(b)) => a.rdrs1 == b.rdrs1 && a.rs2 == b.rs2,
        (RVC::Cor(a), RVC::Cor(b)) => a.rdrs1 == b.rdrs1 && a.rs2 == b.rs2,
        (RVC::Cand(a), RVC::Cand(b)) => a.rdrs1 == b.rdrs1 && a.rs2 == b.rs2,
        (RVC::Csubw(a), RVC::Csubw(b)) => a.rdrs1 == b.rdrs1 && a.rs2 == b.rs2,
        (RVC::Caddw(a), RVC::Caddw(b)) => a.rdrs1 == b.rdrs1 && a.rs2 == b.rs2,
        (RVC::Cj(a), RVC::Cj(b)) => a.target.value() == b.target.value(),
        (RVC::Cjal(a), RVC::Cjal(b)) => a.target.value() == b.target.value(),
        (RVC::Cjr(a), RVC::Cjr(b)) => a.rdrs1 == b.rdrs1,
        (RVC::Cjalr(a), RVC::Cjalr(b)) => a.rdrs1 == b.rdrs1,
        (RVC::Cmv(a), RVC::Cmv(b)) => a.rdrs1 == b.rdrs1 && a.rs2 == b.rs2,
        (RVC::Cadd(a), RVC::Cadd(b)) => a.rdrs1 == b.rdrs1 && a.rs2 == b.rs2,
        (RVC::Cbeqz(a), RVC::Cbeqz(b)) => a.rs1 == b.rs1 && a.off.value() == b.off.value(),
        (RVC::Cbnez(a), RVC::Cbnez(b)) => a.rs1 == b.rs1 && a.off.value() == b.off.value(),
        _ => false,
    }
}

/// The same RV32A variant with the same registers and the same immediate value.
pub open spec fn same_rv32a(x: RV32A, y: RV32A) -> bool {
    match (x, y) {
        (RV32A::Lrw(a), RV32A::Lrw(b)) => a.rd == b.rd && a.rs1 == b.rs1 && a.rs2 == b.rs2,
        (RV32A::Scw(a), RV32A::Scw(b)) => a.rd == b.rd && a.rs1 == b.rs1 && a.rs2 == b.rs2,
        (RV32A::Amoswapw(a), RV32A::Amoswapw(b)) => a.rd == b.rd && a.rs1 == b.rs1 && a.rs2 == b.rs2,
        (RV32A::Amoaddw(a), RV32A::Amoaddw(b)) => a.rd == b.rd && a.rs1 == b.rs1 && a.rs2 == b.rs2,
        (RV32A::Amoxorw(a), RV32A::Amoxorw(b)) => a.rd == b.rd && a.rs1 == b.rs1 && a.rs2 == b.rs2,
        (RV32A::Amoandw(a), RV32A::Amoandw(b)) => a.rd == b.rd && a.rs1 == b.rs1 && a.rs2 == b.rs2,
        (RV32A::Amoorw(a), RV32A::Amoorw(b)) => a.rd == b.rd && a.rs1 == b.rs1 && a.rs2 == b.rs2,
        (RV32A::Amominw(a), RV32A::Amominw(b)) => a.rd == b.rd && a.rs1 == b.rs1 && a.rs2 == b.rs2,
        (RV32A::Amomaxw(a), RV32A::Amomaxw(b)) => a.rd == b.rd && a.rs1 == b.rs1 && a.rs2 == b.rs2,
        (RV32A::Amominuw(a), RV32A::Amominuw(b)) => a.rd == b.rd && a.rs1 == b.rs1 && a.rs2 == b.rs2,
        (RV32A::Amomaxuw(a), RV32A::Amomaxuw(b)) => a.rd == b.rd && a.rs1 == b.rs1 && a.rs2 == b.rs2,
        _ => false,
    }
}

/// The same RV64A variant with the same registers and the same immediate value.
pub open spec fn same_rv64a(x: RV64A, y: RV64A) -> bool {
    match (x, y) {
        (RV64A::Lrd(a), RV64A::Lrd(b)) => a.rd == b.rd && a.rs1 == b.rs1 && a.rs2 == b.rs2,
        (RV64A::Scd(a), RV64A::Scd(b)) => a.rd == b.rd && a.rs1 == b.rs1 && a.rs2 == b.rs2,
        (RV64A::Amoswapd(a), RV64A::Amoswapd(b)) => a.rd == b.rd && a.rs1 == b.rs1 && a.rs2 == b.rs2,
        (RV64A::Amoaddd(a), RV64A::Amoaddd(b)) => a.rd == b.rd && a.rs1 == b.rs1 && a.rs2 == b.rs2,
        (RV64A::Amoxord(a), RV64A::Amoxord(b)) => a.rd == b.rd && a.rs1 == b.rs1 && a.rs2 == b.rs2,
        (RV64A::Amoandd(a), RV64A::Amoandd(b)) => a.rd == b.rd && a.rs1 == b.rs1 && a.rs2 == b.rs2,
        (RV64A::Amoord(a), RV64A::Amoord(b)) => a.rd == b.rd && a.rs1 == b.rs1 && a.rs2 == b.rs2,
        (RV64A::Amomind(a), RV64A::Amomind(b)) => a.rd == b.rd && a.rs1 == b.rs1 && a.rs2 == b.rs2,
        (RV64A::Amomaxd(a), RV64A::Amomaxd(b)) => a.rd == b.rd && a.rs1 == b.rs1 && a.rs2 == b.rs2,
        (RV64A::Amominud(a), RV64A::Amominud(b)) => a.rd == b.rd && a.rs1 == b.rs1 && a.rs2 == b.rs2,
        (RV64A::Amomaxud(a), RV64A::Amomaxud(b)) => a.rd == b.rd && a.rs1 == b.rs1 && a.rs2 == b.rs2,
        _ => false,
    }
}

/// The same RV128A variant with the same registers and the same immediate value.
pub open spec fn same_rv128a(x: RV128A, y: RV128A) -> bool {
    match (x, y) {
        (RV128A::Lrq(a), RV128A::Lrq(b)) => a.rd == b.rd && a.rs1 == b.rs1 && a.rs2 == b.rs2,
        (RV128A::Scq(a), RV128A::Scq(b)) => a.rd == b.rd && a.rs1 == b.rs1 && a.rs2 == b.rs2,
        (RV128A::Amoswapq(a), RV128A::Amoswapq(b)) => a.rd == b.rd && a.rs1 == b.rs1 && a.rs2 == b.rs2,
        (RV128A::Amoaddq(a), RV128A::Amoaddq(b)) => a.rd == b.rd && a.rs1 == b.rs1 && a.rs2 == b.rs2,
        (RV128A::Amoxorq(a), RV128A::Amoxorq(b)) => a.rd == b.rd && a.rs1 == b.rs1 && a.rs2 == b.rs2,
        (RV128A::Amoandq(a), RV128A::Amoandq(b)) => a.rd == b.rd && a.rs1 == b.rs1 && a.rs2 == b.rs2,
        (RV128A::Amoorq(a), RV128A::Amoorq(b)) => a.rd == b.rd && a.rs1 == b.rs1 && a.rs2 == b.rs2,
        (RV128A::Amominq(a), RV128A::Amominq(b)) => a.rd == b.rd && a.rs1 == b.rs1 && a.rs2 == b.rs2,
        (RV128A::Amomaxq(a), RV128A::Amomaxq(b)) => a.rd == b.rd && a.rs1 == b.rs1 && a.rs2 == b.rs2,
        (RV128A::Amominuq(a), RV128A::Amominuq(b)) => a.rd == b.rd && a.rs1 == b.rs1 && a.rs2 == b.rs2,
        (RV128A::Amomaxuq(a), RV128A::Amomaxuq(b)) => a.rd == b.rd && a.rs1 == b.rs1 && a.rs2 == b.rs2,
        _ => false,
    }
}

/// The same instruction: the same group and variant, the same registers, and the
/// same immediate values.
pub open spec fn same_instruction(i: Instruction, j: Instruction) -> bool {
    match (i, j) {
        (Instruction::RV32I(x), Instruction::RV32I(y)) => same_rv32i(x, y),
        (Instruction::RV64I(x), Instruction::RV64I(y)) => same_rv64i(x, y),
        (Instruction::RVZicsr(x), Instruction::RVZicsr(y)) => same_rvzicsr(x, y),
        (Instruction::RVF(x), Instruction::RVF(y)) => same_rvf(x, y),
        (Instruction::RVC(x), Instruction::RVC(y)) => same_rvc(x, y),
        (Instruction::RV32A(x), Instruction::RV32A(y)) => same_rv32a(x, y),
        (Instruction::RV64A(x), Instruction::RV64A(y)) => same_rv64a(x, y),
        (Instruction::RV128A(x), Instruction::RV128A(y)) => same_rv128a(x, y),
        _ => false,
    }
}

} // verus!
