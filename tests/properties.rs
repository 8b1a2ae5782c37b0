use wasm_riscv_online::decode::process16::resolve_u16;
use wasm_riscv_online::decode::process32::resolve_u32;
use wasm_riscv_online::encode::process16::encode_u16;
use wasm_riscv_online::encode::process32::encode_u32;
use wasm_riscv_online::imm::{Imm, Xlen};
use wasm_riscv_online::model::{from_register, IType, Instruction, RType, BType, CLType, RV32A, RV32I, RVC};
use wasm_riscv_online::parse::parse_line;
use wasm_riscv_online::{assemble_auto, assemble_with_xlen, disassemble, disassemble_auto, disassemble_with_xlen};

#[test]
fn disassembly_repeats_identically() {
    let a = disassemble_with_xlen("0x00a10093", 32);
    let b = disassemble_with_xlen("0x00a10093", 32);
    assert_eq!(a, b);
    assert_eq!(disassemble("00a10093"), a);
}

#[test]
fn assembled_words_disassemble_to_the_source() {
    let w = assemble_with_xlen("sd x5, -8(x2)", 64);
    assert_eq!(w, "0xfe513c23");
    assert_eq!(disassemble_with_xlen(&w, 64), "sd t0, -8(sp)");
    let w = assemble_with_xlen("bne a0, zero, -16", 32);
    assert_eq!(disassemble_with_xlen(&w, 32), "bne a0, zero, -16");
    let w = assemble_with_xlen("c.lw a0, 4(a1)", 32);
    assert_eq!(disassemble_with_xlen(&w, 32), "c.lw a0, 4(a1)");
    let w = assemble_with_xlen("srai x3, x4, 33", 64);
    assert_eq!(disassemble_with_xlen(&w, 64), "srai gp, tp, 33");
}

#[test]
fn shared_remainder_word_reads_by_width() {
    let w = assemble_with_xlen("rem a0, a1, a2", 64);
    assert_eq!(w, assemble_with_xlen("remu a0, a1, a2", 64));
    assert_eq!(disassemble_with_xlen(&w, 32), "rem a0, a1, a2");
    assert_eq!(disassemble_with_xlen(&w, 64), "remu a0, a1, a2");
}

#[test]
fn wide_instructions_fail_at_32_bits() {
    assert!(assemble_with_xlen("addw a0, a0, a1", 32).starts_with("Error:"));
    assert!(assemble_with_xlen("c.ld a0, 8(a1)", 32).starts_with("Error:"));
    assert!(assemble_with_xlen("c.addiw a0, 1", 32).starts_with("Error:"));
    assert!(disassemble_with_xlen("0x00013083", 32).starts_with("Error:"));
    assert_eq!(disassemble_with_xlen("0x00013083", 64), "ld ra, 0(sp)");
    assert!(disassemble_with_xlen("0x6188", 32).starts_with("Error:"));
    assert_eq!(disassemble_with_xlen("0x6188", 64), "c.ld a0, 0(a1)");
    let ld = Instruction::RV64I(wasm_riscv_online::model::RV64I::Ld(IType {
        rd: 1,
        rs1: 2,
        funct3: 0,
        imm: Imm { bits: 0, width: 12 },
    }));
    assert!(encode_u32(&ld, Xlen::X32).is_err());
    assert_eq!(encode_u32(&ld, Xlen::X128), Ok(0x00013083));
}

#[test]
fn immediates_beyond_their_width_fail() {
    assert_eq!(assemble_with_xlen("addi x1, x2, 2047", 32), "0x7ff10093");
    assert_eq!(assemble_with_xlen("addi x1, x2, -2048", 32), "0x80010093");
    assert!(assemble_with_xlen("addi x1, x2, 2048", 32).starts_with("Error:"));
    assert!(assemble_with_xlen("addi x1, x2, -2049", 32).starts_with("Error:"));
    assert!(assemble_with_xlen("slli x1, x1, 32", 32).starts_with("Error:"));
    assert_eq!(assemble_with_xlen("slli x1, x1, 32", 64), "0x02009093");
    assert!(assemble_with_xlen("beq x1, x2, 4096", 32).starts_with("Error:"));
    assert!(assemble_with_xlen("c.addi a0, 32", 32).starts_with("Error:"));
    assert!(assemble_with_xlen("lui x1, 0x100000", 32).starts_with("Error:"));
    let wide = Instruction::RV32I(RV32I::Addi(IType { rd: 1, rs1: 2, funct3: 0, imm: Imm { bits: 4096, width: 32 } }));
    assert!(encode_u32(&wide, Xlen::X32).is_err());
}

#[test]
fn misaligned_offsets_fail() {
    assert!(assemble_with_xlen("jal x1, 3", 32).starts_with("Error:"));
    assert!(assemble_with_xlen("c.j 3", 32).starts_with("Error:"));
    assert!(assemble_with_xlen("c.lw a0, 2(a1)", 32).starts_with("Error:"));
    assert!(assemble_with_xlen("c.ld a0, 4(a1)", 64).starts_with("Error:"));
    let odd = Instruction::RV32I(RV32I::Beq(BType { rs1: 1, rs2: 2, funct3: 0, imm: Imm { bits: 7, width: 13 } }));
    assert!(encode_u32(&odd, Xlen::X32).is_err());
    assert!(parse_line("beq x1, x2, 7", Xlen::X32).is_err());
}

#[test]
fn compressed_register_slots_take_x8_to_x15() {
    assert!(assemble_with_xlen("c.lw x5, 0(a1)", 32).starts_with("Error:"));
    assert!(assemble_with_xlen("c.and x1, a1", 32).starts_with("Error:"));
    let bad = Instruction::RVC(RVC::Clw(CLType { rd: 16, rs1: 9, funct3: 0, imm: Imm { bits: 0, width: 7 } }));
    assert!(encode_u16(&bad, Xlen::X32).is_err());
    let good = Instruction::RVC(RVC::Clw(CLType { rd: 15, rs1: 9, funct3: 0, imm: Imm { bits: 0, width: 7 } }));
    assert_eq!(encode_u16(&good, Xlen::X32), Ok(0x409c));
}

#[test]
fn compressed_encodings() {
    assert_eq!(assemble_with_xlen("c.addi4spn a0, 16", 32), "0x00000808");
    assert_eq!(assemble_with_xlen("c.addi a0, -1", 32), "0x0000157d");
    assert_eq!(assemble_with_xlen("c.lw a0, 0(a1)", 32), "0x00004188");
    assert_eq!(assemble_with_xlen("c.sw a0, 4(a1)", 32), "0x0000c1c8");
    assert_eq!(assemble_with_xlen("c.slli a0, 3", 32), "0x0000050e");
    assert_eq!(assemble_with_xlen("c.srli a0, 1", 32), "0x00008105");
    assert_eq!(assemble_with_xlen("c.srai a0, 1", 32), "0x00008505");
    assert_eq!(assemble_with_xlen("c.andi a0, -1", 32), "0x0000997d");
    assert_eq!(assemble_with_xlen("c.and a0, a1", 32), "0x00008d6d");
    assert_eq!(assemble_with_xlen("c.mv a0, a1", 32), "0x0000852e");
    assert_eq!(assemble_with_xlen("c.add a0, a1", 32), "0x0000952e");
    assert_eq!(assemble_with_xlen("c.jr ra", 32), "0x00008082");
    assert_eq!(assemble_with_xlen("c.jalr ra", 32), "0x00009082");
    assert_eq!(assemble_with_xlen("c.j 8", 32), "0x0000a021");
    assert_eq!(assemble_with_xlen("c.jal 8", 32), "0x00002021");
    assert_eq!(assemble_with_xlen("c.beqz a0, 8", 32), "0x0000c501");
    assert_eq!(assemble_with_xlen("c.bnez a0, 8", 32), "0x0000e501");
    assert_eq!(assemble_with_xlen("c.lwsp a0, 12(sp)", 32), "0x00004532");
    assert_eq!(assemble_with_xlen("c.swsp a0, 12(sp)", 32), "0x0000c62a");
    assert_eq!(assemble_with_xlen("c.addi16sp -64", 32), "0x00007139");
    assert!(assemble_with_xlen("c.lwsp a0, 12(a1)", 32).starts_with("Error:"));
}

#[test]
fn compressed_words_disassemble() {
    assert_eq!(disassemble("8082"), "c.jr ra");
    assert_eq!(disassemble("0x157d"), "c.addi a0, -1");
    assert_eq!(disassemble("0001"), "c.nop");
    assert!(disassemble("0000").starts_with("Error:"));
    let c = resolve_u16(0x852e, Xlen::X32).unwrap();
    assert_eq!(c.disassembly(), "c.mv a0, a1");
}

#[test]
fn disassembly_text_forms() {
    assert_eq!(disassemble("0x123451b7"), "lui gp, 74565");
    assert_eq!(disassemble("0x00c000ef"), "jal ra, 12");
    assert_eq!(disassemble("0x000100e7"), "jalr ra, 0(sp)");
    assert_eq!(disassemble("0x00512223"), "sw t0, 4(sp)");
    assert_eq!(disassemble("0x305110f3"), "csrrw ra, 773, sp");
    assert_eq!(disassemble("0x0000000f"), "fence");
    assert_eq!(disassemble("0x00100073"), "ebreak");
    assert_eq!(disassemble("0xfff10093"), "addi ra, sp, -1");
    assert_eq!(disassemble("0x02b50533"), "mul a0, a0, a1");
    assert_eq!(disassemble("0x00b57553"), "fadd.s a0, a0, a1");
}

#[test]
fn atomic_text_forms() {
    assert_eq!(disassemble("100120af"), "lr.w ra, (sp)");
    assert_eq!(disassemble("183120af"), "sc.w ra, gp, (sp)");
    assert_eq!(disassemble_with_xlen("083130af", 64), "amoswap.d ra, gp, (sp)");
    assert_eq!(disassemble_with_xlen("e031402f", 128), "amomaxu.q zero, gp, (sp)");
    assert!(disassemble("140120af").contains("lr.w"));
    let a = RV32A::Amoaddw(RType { rd: 1, rs1: 2, rs2: 3, funct3: 2, funct7: 0 });
    assert_eq!(a.to_string(), "amoadd.w ra, gp, (sp)");
}

#[test]
fn error_texts() {
    assert_eq!(disassemble_with_xlen("00a10093", 16), "Error: invalid xlen, must be 32, 64, or 128");
    assert_eq!(assemble_with_xlen("nop", 48), "Error: invalid xlen, must be 32, 64, or 128");
    assert_eq!(disassemble("10000"), "Error: invalid 16-bit instruction");
    assert_eq!(disassemble("ffffffff"), "Error: unsupported 32-bit instruction");
    assert_eq!(disassemble(""), "Error: invalid input");
    assert_eq!(disassemble("1ffffffff"), "Error: invalid input");
    assert!(assemble_with_xlen("frobnicate x1", 32).starts_with("Error:"));
    assert!(assemble_with_xlen("addi x1, x2", 32).starts_with("Error:"));
    assert!(assemble_with_xlen("addi x1, x99, 1", 32).starts_with("Error:"));
    assert!(assemble_with_xlen("addi x1, x2, x3", 32).starts_with("Error:"));
    assert!(assemble_with_xlen("lw x1, 4x2", 32).starts_with("Error:"));
    assert!(assemble_with_xlen("csrrwi x0, 0x1000, 3", 32).starts_with("Error:"));
    assert!(assemble_with_xlen("csrrwi x0, 0xc00, 32", 32).starts_with("Error:"));
    assert!(assemble_with_xlen("c.jal 8", 64).starts_with("Error:"));
    assert!(assemble_with_xlen("# only a comment", 32).starts_with("Error:"));
}

#[test]
fn lines_are_handled_one_by_one() {
    let out = assemble_with_xlen("addi x1, x2, 10\n\n  bogus\r\necall # trap\n", 32);
    let lines: Vec<&str> = out.split('\n').collect();
    assert_eq!(lines.len(), 3);
    assert_eq!(lines[0], "0x00a10093");
    assert!(lines[1].starts_with("Error: "));
    assert_eq!(lines[2], "0x00000073");
    assert_eq!(assemble_with_xlen("", 32), "");
}

#[test]
fn auto_width_order() {
    assert_eq!(assemble_auto("addi x1, x2, 10\nld x1, 0(x2)"), "0x00a10093\n0x00013083");
    assert!(assemble_auto("frobnicate").starts_with("Error:"));
    assert_eq!(disassemble_auto("0x00013083"), "ld ra, 0(sp)");
    assert_eq!(disassemble_auto("0x02b57533"), "rem a0, a0, a1");
    assert_eq!(disassemble_auto("0x2021"), "c.jal 8");
    assert_eq!(disassemble_auto("0x6188"), "c.ld a0, 0(a1)");
    assert!(disassemble_auto("ffffffff").starts_with("Error:"));
}

#[test]
fn register_names() {
    assert_eq!(from_register("fp"), Some(8));
    assert_eq!(from_register("s0"), Some(8));
    assert_eq!(from_register(" X31 "), Some(31));
    assert_eq!(from_register("x032"), None);
    assert_eq!(from_register("x007"), Some(7));
    assert_eq!(from_register("S11"), Some(27));
    assert_eq!(from_register("zero"), Some(0));
    assert_eq!(from_register("x"), None);
    assert_eq!(from_register("t7"), None);
}

#[test]
fn operand_syntax_variants() {
    assert_eq!(assemble_with_xlen("JALR x1, x2, 0", 32), "0x000100e7");
    assert_eq!(assemble_with_xlen("fencei", 32), "0x0000100f");
    assert_eq!(assemble_with_xlen("addi  x1 ,  x2 , +0xA // note", 32), "0x00a10093");
    assert_eq!(assemble_with_xlen("lui x1, -1", 32), "0xfffff0b7");
    assert_eq!(assemble_with_xlen("csrrs x5, 3, x0", 32), "0x003022f3");
    let i = parse_line("andi a0, a1, -1", Xlen::X32).unwrap();
    assert_eq!(i.disassembly(), "andi a0, a1, -1");
    assert_eq!(encode_u32(&i, Xlen::X32), Ok(0xfff5f513));
    assert_eq!(resolve_u32(0xfff5f513, Xlen::X32).unwrap().disassembly(), "andi a0, a1, -1");
}

#[test]
fn groups_inject_into_instructions() {
    let i: Instruction = RV32I::Ecall.into();
    assert_eq!(i, Instruction::RV32I(RV32I::Ecall));
    assert_eq!(i.disassembly(), "ecall");
    let c = Instruction::from(RVC::Cjr(wasm_riscv_online::model::CRType { rdrs1: 1, rs2: 0, funct4: 0 }));
    assert_eq!(encode_u16(&c, Xlen::X64), Ok(0x8082));
    assert!(encode_u32(&c, Xlen::X64).is_err());
    assert!(encode_u16(&i, Xlen::X32).is_err());
}

#[test]
fn addiw_halfword_is_jal_at_32_bits() {
    assert_eq!(assemble_with_xlen("c.addiw a0, 1", 64), "0x00002505");
    assert_eq!(disassemble_with_xlen("2505", 64), "c.addiw a0, 1");
    assert!(disassemble_with_xlen("2505", 32).starts_with("c.jal"));
}

#[test]
fn unicode_whitespace_separates_and_trims() {
    assert_eq!(assemble_with_xlen("fence\u{a0}rw, rw", 32), "0x0000000f");
    assert_eq!(assemble_with_xlen("fence rw, rw", 32), "0x0000000f");
    assert_eq!(assemble_with_xlen("ecall\n\u{a0}", 32), "0x00000073");
    assert_eq!(assemble_with_xlen("\u{3000}addi x1,\u{2003}x2, 10\u{85}", 32), "0x00a10093");
    assert_eq!(from_register("\u{a0}sp\u{2028}"), Some(2));
}

#[test]
fn line_errors_are_fixed_per_line() {
    assert_eq!(assemble_with_xlen("frobnicate x1", 32), "Error: unsupported instruction");
    assert_eq!(
        assemble_with_xlen("addi x1, x2", 32),
        "Error: invalid operands for this instruction or register width"
    );
    assert_eq!(
        assemble_with_xlen("ld x1, 0(x2)", 32),
        "Error: invalid operands for this instruction or register width"
    );
    assert_eq!(
        assemble_with_xlen("c.lw a0, 2(a1)", 32),
        "Error: no encoding for these operands at this register width"
    );
    assert_eq!(assemble_with_xlen("# only a comment", 32), "Error: empty line");
    let batch = assemble_with_xlen("frobnicate x1\naddi x1, x2\necall", 32);
    let single: Vec<String> = ["frobnicate x1", "addi x1, x2", "ecall"]
        .iter()
        .map(|l| assemble_with_xlen(l, 32))
        .collect();
    assert_eq!(batch, single.join("\n"));
    assert_eq!(assemble_auto("frobnicate"), "Error: unsupported instruction");
}

#[test]
fn immediate_constructors_clear_high_bits() {
    let i = Imm::new(0x1fff, 12);
    assert_eq!(i.low_u32(), 0xfff);
    assert_eq!(i.signed(), -1);
    let u = wasm_riscv_online::imm::Uimm::new(37, 5);
    assert_eq!(u.low32(), 5);
    assert_eq!(Imm::new(0xffff_ffff, 32).signed(), -1);
}
