use wasm_riscv_online::{assemble_auto, assemble_with_xlen, disassemble, disassemble_auto, disassemble_with_xlen};

#[test]
fn addi_assembles_and_disassembles() {
    assert_eq!(assemble_with_xlen("addi x1, x2, 10", 32), "0x00a10093");
    let text = disassemble_with_xlen("0x00a10093", 32);
    assert!(text.contains("addi"));
    assert!(text.contains("ra"));
    assert!(text.contains("sp"));
    assert!(text.contains("10"));
    assert_eq!(text, "addi ra, sp, 10");
}

#[test]
fn load_and_store_words() {
    assert_eq!(assemble_with_xlen("lw x5, 0(x2)", 32), "0x00012283");
    assert_eq!(assemble_with_xlen("sw x5, 4(x2)", 32), "0x00512223");
}

#[test]
fn branch_offsets_must_be_even() {
    assert_eq!(assemble_with_xlen("beq x1, x2, 8", 32), "0x00208463");
    assert!(assemble_with_xlen("beq x1, x2, 7", 32).starts_with("Error:"));
}

#[test]
fn jumps() {
    assert_eq!(assemble_with_xlen("jal x1, 12", 32), "0x00c000ef");
    assert_eq!(assemble_with_xlen("jalr x1, 0(x2)", 32), "0x000100e7");
}

#[test]
fn upper_immediate_and_csr() {
    assert_eq!(assemble_with_xlen("lui x3, 0x12345", 32), "0x123451b7");
    assert_eq!(assemble_with_xlen("csrrw x1, 0x305, x2", 32), "0x305110f3");
    assert_eq!(assemble_with_xlen("csrrwi x0, 0xc00, 3", 32), "0xc001d073");
}

#[test]
fn fences_and_environment_calls() {
    assert_eq!(assemble_with_xlen("fence", 32), "0x0000000f");
    assert_eq!(assemble_with_xlen("fence.i", 32), "0x0000100f");
    assert_eq!(assemble_with_xlen("ecall", 32), "0x00000073");
    assert_eq!(assemble_with_xlen("ebreak", 32), "0x00100073");
}

#[test]
fn doubleword_load_needs_wide_registers() {
    assert!(assemble_with_xlen("ld x1, 0(x2)", 32).starts_with("Error:"));
    assert_eq!(assemble_with_xlen("ld x1, 0(x2)", 64), "0x00013083");
}

#[test]
fn atomics_by_width() {
    assert!(disassemble_with_xlen("100120af", 32).contains("lr.w"));
    assert!(disassemble_with_xlen("1001402f", 128).contains("lr.q"));
    assert!(disassemble_with_xlen("1001402f", 32).starts_with("Error:"));
}

#[test]
fn malformed_hex_input() {
    assert!(disassemble("invalid_hex").starts_with("Error:"));
}

#[test]
fn auto_width_picks_wide_for_word_ops() {
    assert_eq!(assemble_auto("addw a0, a0, a1"), "0x00b5053b");
    assert_eq!(assemble_with_xlen("addiw a0, a0, 1", 64), "0x0015051b");
    assert!(disassemble_auto("1001402f").contains("lr.q"));
}
