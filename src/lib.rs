//! A RISC-V assembler and disassembler: decodes raw instruction words into a typed
//! model with a textual disassembly, and assembles text lines back into words.
//!
//! The host-facing operations take and return strings: hexadecimal words in,
//! disassembly out; assembly lines in, hexadecimal words out. Every failure is
//! reported in the output text with the prefix `Error: `.
use vstd::prelude::*;

pub mod imm;
pub mod isa;
pub mod text;
pub mod model;
pub mod decode;
pub mod encode;
pub mod parse;
pub mod laws;
pub mod roundtrip;
pub mod roundtrip16;

use decode::process16::{decode16, resolve_u16};
use decode::process32::{decode32, resolve_u32};
use encode::process16::{encode16, encode_u16};
use encode::process32::{encode32, encode_u32};
use imm::Xlen;
use model::Instruction;
use parse::{dispatch, known, parse_chars, parse_spec, parse_tokens, tokenize, tokens};
use text::{
    bounded_digits, chars_of, hex8, join_lines, parse_digits, pieces, split_pieces, to_hex_u32,
    views,
};

verus! {

/// The register width named by a bit count: 32, 64 or 128.
pub open spec fn xlen_of(bits: u32) -> Option<Xlen> {
    if bits == 32 {
        Some(Xlen::X32)
    } else if bits == 64 {
        Some(Xlen::X64)
    } else if bits == 128 {
        Some(Xlen::X128)
    } else {
        None
    }
}

pub fn xlen_from_bits(bits: u32) -> (r: Option<Xlen>)
    ensures
        r == xlen_of(bits),
{
    if bits == 32 {
        Some(Xlen::X32)
    } else if bits == 64 {
        Some(Xlen::X64)
    } else if bits == 128 {
        Some(Xlen::X128)
    } else {
        None
    }
}

/// The word a hexadecimal input denotes: an optional `0x`/`0X` prefix, an
/// optional `+`, then hexadecimal digits whose value fits 32 bits.
pub open spec fn hex_value(s: Seq<char>) -> Option<u32> {
    let body = if s.len() >= 2 && s[0] == '0' && (s[1] == 'x' || s[1] == 'X') {
        s.subrange(2, s.len() as int)
    } else {
        s
    };
    let digits = if body.len() > 0 && body[0] == '+' {
        body.drop_first()
    } else {
        body
    };
    match bounded_digits(digits, 16, 0xffff_ffff) {
        Some(v) => Some(v as u32),
        None => None,
    }
}

fn input_to_u32(s: &Vec<char>) -> (r: Option<u32>)
    ensures
        r == hex_value(s@),
{
    let n = s.len();
    let start: usize = if n >= 2 && s[0] == '0' && (s[1] == 'x' || s[1] == 'X') {
        2
    } else {
        0
    };
    let ghost body = s@.subrange(start as int, n as int);
    assert(start == 0 ==> body =~= s@);
    let from: usize = if start < n && s[start] == '+' {
        start + 1
    } else {
        start
    };
    assert(from > start ==> body.drop_first() =~= s@.subrange(from as int, n as int));
    match parse_digits(s, from, n, 16, 0xffff_ffff) {
        Some(v) => Some(v as u32),
        None => None,
    }
}

/// A word is compressed when its two lowest bits are not both set.
pub open spec fn is_compressed(v: u32) -> bool {
    v % 4 != 3
}

/// The disassembly of a word at one register width, or the error text.
pub open spec fn render(v: u32, x: Xlen) -> Seq<char> {
    if is_compressed(v) {
        if v > 0xffff {
            "Error: invalid 16-bit instruction"@
        } else {
            match decode16(v as u16, x) {
                Some(c) => Instruction::RVC(c).text(),
                None => "Error: unsupported 16-bit instruction"@,
            }
        }
    } else {
        match decode32(v, x) {
            Some(i) => i.text(),
            None => "Error: unsupported 32-bit instruction"@,
        }
    }
}

/// The disassembly of a hexadecimal input at one register width, or the error text.
pub open spec fn disassemble_text(input: Seq<char>, x: Xlen) -> Seq<char> {
    match hex_value(input) {
        None => "Error: invalid input"@,
        Some(v) => render(v, x),
    }
}

/// The first register width, in the order 32, 64, 128, at which a decode succeeds.
pub open spec fn first_width(ok32: bool, ok64: bool, ok128: bool) -> Option<Xlen> {
    if ok32 {
        Some(Xlen::X32)
    } else if ok64 {
        Some(Xlen::X64)
    } else if ok128 {
        Some(Xlen::X128)
    } else {
        None
    }
}

/// The disassembly of a word at the first register width that decodes it.
pub open spec fn render_auto(v: u32) -> Seq<char> {
    if is_compressed(v) {
        if v > 0xffff {
            "Error: invalid 16-bit instruction"@
        } else {
            let w = v as u16;
            match first_width(
                decode16(w, Xlen::X32) is Some,
                decode16(w, Xlen::X64) is Some,
                decode16(w, Xlen::X128) is Some,
            ) {
                Some(x) => render(v, x),
                None => "Error: unsupported 16-bit instruction"@,
            }
        }
    } else {
        match first_width(
            decode32(v, Xlen::X32) is Some,
            decode32(v, Xlen::X64) is Some,
            decode32(v, Xlen::X128) is Some,
        ) {
            Some(x) => render(v, x),
            None => "Error: unsupported 32-bit instruction"@,
        }
    }
}

fn render_word(v: u32, x: Xlen) -> (r: String)
    ensures
        r@ == render(v, x),
{
    if v % 4 != 3 {
        if v > 0xffff {
            "Error: invalid 16-bit instruction".to_owned()
        } else {
            match resolve_u16(v as u16, x) {
                Ok(i) => i.disassembly(),
                Err(_) => "Error: unsupported 16-bit instruction".to_owned(),
            }
        }
    } else {
        match resolve_u32(v, x) {
            Ok(i) => i.disassembly(),
            Err(_) => "Error: unsupported 32-bit instruction".to_owned(),
        }
    }
}

/// Disassembles a hexadecimal instruction word at a 32-bit register width.
pub fn disassemble(input: &str) -> (r: String)
    ensures
        r@ == disassemble_text(input@, Xlen::X32),
{
    let chars = chars_of(input);
    match input_to_u32(&chars) {
        Some(v) => render_word(v, Xlen::X32),
        None => "Error: invalid input".to_owned(),
    }
}

/// Disassembles a hexadecimal instruction word at a register width of 32, 64 or 128 bits.
pub fn disassemble_with_xlen(input: &str, xlen_bits: u32) -> (r: String)
    ensures
        xlen_of(xlen_bits) is None ==> r@ == "Error: invalid xlen, must be 32, 64, or 128"@,
        xlen_of(xlen_bits) matches Some(x) ==> r@ == disassemble_text(input@, x),
{
    let x = match xlen_from_bits(xlen_bits) {
        Some(x) => x,
        None => return "Error: invalid xlen, must be 32, 64, or 128".to_owned(),
    };
    let chars = chars_of(input);
    match input_to_u32(&chars) {
        Some(v) => render_word(v, x),
        None => "Error: invalid input".to_owned(),
    }
}

/// Disassembles a hexadecimal instruction word at the first register width, in the
/// order 32, 64, 128, that decodes it.
pub fn disassemble_auto(input: &str) -> (r: String)
    ensures
        hex_value(input@) is None ==> r@ == "Error: invalid input"@,
        hex_value(input@) matches Some(v) ==> r@ == render_auto(v),
{
    let chars = chars_of(input);
    let v = match input_to_u32(&chars) {
        Some(v) => v,
        None => return "Error: invalid input".to_owned(),
    };
    if v % 4 != 3 {
        if v > 0xffff {
            return "Error: invalid 16-bit instruction".to_owned();
        }
        let w = v as u16;
        let x = if resolve_u16(w, Xlen::X32).is_ok() {
            Xlen::X32
        } else if resolve_u16(w, Xlen::X64).is_ok() {
            Xlen::X64
        } else if resolve_u16(w, Xlen::X128).is_ok() {
            Xlen::X128
        } else {
            return "Error: unsupported 16-bit instruction".to_owned();
        };
        render_word(v, x)
    } else {
        let x = if resolve_u32(v, Xlen::X32).is_ok() {
            Xlen::X32
        } else if resolve_u32(v, Xlen::X64).is_ok() {
            Xlen::X64
        } else if resolve_u32(v, Xlen::X128).is_ok() {
            Xlen::X128
        } else {
            return "Error: unsupported 32-bit instruction".to_owned();
        };
        render_word(v, x)
    }
}

/// The word one assembly line becomes at one register width, if any: compressed
/// instructions take the 16-bit encoding (zero-extended), all others the 32-bit one.
pub open spec fn assemble_word(line: Seq<char>, x: Xlen) -> Option<u32> {
    match parse_spec(line, x) {
        None => None,
        Some(i) => match i {
            Instruction::RVC(c) => match encode16(c, x) {
                Some(h) => Some(h as u32),
                None => None,
            },
            _ => encode32(i, x),
        },
    }
}

/// The word one assembly line becomes at the first register width, in the order
/// 32, 64, 128, at which it assembles.
pub open spec fn assemble_word_auto(line: Seq<char>) -> Option<u32> {
    match first_width(
        assemble_word(line, Xlen::X32) is Some,
        assemble_word(line, Xlen::X64) is Some,
        assemble_word(line, Xlen::X128) is Some,
    ) {
        Some(x) => assemble_word(line, x),
        None => None,
    }
}

/// Why a line has no word: it is blank, its mnemonic is unknown, its operands
/// (or the register width) are rejected, or the instruction has no encoding.
pub open spec fn line_error(line: Seq<char>, x: Xlen) -> Seq<char> {
    match tokens(line) {
        None => "empty line"@,
        Some((m, ops)) => if !known(m, ops, x) {
            "unsupported instruction"@
        } else if dispatch(m, ops, x) is None {
            "invalid operands for this instruction or register width"@
        } else {
            "no encoding for these operands at this register width"@
        },
    }
}

/// The output line for one input line at one register width.
pub open spec fn line_output(line: Seq<char>, x: Xlen) -> Seq<char> {
    match assemble_word(line, x) {
        Some(w) => hex8(w),
        None => "Error: "@ + line_error(line, x),
    }
}

/// The output line for one input line at the first width that assembles it;
/// when none does, the error is the one at 128 bits.
pub open spec fn line_output_auto(line: Seq<char>) -> Seq<char> {
    match assemble_word_auto(line) {
        Some(w) => hex8(w),
        None => "Error: "@ + line_error(line, Xlen::X128),
    }
}

/// The input lines that carry text, trimmed.
pub open spec fn source_lines(input: Seq<char>) -> Seq<Seq<char>> {
    pieces(input, '\n')
}

fn error_text(msg: &str) -> (o: String)
    ensures
        o@ == "Error: "@ + msg@,
{
    let mut o = "Error: ".to_owned();
    o.append(msg);
    o
}

fn line_error_text(line: &Vec<char>, x: Xlen) -> (o: String)
    ensures
        o@ == "Error: "@ + line_error(line@, x),
{
    match tokenize(line) {
        None => error_text("empty line"),
        Some((m, ops)) => match parse_tokens(&m, &ops, x) {
            None => error_text("unsupported instruction"),
            Some(Err(_)) => error_text("invalid operands for this instruction or register width"),
            Some(Ok(_)) => error_text("no encoding for these operands at this register width"),
        },
    }
}

fn word_of_line(line: &Vec<char>, x: Xlen) -> (r: Result<u32, String>)
    ensures
        r matches Ok(w) ==> assemble_word(line@, x) == Some(w),
        r is Err <==> assemble_word(line@, x) is None,
{
    let inst = parse_chars(line, x)?;
    match inst {
        Instruction::RVC(_) => {
            let h = encode_u16(&inst, x)?;
            Ok(h as u32)
        },
        _ => encode_u32(&inst, x),
    }
}

fn assemble_line(line: &Vec<char>, x: Xlen) -> (o: String)
    ensures
        o@ == line_output(line@, x),
{
    match word_of_line(line, x) {
        Ok(w) => to_hex_u32(w),
        Err(_) => line_error_text(line, x),
    }
}

fn assemble_line_auto(line: &Vec<char>) -> (o: String)
    ensures
        o@ == line_output_auto(line@),
{
    match word_of_line(line, Xlen::X32) {
        Ok(w) => to_hex_u32(w),
        Err(_) => match word_of_line(line, Xlen::X64) {
            Ok(w) => to_hex_u32(w),
            Err(_) => match word_of_line(line, Xlen::X128) {
                Ok(w) => to_hex_u32(w),
                Err(_) => line_error_text(line, Xlen::X128),
            },
        },
    }
}

/// Assembles every non-blank line at a register width of 32, 64 or 128 bits.
/// Line `k` of the output is the hexadecimal word of the `k`-th non-blank input
/// line, or an error text for it; a bad line does not stop the others.
pub fn assemble_with_xlen(input: &str, xlen_bits: u32) -> (r: String)
    ensures
        xlen_of(xlen_bits) is None ==> r@ == "Error: invalid xlen, must be 32, 64, or 128"@,
        xlen_of(xlen_bits) matches Some(x) ==> r@ == join_lines(
            source_lines(input@).map_values(|l: Seq<char>| line_output(l, x)),
        ),
{
    let x = match xlen_from_bits(xlen_bits) {
        Some(x) => x,
        None => return "Error: invalid xlen, must be 32, 64, or 128".to_owned(),
    };
    let chars = chars_of(input);
    let lines = split_pieces(&chars, '\n');
    let mut out = String::new();
    let ghost mut outs: Seq<Seq<char>> = Seq::empty();
    let mut k: usize = 0;
    while k < lines.len()
        invariant
            k <= lines.len(),
            views(lines@) == source_lines(input@),
            outs.len() == k,
            out@ == join_lines(outs),
            forall|j: int|
                0 <= j < k ==> #[trigger] outs[j] == line_output(source_lines(input@)[j], x),
        decreases lines.len() - k,
    {
        let o = assemble_line(&lines[k], x);
        proof {
            assert(views(lines@)[k as int] == lines@[k as int]@);
        }
        if k > 0 {
            out.append("\n");
        }
        out.append(o.as_str());
        let ghost prev = outs;
        proof {
            outs = outs.push(o@);
            reveal_strlit("\n");
            assert(outs.drop_last() =~= prev);
            assert(outs[k as int] == o@);
        }
        assert(out@ =~= join_lines(outs));
        k = k + 1;
    }
    assert(outs =~= source_lines(input@).map_values(|l: Seq<char>| line_output(l, x)));
    out
}

/// Assembles every non-blank line, each at the first register width, in the order
/// 32, 64, 128, at which it assembles.
pub fn assemble_auto(input: &str) -> (r: String)
    ensures
        r@ == join_lines(source_lines(input@).map_values(|l: Seq<char>| line_output_auto(l))),
{
    let chars = chars_of(input);
    let lines = split_pieces(&chars, '\n');
    let mut out = String::new();
    let ghost mut outs: Seq<Seq<char>> = Seq::empty();
    let mut k: usize = 0;
    while k < lines.len()
        invariant
            k <= lines.len(),
            views(lines@) == source_lines(input@),
            outs.len() == k,
            out@ == join_lines(outs),
            forall|j: int|
                0 <= j < k ==> #[trigger] outs[j] == line_output_auto(source_lines(input@)[j]),
        decreases lines.len() - k,
    {
        let o = assemble_line_auto(&lines[k]);
        proof {
            assert(views(lines@)[k as int] == lines@[k as int]@);
        }
        if k > 0 {
            out.append("\n");
        }
        out.append(o.as_str());
        let ghost prev = outs;
        proof {
            outs = outs.push(o@);
            reveal_strlit("\n");
            assert(outs.drop_last() =~= prev);
            assert(outs[k as int] == o@);
        }
        assert(out@ =~= join_lines(outs));
        k = k + 1;
    }
    assert(outs =~= source_lines(input@).map_values(|l: Seq<char>| line_output_auto(l)));
    out
}

} // verus!
