//! The assembler front end: one line of text to one instruction. A line loses its
//! comment and surrounding whitespace; its first word, lower-cased, is the mnemonic;
//! the rest splits at commas into trimmed, non-empty operands.
use vstd::prelude::*;
use crate::imm::Xlen;
use crate::model::Instruction;
use crate::text::{
    chars_of, is_space, lower_seq, lower_vec, pieces, slice_vec, space, split_pieces, strip_comment,
    strip_comment_vec, trim, trim_vec, views,
};

pub mod common;
pub mod forms;
pub mod rv_i;
pub mod rvc;
pub mod system;
pub mod zicsr;

use rv_i::base_parse;
use rvc::rvc_parse;
use system::system_parse;
use zicsr::csr_parse;

verus! {

/// Index of the first whitespace at or after `i`, or the length.
pub open spec fn word_end(s: Seq<char>, i: int) -> int
    decreases s.len() - i,
{
    if i < 0 || i >= s.len() {
        s.len() as int
    } else if is_space(s[i]) {
        i
    } else {
        word_end(s, i + 1)
    }
}

/// The operand list of the text after the mnemonic.
pub open spec fn operands(rest: Seq<char>) -> Seq<Seq<char>> {
    pieces(rest, ',')
}

/// The lower-cased mnemonic and the operands of a line, unless it is blank.
pub open spec fn tokens(line: Seq<char>) -> Option<(Seq<char>, Seq<Seq<char>>)> {
    let raw = trim(strip_comment(line));
    if raw.len() == 0 {
        None
    } else {
        let k = word_end(raw, 0);
        Some((lower_seq(raw.subrange(0, k)), operands(raw.subrange(k, raw.len() as int))))
    }
}

/// The sub-parsers in turn: compressed, CSR, system, base integer. The first that
/// knows the mnemonic decides.
pub open spec fn dispatch(m: Seq<char>, ops: Seq<Seq<char>>, x: Xlen) -> Option<Instruction> {
    match rvc_parse(m, ops, x) {
        Some(r) => r,
        None => match csr_parse(m, ops, x) {
            Some(r) => r,
            None => match system_parse(m) {
                Some(i) => Some(i),
                None => match base_parse(m, ops, x) {
                    Some(r) => r,
                    None => None,
                },
            },
        },
    }
}

/// The instruction a line of assembly denotes at the given register width, if any.
pub open spec fn parse_spec(line: Seq<char>, x: Xlen) -> Option<Instruction> {
    match tokens(line) {
        None => None,
        Some((m, ops)) => dispatch(m, ops, x),
    }
}

/// Splits a line into its lower-cased mnemonic and its operands, unless it is blank.
pub fn tokenize(line: &Vec<char>) -> (r: Option<(Vec<char>, Vec<Vec<char>>)>)
    ensures
        r is None <==> tokens(line@) is None,
        r matches Some(p) ==> tokens(line@) == Some((p.0@, views(p.1@))),
{
    let body = strip_comment_vec(line);
    let raw = trim_vec(&body);
    if raw.len() == 0 {
        return None;
    }
    let mut k: usize = 0;
    while k < raw.len() && !space(raw[k])
        invariant
            k <= raw.len(),
            word_end(raw@, 0) == word_end(raw@, k as int),
        decreases raw.len() - k,
    {
        k = k + 1;
    }
    let word = slice_vec(&raw, 0, k);
    let mnem = lower_vec(&word);
    let rest = slice_vec(&raw, k, raw.len());
    let ops = split_pieces(&rest, ',');
    Some((mnem, ops))
}

/// Parses one line of assembly at the given register width.
/// Fails on blank lines, unknown mnemonics and rejected operands.
pub fn parse_line(line: &str, xlen: Xlen) -> (r: Result<Instruction, String>)
    ensures
        r matches Ok(i) ==> parse_spec(line@, xlen) == Some(i) && i.wf(),
        r is Err <==> parse_spec(line@, xlen) is None,
{
    let chars = chars_of(line);
    parse_chars(&chars, xlen)
}

/// Some sub-parser knows the mnemonic.
pub open spec fn known(m: Seq<char>, ops: Seq<Seq<char>>, x: Xlen) -> bool {
    rvc_parse(m, ops, x) is Some || csr_parse(m, ops, x) is Some || system_parse(m) is Some
        || base_parse(m, ops, x) is Some
}

/// Hands a mnemonic and its operands to the sub-parsers in turn.
/// `None` when none knows the mnemonic.
pub fn parse_tokens(mnem: &Vec<char>, ops: &Vec<Vec<char>>, xlen: Xlen) -> (r: Option<
    Result<Instruction, String>,
>)
    ensures
        r is None <==> !known(mnem@, views(ops@), xlen),
        r matches Some(Ok(i)) ==> dispatch(mnem@, views(ops@), xlen) == Some(i) && i.wf(),
        r matches Some(Err(_)) ==> dispatch(mnem@, views(ops@), xlen) is None,
{
    match rvc::try_parse(mnem, ops, xlen) {
        Some(r) => return Some(r),
        None => {},
    }
    match zicsr::try_parse(mnem, ops, xlen) {
        Some(r) => return Some(r),
        None => {},
    }
    match system::try_parse(mnem) {
        Some(i) => return Some(Ok(i)),
        None => {},
    }
    rv_i::try_parse(mnem, ops, xlen)
}

/// Parses one line of assembly, given as characters.
pub fn parse_chars(chars: &Vec<char>, xlen: Xlen) -> (r: Result<Instruction, String>)
    ensures
        r matches Ok(i) ==> parse_spec(chars@, xlen) == Some(i) && i.wf(),
        r is Err <==> parse_spec(chars@, xlen) is None,
{
    let (mnem, ops) = match tokenize(chars) {
        Some(p) => p,
        None => return Err("empty line".to_owned()),
    };
    match parse_tokens(&mnem, &ops, xlen) {
        Some(r) => r,
        None => Err("unsupported instruction".to_owned()),
    }
}

} // verus!
