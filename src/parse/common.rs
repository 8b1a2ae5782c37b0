//! Operand grammar shared by the sub-parsers: registers, integers, memory
//! operands, and the signed-range reduction of immediates.
use vstd::prelude::*;
use vstd::arithmetic::power2::{pow2, lemma2_to64};
use crate::model::{register_from_chars, register_of};
use crate::text::{bounded_digits, parse_digits, slice_vec, trim, trim_vec};

verus! {

pub const I64_MAX: u64 = 0x7fff_ffff_ffff_ffff;

/// The magnitude of an unsigned integer text: `0x`/`0X` and hexadecimal digits, or
/// decimal digits; it must not exceed the largest 64-bit signed value.
pub open spec fn magnitude_of(body: Seq<char>) -> Option<nat> {
    if body.len() >= 2 && body[0] == '0' && (body[1] == 'x' || body[1] == 'X') {
        bounded_digits(body.subrange(2, body.len() as int), 16, I64_MAX as nat)
    } else {
        bounded_digits(body, 10, I64_MAX as nat)
    }
}

/// The value of an integer operand: surrounding whitespace, an optional sign,
/// then a hexadecimal or decimal magnitude.
pub open spec fn int_of(s: Seq<char>) -> Option<int> {
    let t = trim(s);
    if t.len() == 0 {
        None
    } else {
        let body = if t[0] == '-' || t[0] == '+' {
            t.drop_first()
        } else {
            t
        };
        match magnitude_of(body) {
            Some(m) => Some(
                if t[0] == '-' {
                    -m
                } else {
                    m as int
                },
            ),
            None => None,
        }
    }
}

/// The two's-complement bits of `v` in a field of `n` bits, if `v` fits it signed.
pub open spec fn signed_bits(v: int, n: nat) -> Option<u32> {
    if -pow2((n - 1) as nat) <= v < pow2((n - 1) as nat) {
        Some((v % pow2(n) as int) as u32)
    } else {
        None
    }
}

/// A memory operand `imm(rs)`: the immediate before the first `(`, the register
/// between it and the first `)`; the immediate is reduced to 12 signed bits.
pub open spec fn mem_of(s: Seq<char>) -> Option<(u32, u8)> {
    if exists|i: int| 0 <= i < s.len() && s[i] == '(' {
        let open = choose|i: int| 0 <= i < s.len() && s[i] == '('
            && forall|j: int| 0 <= j < i ==> s[j] != '(';
        if exists|i: int| 0 <= i < s.len() && s[i] == ')' {
            let close = choose|i: int| 0 <= i < s.len() && s[i] == ')'
                && forall|j: int| 0 <= j < i ==> s[j] != ')';
            if close < open {
                None
            } else {
                match (int_of(s.subrange(0, open)), register_of(s.subrange(open + 1, close))) {
                    (Some(v), Some(r)) => match signed_bits(v, 12) {
                        Some(b) => Some((b, r)),
                        None => None,
                    },
                    _ => None,
                }
            }
        } else {
            None
        }
    } else {
        None
    }
}

/// Reads a register operand.
pub fn parse_register(s: &Vec<char>) -> (r: Result<u8, String>)
    ensures
        r matches Ok(x) ==> register_of(s@) == Some(x) && x < 32,
        r is Err <==> register_of(s@) is None,
{
    match register_from_chars(s) {
        Some(x) => {
            proof {
                lemma_register_range(s@);
            }
            Ok(x)
        },
        None => Err("unknown register".to_owned()),
    }
}

pub proof fn lemma_register_range(s: Seq<char>)
    ensures
        register_of(s) matches Some(r) ==> r < 32,
{
}

/// Reads an integer operand; a register name in its place gets its own message.
pub fn parse_int(s: &Vec<char>) -> (r: Result<i64, String>)
    ensures
        r matches Ok(v) ==> int_of(s@) == Some(v as int),
        r is Err <==> int_of(s@) is None,
{
    let t = trim_vec(s);
    if t.len() == 0 {
        return Err("missing immediate".to_owned());
    }
    let neg = t[0] == '-';
    let start: usize = if t[0] == '-' || t[0] == '+' {
        1
    } else {
        0
    };
    let ghost body = if t@[0] == '-' || t@[0] == '+' {
        t@.drop_first()
    } else {
        t@
    };
    assert(body =~= t@.subrange(start as int, t@.len() as int));
    let n = t.len();
    let mag = if n - start >= 2 && t[start] == '0' && (t[start + 1] == 'x' || t[start + 1] == 'X') {
        assert(body.subrange(2, body.len() as int) =~= t@.subrange(start + 2, n as int));
        parse_digits(&t, start + 2, n, 16, I64_MAX)
    } else {
        parse_digits(&t, start, n, 10, I64_MAX)
    };
    match mag {
        Some(m) => {
            if neg {
                Ok(-(m as i64))
            } else {
                Ok(m as i64)
            }
        },
        None => {
            if register_from_chars(&t).is_some() {
                Err("expected an immediate, found a register".to_owned())
            } else {
                Err("malformed immediate".to_owned())
            }
        },
    }
}

/// Reduces `value` to the two's-complement bits of a signed field of `bits` bits.
pub fn imm_signed_bits(value: i64, bits: u8) -> (r: Result<u32, String>)
    requires
        1 <= bits <= 32,
    ensures
        r matches Ok(b) ==> signed_bits(value as int, bits as nat) == Some(b),
        r is Err <==> signed_bits(value as int, bits as nat) is None,
{
    proof {
        vstd::bits::lemma_u64_pow2_no_overflow(bits as nat);
        vstd::bits::lemma_u64_pow2_no_overflow((bits - 1) as nat);
        vstd::bits::lemma_u64_shl_is_mul(1, bits as u64);
        vstd::bits::lemma_u64_shl_is_mul(1, (bits - 1) as u64);
        vstd::arithmetic::power2::lemma_pow2_unfold(bits as nat);
        lemma2_to64();
    }
    let full: u64 = 1u64 << (bits as u64);
    let half: u64 = 1u64 << ((bits - 1) as u64);
    let min = -(half as i64);
    let max = (half as i64) - 1;
    if value < min || value > max {
        return Err("immediate out of range".to_owned());
    }
    if value >= 0 {
        proof {
            assert((value as int) % (full as int) == value as int) by (nonlinear_arith)
                requires
                    0 <= value < full,
            ;
        }
        Ok(value as u32)
    } else {
        proof {
            assert(((full as int) + value) % (full as int) == (value as int) % (full as int))
                by (nonlinear_arith)
                requires
                    full > 0,
                    -full <= value < 0,
            ;
            assert(((full as int) + value) % (full as int) == (full as int)
                + value) by (nonlinear_arith)
                requires
                    full > 0,
                    -full <= value < 0,
            ;
        }
        Ok(((full as i64) + value) as u32)
    }
}

fn find_char(v: &Vec<char>, c: char) -> (r: Option<usize>)
    ensures
        r matches Some(i) ==> i < v@.len() && v@[i as int] == c
            && forall|j: int| 0 <= j < i ==> v@[j] != c,
        r is None ==> forall|j: int| 0 <= j < v@.len() ==> v@[j] != c,
{
    let mut i: usize = 0;
    while i < v.len()
        invariant
            i <= v.len(),
            forall|j: int| 0 <= j < i ==> v@[j] != c,
        decreases v.len() - i,
    {
        if v[i] == c {
            return Some(i);
        }
        i = i + 1;
    }
    None
}

/// Reads a memory operand `imm(rs)` with a 12-bit signed immediate.
pub fn parse_mem_operand(s: &Vec<char>) -> (r: Result<(u32, u8), String>)
    ensures
        r matches Ok(p) ==> mem_of(s@) == Some(p) && p.1 < 32,
        r is Err <==> mem_of(s@) is None,
{
    let open = match find_char(s, '(') {
        Some(i) => i,
        None => return Err("malformed memory operand".to_owned()),
    };
    let close = match find_char(s, ')') {
        Some(i) => i,
        None => return Err("malformed memory operand".to_owned()),
    };
    let ghost o = choose|i: int| 0 <= i < s@.len() && s@[i] == '('
        && forall|j: int| 0 <= j < i ==> s@[j] != '(';
    let ghost c = choose|i: int| 0 <= i < s@.len() && s@[i] == ')'
        && forall|j: int| 0 <= j < i ==> s@[j] != ')';
    assert(o == open as int) by {
        assert(s@[open as int] == '(');
        if o < open {
        } else if o > open {
        }
    }
    assert(c == close as int) by {
        assert(s@[close as int] == ')');
        if c < close {
        } else if c > close {
        }
    }
    if close < open {
        return Err("malformed memory operand".to_owned());
    }
    let imm_text = slice_vec(s, 0, open);
    let reg_text = slice_vec(s, open + 1, close);
    let imm = parse_int(&imm_text)?;
    let rs = parse_register(&reg_text)?;
    let bits = imm_signed_bits(imm, 12)?;
    Ok((bits, rs))
}

} // verus!
