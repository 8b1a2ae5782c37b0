//! Register width and the immediate representations shared by every format.
use vstd::prelude::*;
use vstd::arithmetic::power2::{pow2, lemma_pow2_unfold, lemma2_to64};
use vstd::bits::{lemma_u64_shl_is_mul, lemma_u64_pow2_no_overflow};

verus! {

/// Width of the integer registers of the target profile.
#[derive(Debug, Clone, Copy, PartialEq, Eq, Structural)]
pub enum Xlen {
    X32,
    X64,
    X128,
}

/// Signed immediate: raw bits together with the width they were declared with.
/// Its value is the two's-complement reading of the low `width` bits.
#[derive(Debug, Clone, Copy, PartialEq, Eq, Structural)]
pub struct Imm {
    pub bits: u32,
    pub width: u8,
}

/// Unsigned immediate: raw bits together with their width, zero-extended.
#[derive(Debug, Clone, Copy, PartialEq, Eq, Structural)]
pub struct Uimm {
    pub bits: u32,
    pub width: u8,
}

/// The low `width` bits of `bits`.
fn low_bits(bits: u32, width: u8) -> (r: u32)
    requires
        1 <= width <= 32,
    ensures
        r as int == bits as int % (pow2(width as nat) as int),
        (r as int) < pow2(width as nat),
{
    proof {
        lemma2_to64();
    }
    if width == 32 {
        return bits;
    }
    proof {
        lemma_u64_pow2_no_overflow(width as nat);
        lemma_u64_shl_is_mul(1, width as u64);
    }
    let m: u64 = 1u64 << (width as u64);
    ((bits as u64) % m) as u32
}

impl Imm {
    /// No bit above the declared width is set.
    pub open spec fn wf(self) -> bool {
        &&& 1 <= self.width <= 32
        &&& (self.bits as int) < pow2(self.width as nat)
    }

    /// The two's-complement value of the stored bits.
    pub open spec fn value(self) -> int {
        if self.bits as int >= pow2((self.width - 1) as nat) {
            self.bits as int - pow2(self.width as nat)
        } else {
            self.bits as int
        }
    }

    /// Builds an immediate, clearing the bits above the width.
    pub fn new(bits: u32, width: u8) -> (r: Imm)
        requires
            1 <= width <= 32,
        ensures
            r.bits as int == bits as int % (pow2(width as nat) as int),
            r.width == width,
            r.wf(),
    {
        Imm { bits: low_bits(bits, width), width }
    }

    /// The raw stored bits.
    pub fn low_u32(&self) -> (r: u32)
        ensures
            r == self.bits,
    {
        self.bits
    }

    /// The sign-extended value.
    pub fn signed(&self) -> (r: i64)
        requires
            self.wf(),
        ensures
            r as int == self.value(),
    {
        let w = self.width as u64;
        proof {
            lemma_u64_pow2_no_overflow(w as nat);
            lemma_u64_pow2_no_overflow((w - 1) as nat);
            lemma_u64_shl_is_mul(1, w);
            lemma_u64_shl_is_mul(1, (w - 1) as u64);
            lemma_pow2_unfold(w as nat);
        }
        let full: u64 = 1u64 << w;
        let half: u64 = 1u64 << (w - 1);
        if self.bits as u64 >= half {
            (self.bits as i64) - (full as i64)
        } else {
            self.bits as i64
        }
    }
}

impl Uimm {
    /// No bit above the declared width is set.
    pub open spec fn wf(self) -> bool {
        &&& 1 <= self.width <= 32
        &&& (self.bits as int) < pow2(self.width as nat)
    }

    /// Builds an unsigned immediate, clearing the bits above the width.
    pub fn new(bits: u32, width: u8) -> (r: Uimm)
        requires
            1 <= width <= 32,
        ensures
            r.bits as int == bits as int % (pow2(width as nat) as int),
            r.width == width,
            r.wf(),
    {
        Uimm { bits: low_bits(bits, width), width }
    }

    /// The raw stored bits.
    pub fn low32(&self) -> (r: u32)
        ensures
            r == self.bits,
    {
        self.bits
    }
}

} // verus!
