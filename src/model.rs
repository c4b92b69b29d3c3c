//! The notification document and the tiling-size threshold.
//!
//! A tiling size is an IEEE-754 double. It is held by its 64-bit pattern, and
//! the threshold is decided on the exact value that pattern encodes.
use vstd::arithmetic::power2::{
    lemma2_to64, lemma2_to64_rest, lemma_pow2_pos, lemma_pow2_strictly_increases, pow2,
};
use vstd::prelude::*;

verus! {

/// Bit pattern of the double `0.5`.
pub const HALF_BITS: u64 = 0x3FE0_0000_0000_0000;

/// Bit pattern of positive infinity: every larger magnitude is a NaN.
pub const INFINITY_BITS: u64 = 0x7FF0_0000_0000_0000;

/// The sign bit of a double.
pub const SIGN_BIT: u64 = 0x8000_0000_0000_0000;

/// A window's share of its container, as the bits of an IEEE-754 double.
#[derive(Clone, Copy, Debug, PartialEq, Eq, Structural)]
pub struct TilingSize {
    pub bits: u64,
}

/// The size part of a notification: `tilingSize`, when present.
#[derive(Clone, Copy, Debug, PartialEq, Eq, Structural)]
pub struct ManagedWindow {
    pub tiling_size: Option<TilingSize>,
}

/// The `data` object of a notification: `managedWindow`, when present.
#[derive(Clone, Copy, Debug, PartialEq, Eq, Structural)]
pub struct Data {
    pub managed_window: Option<ManagedWindow>,
}

/// A notification document: `data`, when present.
#[derive(Clone, Copy, Debug, PartialEq, Eq, Structural)]
pub struct RootResponse {
    pub data: Option<Data>,
}

/// Whether the sign bit is set.
pub open spec fn is_negative(bits: u64) -> bool {
    bits >= SIGN_BIT
}

/// The bits without the sign.
pub open spec fn magnitude(bits: u64) -> int {
    if is_negative(bits) {
        bits - SIGN_BIT
    } else {
        bits as int
    }
}

/// The 11-bit biased exponent field.
pub open spec fn exponent_field(bits: u64) -> int {
    magnitude(bits) / pow2(52) as int
}

/// The 52-bit fraction field.
pub open spec fn fraction_field(bits: u64) -> int {
    magnitude(bits) % pow2(52) as int
}

/// Not a number: all exponent bits set, with a nonzero fraction.
pub open spec fn is_nan(bits: u64) -> bool {
    exponent_field(bits) == 2047 && fraction_field(bits) != 0
}

/// An infinity of either sign: all exponent bits set, a zero fraction.
pub open spec fn is_infinite(bits: u64) -> bool {
    exponent_field(bits) == 2047 && fraction_field(bits) == 0
}

/// The integer significand: the fraction, with the hidden bit for normal numbers.
pub open spec fn significand(bits: u64) -> int {
    if exponent_field(bits) == 0 {
        fraction_field(bits)
    } else {
        fraction_field(bits) + pow2(52)
    }
}

/// The power of two that scales the significand: a finite double's magnitude
/// is `significand(bits) * 2^scale(bits)`.
pub open spec fn scale(bits: u64) -> int {
    if exponent_field(bits) == 0 {
        1 - 1075
    } else {
        exponent_field(bits) - 1075
    }
}

/// `significand * 2^scale <= 1/2`, that is `significand * 2^(scale + 1) <= 1`.
pub open spec fn magnitude_at_most_half(bits: u64) -> bool {
    let k = scale(bits) + 1;
    if k >= 0 {
        significand(bits) * pow2(k as nat) <= 1
    } else {
        significand(bits) <= pow2((-k) as nat)
    }
}

/// The double that `bits` encodes compares `<= 0.5` under IEEE-754 rules:
/// never for a NaN, always for a negative number (negative zero and negative
/// infinity included), and by exact value for the rest.
pub open spec fn at_most_half(bits: u64) -> bool {
    !is_nan(bits) && (is_negative(bits) || (!is_infinite(bits) && magnitude_at_most_half(bits)))
}

/// The tiling size a document carries, if every level of it is present.
pub open spec fn size_of(doc: RootResponse) -> Option<TilingSize> {
    match doc.data {
        Some(data) => match data.managed_window {
            Some(window) => window.tiling_size,
            None => None,
        },
        None => None,
    }
}

/// The toggle decision for a document: its size is present and at most one half.
pub open spec fn toggles(doc: RootResponse) -> bool {
    match size_of(doc) {
        Some(size) => at_most_half(size.bits),
        None => false,
    }
}

proof fn lemma_fields(bits: u64)
    ensures
        pow2(52) == 0x10_0000_0000_0000,
        pow2(53) == 0x20_0000_0000_0000,
        0 <= magnitude(bits) < 0x8000_0000_0000_0000,
        magnitude(bits) == exponent_field(bits) * 0x10_0000_0000_0000 + fraction_field(bits),
        0 <= exponent_field(bits) <= 2047,
        0 <= fraction_field(bits) < 0x10_0000_0000_0000,
{
    lemma2_to64();
    lemma2_to64_rest();
    let m = magnitude(bits);
    let p: int = 0x10_0000_0000_0000;
    assert(m == (m / p) * p + m % p) by (nonlinear_arith)
        requires p > 0;
    assert(0 <= m / p <= 2047) by (nonlinear_arith)
        requires 0 <= m < 0x8000_0000_0000_0000, p == 0x10_0000_0000_0000;
}

/// A positive finite double whose exponent field is below that of one half
/// has a magnitude below one half.
proof fn lemma_small_exponent(bits: u64)
    requires
        !is_negative(bits),
        exponent_field(bits) < 1022,
    ensures
        magnitude_at_most_half(bits),
{
    lemma_fields(bits);
    let k = scale(bits) + 1;
    assert(k <= -53);
    lemma_pow2_pos(53);
    if -k > 53 {
        lemma_pow2_strictly_increases(53, (-k) as nat);
    }
    assert(significand(bits) < pow2(53));
}

/// A positive double whose exponent field is above that of one half exceeds it.
proof fn lemma_large_exponent(bits: u64)
    requires
        !is_negative(bits),
        1022 < exponent_field(bits) < 2047,
    ensures
        !magnitude_at_most_half(bits),
{
    lemma_fields(bits);
    let k = scale(bits) + 1;
    let s = significand(bits);
    assert(s >= 0x10_0000_0000_0000);
    if k >= 0 {
        lemma_pow2_pos(k as nat);
        let p = pow2(k as nat) as int;
        assert(s * p > 1) by (nonlinear_arith)
            requires s >= 0x10_0000_0000_0000, p >= 1;
    } else {
        assert(-k <= 51);
        if -k < 52 {
            lemma_pow2_strictly_increases((-k) as nat, 52);
        }
    }
}

/// Decides `<= 0.5` for the double with bit pattern `bits`.
pub fn bits_at_most_half(bits: u64) -> (r: bool)
    ensures
        r == at_most_half(bits),
{
    proof {
        lemma_fields(bits);
        if !is_negative(bits) {
            if exponent_field(bits) < 1022 {
                lemma_small_exponent(bits);
            } else if 1022 < exponent_field(bits) < 2047 {
                lemma_large_exponent(bits);
            } else if exponent_field(bits) == 1022 {
                lemma2_to64();
            }
        }
    }
    let negative = bits >= SIGN_BIT;
    let mag: u64 = if negative {
        bits - SIGN_BIT
    } else {
        bits
    };
    if mag > INFINITY_BITS {
        false
    } else if negative {
        true
    } else {
        bits <= HALF_BITS
    }
}

impl TilingSize {
    /// Whether this size asks for a toggle: it compares `<= 0.5`.
    pub fn is_toggleable(&self) -> (r: bool)
        ensures
            r == at_most_half(self.bits),
    {
        bits_at_most_half(self.bits)
    }
}

impl RootResponse {
    /// Walks `data`, `managedWindow`, `tilingSize`, stopping at the first
    /// level that is absent.
    pub fn tiling_size(&self) -> (r: Option<TilingSize>)
        ensures
            r == size_of(*self),
    {
        match self.data {
            Some(data) => match data.managed_window {
                Some(window) => window.tiling_size,
                None => None,
            },
            None => None,
        }
    }

    /// The toggle decision: a size is present and compares `<= 0.5`.
    pub fn toggle_decision(&self) -> (r: bool)
        ensures
            r == toggles(*self),
    {
        match self.tiling_size() {
            Some(size) => size.is_toggleable(),
            None => false,
        }
    }
}

} // verus!
