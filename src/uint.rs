//! Unsigned 256-bit amounts.
use vstd::prelude::*;
use crate::codec::{Codec, FixedWidth};

verus! {

/// 2^128, the weight of the high half.
pub open spec fn half_modulus() -> int {
    0x1_0000_0000_0000_0000_0000_0000_0000_0000int
}

/// 2^256: every value lies below it.
pub open spec fn modulus() -> int {
    half_modulus() * half_modulus()
}

/// An unsigned 256-bit integer, as its high and its low 128 bits.
#[derive(Clone, Copy, Debug, PartialEq, Eq, Structural)]
pub struct U256 {
    pub hi: u128,
    pub lo: u128,
}

impl View for U256 {
    type V = U256;

    open spec fn view(&self) -> U256 {
        *self
    }
}

impl U256 {
    /// The number this is.
    pub open spec fn value(self) -> int {
        self.hi * half_modulus() + self.lo
    }

    /// The 256-bit integer whose value is `v`, for `0 <= v < 2^256`.
    pub open spec fn from_value(v: int) -> U256 {
        U256 { hi: (v / half_modulus()) as u128, lo: (v % half_modulus()) as u128 }
    }

    /// The integer with value `v`.
    pub fn from_u128(v: u128) -> (r: U256)
        ensures
            r.value() == v,
    {
        U256 { hi: 0, lo: v }
    }

    /// The sum, or `None` where it is 2^256 or more.
    pub fn checked_add(&self, other: &U256) -> (r: Option<U256>)
        ensures
            r == u256_add(*self, *other),
    {
        let ghost m = half_modulus();
        proof {
            lemma_value_bounds(*self);
            lemma_value_bounds(*other);
        }
        let (lo, carry) = if self.lo <= u128::MAX - other.lo {
            (self.lo + other.lo, 0u128)
        } else {
            (self.lo - (u128::MAX - other.lo) - 1, 1u128)
        };
        assert(self.lo + other.lo == lo + carry * m);
        if self.hi > u128::MAX - other.hi || self.hi + other.hi > u128::MAX - carry {
            proof {
                assert(self.hi + other.hi + carry >= m);
                assert((self.hi + other.hi + carry) * m >= m * m) by (nonlinear_arith)
                    requires
                        self.hi + other.hi + carry >= m,
                        m > 0,
                ;
                assert(self.value() + other.value() == (self.hi + other.hi + carry) * m + lo)
                    by (nonlinear_arith)
                    requires
                        self.lo + other.lo == lo + carry * m,
                        self.value() == self.hi * m + self.lo,
                        other.value() == other.hi * m + other.lo,
                ;
            }
            return None;
        }
        let r = U256 { hi: self.hi + other.hi + carry, lo };
        proof {
            let v = self.value() + other.value();
            assert(v == r.hi * m + r.lo) by (nonlinear_arith)
                requires
                    v == self.value() + other.value(),
                    self.value() == self.hi * m + self.lo,
                    other.value() == other.hi * m + other.lo,
                    self.lo + other.lo == lo + carry * m,
                    r.hi == self.hi + other.hi + carry,
                    r.lo == lo,
            ;
            lemma_value_bounds(r);
            vstd::arithmetic::div_mod::lemma_fundamental_div_mod_converse(v, m, r.hi as int, r.lo as int);
        }
        Some(r)
    }
}

/// The sum of `a` and `b`, or `None` where it is 2^256 or more.
pub open spec fn u256_add(a: U256, b: U256) -> Option<U256> {
    if a.value() + b.value() < modulus() {
        Some(U256::from_value(a.value() + b.value()))
    } else {
        None
    }
}

/// A value lies in `[0, 2^256)`.
pub proof fn lemma_value_bounds(a: U256)
    ensures
        0 <= a.value() < modulus(),
{
    let m = half_modulus();
    assert(a.hi * m <= (m - 1) * m) by (nonlinear_arith)
        requires
            a.hi <= m - 1,
            m > 0,
    ;
    assert(0 <= a.hi * m) by (nonlinear_arith)
        requires
            a.hi >= 0,
            m > 0,
    ;
}

/// The value of `from_value(v)` is `v`, for `v` in range.
pub proof fn lemma_from_value(v: int)
    requires
        0 <= v < modulus(),
    ensures
        U256::from_value(v).value() == v,
{
    let m = half_modulus();
    vstd::arithmetic::div_mod::lemma_fundamental_div_mod(v, m);
    assert(v / m < m) by {
        vstd::arithmetic::div_mod::lemma_div_by_multiple_is_strongly_ordered(v, m * m, m, m);
        vstd::arithmetic::div_mod::lemma_div_multiples_vanish(m, m);
    }
    assert(v / m >= 0) by {
        vstd::arithmetic::div_mod::lemma_div_pos_is_pos(v, m);
    }
}

/// A 256-bit integer is its high half then its low half, each big-endian:
/// its 32-byte big-endian encoding.
impl Codec for U256 {
    open spec fn spec_encode(v: U256) -> Seq<u8> {
        <(u128, u128)>::spec_encode((v.hi, v.lo))
    }

    open spec fn spec_decode(b: Seq<u8>) -> Option<U256> {
        match <(u128, u128)>::spec_decode(b) {
            Some((hi, lo)) => Some(U256 { hi, lo }),
            None => None,
        }
    }

    proof fn lemma_round_trip(v: U256) {
        <(u128, u128)>::lemma_round_trip((v.hi, v.lo));
    }

    fn encode(&self) -> (r: Vec<u8>) {
        let fields: (u128, u128) = (self.hi, self.lo);
        fields.encode()
    }

    fn decode(b: &[u8]) -> (r: Option<U256>) {
        match <(u128, u128)>::decode(b) {
            Some((hi, lo)) => Some(U256 { hi, lo }),
            None => None,
        }
    }
}

impl FixedWidth for U256 {
    open spec fn spec_width() -> nat {
        32
    }

    fn width() -> (r: usize) {
        32
    }

    proof fn lemma_width(v: U256) {
        <u128 as FixedWidth>::lemma_width(v.hi);
        <u128 as FixedWidth>::lemma_width(v.lo);
    }
}

} // verus!
