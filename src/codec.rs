//! Byte encodings of the values that the store persists.
use vstd::prelude::*;

verus! {

/// A value with a byte encoding that decodes back to the same value.
pub trait Codec: View + Sized {
    /// The encoding of a value, stated over its view.
    spec fn spec_encode(v: Self::V) -> Seq<u8>;

    /// What the bytes `b` decode to, if they are a valid encoding.
    spec fn spec_decode(b: Seq<u8>) -> Option<Self::V>;

    /// Decoding an encoding gives back the encoded value.
    proof fn lemma_round_trip(v: Self::V)
        ensures
            Self::spec_decode(Self::spec_encode(v)) == Some(v),
    ;

    fn encode(&self) -> (r: Vec<u8>)
        ensures
            r@ == Self::spec_encode(self@),
    ;

    fn decode(b: &[u8]) -> (r: Option<Self>)
        ensures
            match r {
                Some(v) => Self::spec_decode(b@) == Some(v@),
                None => Self::spec_decode(b@).is_none(),
            },
    ;
}

/// A codec whose encodings all have the same length.
pub trait FixedWidth: Codec {
    spec fn spec_width() -> nat;

    fn width() -> (r: usize)
        ensures
            r == Self::spec_width(),
    ;

    proof fn lemma_width(v: Self::V)
        ensures
            Self::spec_encode(v).len() == Self::spec_width(),
    ;
}

/// A pair is encoded as its first component, whose width is fixed, followed by
/// its second.
impl<A: FixedWidth, B: Codec> Codec for (A, B) {
    open spec fn spec_encode(v: (A::V, B::V)) -> Seq<u8> {
        A::spec_encode(v.0) + B::spec_encode(v.1)
    }

    open spec fn spec_decode(b: Seq<u8>) -> Option<(A::V, B::V)> {
        if b.len() >= A::spec_width() {
            match (
                A::spec_decode(b.subrange(0, A::spec_width() as int)),
                B::spec_decode(b.subrange(A::spec_width() as int, b.len() as int)),
            ) {
                (Some(x), Some(y)) => Some((x, y)),
                _ => None,
            }
        } else {
            None
        }
    }

    proof fn lemma_round_trip(v: (A::V, B::V)) {
        A::lemma_width(v.0);
        A::lemma_round_trip(v.0);
        B::lemma_round_trip(v.1);
        let e = Self::spec_encode(v);
        assert(e.subrange(0, A::spec_width() as int) =~= A::spec_encode(v.0));
        assert(e.subrange(A::spec_width() as int, e.len() as int) =~= B::spec_encode(v.1));
    }

    fn encode(&self) -> (r: Vec<u8>) {
        let mut r = self.0.encode();
        let mut rest = self.1.encode();
        r.append(&mut rest);
        r
    }

    fn decode(b: &[u8]) -> (r: Option<(A, B)>) {
        let w = A::width();
        if b.len() >= w {
            let x = A::decode(vstd::slice::slice_subrange(b, 0, w));
            let y = B::decode(vstd::slice::slice_subrange(b, w, b.len()));
            match (x, y) {
                (Some(x), Some(y)) => Some((x, y)),
                _ => None,
            }
        } else {
            None
        }
    }
}

/// A byte string is its own encoding.
impl Codec for Vec<u8> {
    open spec fn spec_encode(v: Seq<u8>) -> Seq<u8> {
        v
    }

    open spec fn spec_decode(b: Seq<u8>) -> Option<Seq<u8>> {
        Some(b)
    }

    proof fn lemma_round_trip(v: Seq<u8>) {
    }

    fn encode(&self) -> (r: Vec<u8>) {
        self.clone()
    }

    fn decode(b: &[u8]) -> (r: Option<Vec<u8>>) {
        Some(vstd::slice::slice_to_vec(b))
    }
}

/// For every codec, decoding the encoding of a value gives back that value.
pub proof fn lemma_decode_encode<T: Codec>(v: T::V)
    ensures
        T::spec_decode(T::spec_encode(v)) == Some(v),
{
    T::lemma_round_trip(v);
}

/// Two values with the same encoding are the same value.
pub proof fn lemma_encode_injective<T: Codec>(a: T::V, b: T::V)
    requires
        T::spec_encode(a) == T::spec_encode(b),
    ensures
        a == b,
{
    T::lemma_round_trip(a);
    T::lemma_round_trip(b);
}

pub open spec fn u32_be(v: u32) -> Seq<u8> {
    seq![(v >> 24u32) as u8, (v >> 16u32) as u8, (v >> 8u32) as u8, v as u8]
}

pub open spec fn u32_from_be(b: Seq<u8>) -> u32 {
    ((b[0] as u32) << 24u32) | ((b[1] as u32) << 16u32) | ((b[2] as u32) << 8u32) | (b[3] as u32)
}

impl Codec for u32 {
    open spec fn spec_encode(v: u32) -> Seq<u8> {
        u32_be(v)
    }

    open spec fn spec_decode(b: Seq<u8>) -> Option<u32> {
        if b.len() == 4 {
            Some(u32_from_be(b))
        } else {
            None
        }
    }

    proof fn lemma_round_trip(v: u32) {
        let b = u32_be(v);
        assert(((((v >> 24u32) as u8) as u32) << 24u32) | ((((v >> 16u32) as u8) as u32) << 16u32)
            | ((((v >> 8u32) as u8) as u32) << 8u32) | ((v as u8) as u32) == v) by (bit_vector);
        assert(u32_from_be(b) == v);
    }

    fn encode(&self) -> (r: Vec<u8>) {
        let v = *self;
        let mut r: Vec<u8> = Vec::new();
        r.push((v >> 24u32) as u8);
        r.push((v >> 16u32) as u8);
        r.push((v >> 8u32) as u8);
        r.push(v as u8);
        assert(r@ =~= u32_be(v));
        r
    }

    fn decode(b: &[u8]) -> (r: Option<u32>) {
        if b.len() == 4 {
            Some(((b[0] as u32) << 24u32) | ((b[1] as u32) << 16u32) | ((b[2] as u32) << 8u32) | (b[3] as u32))
        } else {
            None
        }
    }
}

pub open spec fn u64_be(v: u64) -> Seq<u8> {
    seq![
        (v >> 56u64) as u8, (v >> 48u64) as u8, (v >> 40u64) as u8, (v >> 32u64) as u8,
        (v >> 24u64) as u8, (v >> 16u64) as u8, (v >> 8u64) as u8, v as u8,
    ]
}

pub open spec fn u64_from_be(b: Seq<u8>) -> u64 {
    ((b[0] as u64) << 56u64) | ((b[1] as u64) << 48u64) | ((b[2] as u64) << 40u64) | ((b[3] as u64)
        << 32u64) | ((b[4] as u64) << 24u64) | ((b[5] as u64) << 16u64) | ((b[6] as u64) << 8u64)
        | (b[7] as u64)
}

impl Codec for u64 {
    open spec fn spec_encode(v: u64) -> Seq<u8> {
        u64_be(v)
    }

    open spec fn spec_decode(b: Seq<u8>) -> Option<u64> {
        if b.len() == 8 {
            Some(u64_from_be(b))
        } else {
            None
        }
    }

    proof fn lemma_round_trip(v: u64) {
        assert(((((v >> 56u64) as u8) as u64) << 56u64) | ((((v >> 48u64) as u8) as u64) << 48u64)
            | ((((v >> 40u64) as u8) as u64) << 40u64) | ((((v >> 32u64) as u8) as u64) << 32u64)
            | ((((v >> 24u64) as u8) as u64) << 24u64) | ((((v >> 16u64) as u8) as u64) << 16u64)
            | ((((v >> 8u64) as u8) as u64) << 8u64) | ((v as u8) as u64) == v) by (bit_vector);
        assert(u64_from_be(u64_be(v)) == v);
    }

    fn encode(&self) -> (r: Vec<u8>) {
        let v = *self;
        let mut r: Vec<u8> = Vec::new();
        r.push((v >> 56u64) as u8);
        r.push((v >> 48u64) as u8);
        r.push((v >> 40u64) as u8);
        r.push((v >> 32u64) as u8);
        r.push((v >> 24u64) as u8);
        r.push((v >> 16u64) as u8);
        r.push((v >> 8u64) as u8);
        r.push(v as u8);
        assert(r@ =~= u64_be(v));
        r
    }

    fn decode(b: &[u8]) -> (r: Option<u64>) {
        if b.len() == 8 {
            Some(
                ((b[0] as u64) << 56u64) | ((b[1] as u64) << 48u64) | ((b[2] as u64) << 40u64) | ((
                b[3] as u64) << 32u64) | ((b[4] as u64) << 24u64) | ((b[5] as u64) << 16u64) | ((
                b[6] as u64) << 8u64) | (b[7] as u64),
            )
        } else {
            None
        }
    }
}

/// The encoding of a `u128`: its high and its low 64 bits, each big-endian.
pub open spec fn u128_be(v: u128) -> Seq<u8> {
    u64_be((v >> 64u128) as u64) + u64_be(v as u64)
}

pub open spec fn u128_from_be(b: Seq<u8>) -> u128 {
    ((u64_from_be(b.subrange(0, 8)) as u128) << 64u128) | (u64_from_be(b.subrange(8, 16)) as u128)
}

impl Codec for u128 {
    open spec fn spec_encode(v: u128) -> Seq<u8> {
        u128_be(v)
    }

    open spec fn spec_decode(b: Seq<u8>) -> Option<u128> {
        if b.len() == 16 {
            Some(u128_from_be(b))
        } else {
            None
        }
    }

    proof fn lemma_round_trip(v: u128) {
        let hi = (v >> 64u128) as u64;
        let lo = v as u64;
        <u64 as Codec>::lemma_round_trip(hi);
        <u64 as Codec>::lemma_round_trip(lo);
        let b = u128_be(v);
        assert(b.subrange(0, 8) =~= u64_be(hi));
        assert(b.subrange(8, 16) =~= u64_be(lo));
        assert((((v >> 64u128) as u64) as u128) << 64u128 | ((v as u64) as u128) == v)
            by (bit_vector);
    }

    fn encode(&self) -> (r: Vec<u8>) {
        let v = *self;
        let mut r = ((v >> 64u128) as u64).encode();
        let mut lo = (v as u64).encode();
        r.append(&mut lo);
        r
    }

    fn decode(b: &[u8]) -> (r: Option<u128>) {
        if b.len() == 16 {
            let hi = u64::decode(vstd::slice::slice_subrange(b, 0, 8));
            let lo = u64::decode(vstd::slice::slice_subrange(b, 8, 16));
            match (hi, lo) {
                (Some(hi), Some(lo)) => Some(((hi as u128) << 64u128) | (lo as u128)),
                _ => None,
            }
        } else {
            None
        }
    }
}

impl Codec for u8 {
    open spec fn spec_encode(v: u8) -> Seq<u8> {
        seq![v]
    }

    open spec fn spec_decode(b: Seq<u8>) -> Option<u8> {
        if b.len() == 1 {
            Some(b[0])
        } else {
            None
        }
    }

    proof fn lemma_round_trip(v: u8) {
    }

    fn encode(&self) -> (r: Vec<u8>) {
        let mut r: Vec<u8> = Vec::new();
        r.push(*self);
        assert(r@ =~= seq![*self]);
        r
    }

    fn decode(b: &[u8]) -> (r: Option<u8>) {
        if b.len() == 1 {
            Some(b[0])
        } else {
            None
        }
    }
}

/// A flag is one byte: 1 for true, 0 for false; no other byte decodes.
impl Codec for bool {
    open spec fn spec_encode(v: bool) -> Seq<u8> {
        seq![if v { 1u8 } else { 0u8 }]
    }

    open spec fn spec_decode(b: Seq<u8>) -> Option<bool> {
        if b.len() == 1 && b[0] == 1 {
            Some(true)
        } else if b.len() == 1 && b[0] == 0 {
            Some(false)
        } else {
            None
        }
    }

    proof fn lemma_round_trip(v: bool) {
    }

    fn encode(&self) -> (r: Vec<u8>) {
        let mut r: Vec<u8> = Vec::new();
        r.push(if *self { 1u8 } else { 0u8 });
        assert(r@ =~= Self::spec_encode(*self));
        r
    }

    fn decode(b: &[u8]) -> (r: Option<bool>) {
        if b.len() == 1 && b[0] == 1 {
            Some(true)
        } else if b.len() == 1 && b[0] == 0 {
            Some(false)
        } else {
            None
        }
    }
}

impl FixedWidth for u8 {
    open spec fn spec_width() -> nat {
        1
    }

    fn width() -> (r: usize) {
        1
    }

    proof fn lemma_width(v: u8) {
    }
}

impl FixedWidth for u32 {
    open spec fn spec_width() -> nat {
        4
    }

    fn width() -> (r: usize) {
        4
    }

    proof fn lemma_width(v: u32) {
    }
}

impl FixedWidth for u64 {
    open spec fn spec_width() -> nat {
        8
    }

    fn width() -> (r: usize) {
        8
    }

    proof fn lemma_width(v: u64) {
    }
}

impl FixedWidth for u128 {
    open spec fn spec_width() -> nat {
        16
    }

    fn width() -> (r: usize) {
        16
    }

    proof fn lemma_width(v: u128) {
    }
}

impl FixedWidth for bool {
    open spec fn spec_width() -> nat {
        1
    }

    fn width() -> (r: usize) {
        1
    }

    proof fn lemma_width(v: bool) {
    }
}

} // verus!
