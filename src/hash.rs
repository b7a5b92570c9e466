//! Fixed-width hashes and identifiers.
use vstd::prelude::*;
use crate::codec::{Codec, FixedWidth};

verus! {

/// A 256-bit value, as 32 bytes.
#[derive(Clone, Copy, Debug)]
pub struct H256(pub [u8; 32]);

/// A 512-bit value, as 64 bytes.
#[derive(Clone, Copy, Debug)]
pub struct H512(pub [u8; 64]);

impl View for H256 {
    type V = H256;

    open spec fn view(&self) -> H256 {
        *self
    }
}

impl View for H512 {
    type V = H512;

    open spec fn view(&self) -> H512 {
        *self
    }
}

/// Copies exactly `N` bytes into an array.
fn bytes_to_array<const N: usize>(b: &[u8]) -> (r: [u8; N])
    requires
        b@.len() == N,
    ensures
        r@ == b@,
{
    let mut a = [0u8; N];
    let mut i: usize = 0;
    while i < N
        invariant
            i <= N,
            b@.len() == N,
            a@.len() == N,
            forall|j: int| 0 <= j < i ==> a@[j] == b@[j],
        decreases N - i,
    {
        a[i] = b[i];
        i = i + 1;
    }
    assert(a@ =~= b@);
    a
}

/// Copies an array into a vector.
fn array_to_vec<const N: usize>(a: &[u8; N]) -> (r: Vec<u8>)
    ensures
        r@ == a@,
{
    let mut r: Vec<u8> = Vec::new();
    let mut i: usize = 0;
    while i < N
        invariant
            i <= N,
            a@.len() == N,
            r@ =~= a@.subrange(0, i as int),
        decreases N - i,
    {
        r.push(a[i]);
        i = i + 1;
    }
    assert(r@ =~= a@);
    r
}

impl Codec for H256 {
    open spec fn spec_encode(v: H256) -> Seq<u8> {
        v.0@
    }

    open spec fn spec_decode(b: Seq<u8>) -> Option<H256> {
        if b.len() == 32 {
            Some(choose|h: H256| h.0@ == b)
        } else {
            None
        }
    }

    proof fn lemma_round_trip(v: H256) {
        let h = choose|h: H256| h.0@ == v.0@;
        assert(h.0 =~= v.0);
    }

    fn encode(&self) -> (r: Vec<u8>) {
        array_to_vec(&self.0)
    }

    fn decode(b: &[u8]) -> (r: Option<H256>) {
        if b.len() == 32 {
            let h = H256(bytes_to_array(b));
            proof {
                let c = choose|c: H256| c.0@ == b@;
                assert(c.0 =~= h.0);
            }
            Some(h)
        } else {
            None
        }
    }
}

impl Codec for H512 {
    open spec fn spec_encode(v: H512) -> Seq<u8> {
        v.0@
    }

    open spec fn spec_decode(b: Seq<u8>) -> Option<H512> {
        if b.len() == 64 {
            Some(choose|h: H512| h.0@ == b)
        } else {
            None
        }
    }

    proof fn lemma_round_trip(v: H512) {
        let h = choose|h: H512| h.0@ == v.0@;
        assert(h.0 =~= v.0);
    }

    fn encode(&self) -> (r: Vec<u8>) {
        array_to_vec(&self.0)
    }

    fn decode(b: &[u8]) -> (r: Option<H512>) {
        if b.len() == 64 {
            let h = H512(bytes_to_array(b));
            proof {
                let c = choose|c: H512| c.0@ == b@;
                assert(c.0 =~= h.0);
            }
            Some(h)
        } else {
            None
        }
    }
}

impl FixedWidth for H256 {
    open spec fn spec_width() -> nat {
        32
    }

    fn width() -> (r: usize) {
        32
    }

    proof fn lemma_width(v: H256) {
    }
}

impl FixedWidth for H512 {
    open spec fn spec_width() -> nat {
        64
    }

    fn width() -> (r: usize) {
        64
    }

    proof fn lemma_width(v: H512) {
    }
}

} // verus!
