//! Small conversions used around the chain clients and the local tooling.
use vstd::prelude::*;
use crate::codec::{u128_be, Codec};

verus! {

/// The big-endian bytes of each value, in order.
pub open spec fn u128s_be(s: Seq<u128>) -> Seq<u8>
    decreases s.len(),
{
    if s.len() == 0 {
        Seq::empty()
    } else {
        u128s_be(s.drop_last()) + u128_be(s.last())
    }
}

/// Flattens 128-bit words into bytes, sixteen big-endian bytes per word.
pub fn u128_vec_to_u8_vec(input: Vec<u128>) -> (r: Vec<u8>)
    ensures
        r@ == u128s_be(input@),
        r@.len() == 16 * input@.len(),
{
    let mut output: Vec<u8> = Vec::new();
    let mut i: usize = 0;
    while i < input.len()
        invariant
            i <= input@.len(),
            output@ == u128s_be(input@.subrange(0, i as int)),
            output@.len() == 16 * i,
        decreases input@.len() - i,
    {
        let mut bytes = input[i].encode();
        proof {
            <u128 as crate::codec::FixedWidth>::lemma_width(input@[i as int]);
            assert(input@.subrange(0, i + 1).drop_last() =~= input@.subrange(0, i as int));
        }
        output.append(&mut bytes);
        i = i + 1;
    }
    assert(input@.subrange(0, input@.len() as int) =~= input@);
    output
}

/// An operating system that release archives are built for.
#[derive(Clone, Copy, Debug, PartialEq, Eq, Structural)]
pub enum HostOs {
    Linux,
    MacOs,
}

/// A processor architecture that release archives are built for.
#[derive(Clone, Copy, Debug, PartialEq, Eq, Structural)]
pub enum HostArch {
    Aarch64,
    X86_64,
}

/// The `os-arch` suffix of a devnet release archive.
pub open spec fn target_name(os: HostOs, arch: HostArch) -> Seq<char> {
    match (os, arch) {
        (HostOs::Linux, HostArch::X86_64) => "linux-amd64"@,
        (HostOs::Linux, HostArch::Aarch64) => "linux-arm64"@,
        (HostOs::MacOs, HostArch::X86_64) => "darwin-amd64"@,
        (HostOs::MacOs, HostArch::Aarch64) => "darwin-arm64"@,
    }
}

/// The `arch-os` target triple of a CLI release archive.
pub open spec fn starkli_target_name(os: HostOs, arch: HostArch) -> Seq<char> {
    match (os, arch) {
        (HostOs::Linux, HostArch::X86_64) => "x86_64-linux-android"@,
        (HostOs::Linux, HostArch::Aarch64) => "aarch64-linux-android"@,
        (HostOs::MacOs, HostArch::X86_64) => "x86_64-apple-darwin"@,
        (HostOs::MacOs, HostArch::Aarch64) => "aarch64-apple-darwin"@,
    }
}

/// The `os-arch` suffix of the devnet release for a host.
pub fn make_target(os: HostOs, arch: HostArch) -> (r: String)
    ensures
        r@ == target_name(os, arch),
{
    match (os, arch) {
        (HostOs::Linux, HostArch::X86_64) => "linux-amd64".to_owned(),
        (HostOs::Linux, HostArch::Aarch64) => "linux-arm64".to_owned(),
        (HostOs::MacOs, HostArch::X86_64) => "darwin-amd64".to_owned(),
        (HostOs::MacOs, HostArch::Aarch64) => "darwin-arm64".to_owned(),
    }
}

/// The `arch-os` target triple of the CLI release for a host.
pub fn make_target_starkli(os: HostOs, arch: HostArch) -> (r: String)
    ensures
        r@ == starkli_target_name(os, arch),
{
    match (os, arch) {
        (HostOs::Linux, HostArch::X86_64) => "x86_64-linux-android".to_owned(),
        (HostOs::Linux, HostArch::Aarch64) => "aarch64-linux-android".to_owned(),
        (HostOs::MacOs, HostArch::X86_64) => "x86_64-apple-darwin".to_owned(),
        (HostOs::MacOs, HostArch::Aarch64) => "aarch64-apple-darwin".to_owned(),
    }
}

} // verus!
