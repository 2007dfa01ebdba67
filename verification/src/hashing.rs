//! SHA-256 digests and their lower-case hexadecimal rendering.
use vstd::prelude::*;

use crate::receipt_paths::{hex_digit, utf8};

verus! {

/// The SHA-256 digest of `bytes` (FIPS 180-4), as `sha2` computes it.
pub uninterp spec fn sha256_digest(bytes: Seq<u8>) -> Seq<u8>;

/// `sha2::Sha256::digest`: the digest of `bytes`, which is `sha256_digest`
/// of them and 32 bytes long; the algorithm itself is not restated here.
#[verifier::external_body]
fn sha256(bytes: &[u8]) -> (r: Vec<u8>)
    ensures
        r@ == sha256_digest(bytes@),
        r@.len() == 32,
{
    <sha2::Sha256 as sha2::Digest>::digest(bytes).to_vec()
}

/// Two lower-case hex digits per byte (`{:02x}` for each).
pub open spec fn lower_hex(bytes: Seq<u8>) -> Seq<char>
    decreases bytes.len(),
{
    if bytes.len() == 0 {
        Seq::empty()
    } else {
        lower_hex(bytes.drop_last()) + seq![
            hex_digit((bytes.last() / 16) as nat),
            hex_digit((bytes.last() % 16) as nat),
        ]
    }
}

fn hex_digit_of(d: u8) -> (c: char)
    requires
        d < 16,
    ensures
        c == hex_digit(d as nat),
{
    let code: u8 = if d < 10 {
        d + 48
    } else {
        d + 87
    };
    code as char
}

/// The lower-case hex rendering of the first `n` bytes.
pub fn lower_hex_prefix(bytes: &Vec<u8>, n: usize) -> (r: String)
    requires
        n <= bytes.len(),
    ensures
        r@ == lower_hex(bytes@.take(n as int)),
{
    let mut out: Vec<char> = Vec::new();
    let mut i: usize = 0;
    while i < n
        invariant
            i <= n <= bytes.len(),
            out@ == lower_hex(bytes@.take(i as int)),
        decreases n - i,
    {
        let b = bytes[i];
        out.push(hex_digit_of(b / 16));
        out.push(hex_digit_of(b % 16));
        assert(bytes@.take(i + 1).drop_last() =~= bytes@.take(i as int));
        assert(out@ =~= lower_hex(bytes@.take(i + 1)));
        i += 1;
    }
    crate::text::string_of(&out)
}

/// The SHA-256 digest of a string's UTF-8 bytes.
pub fn sha256_of_str(value: &str) -> (r: Vec<u8>)
    ensures
        r@ == sha256_digest(utf8(value@)),
        r@.len() == 32,
{
    sha256(value.as_bytes())
}

/// `sha256:` and the hex digest of a string's UTF-8 bytes.
pub fn stable_hash(value: &str) -> (r: String)
    ensures
        r@ == "sha256:"@ + lower_hex(sha256_digest(utf8(value@))),
{
    let digest = sha256_of_str(value);
    let hex = lower_hex_prefix(&digest, 32);
    assert(digest@.take(32) =~= digest@);
    crate::text::concat("sha256:", hex.as_str())
}


/// `sha256:` and the hex digest of some bytes.
pub fn sha256_prefixed(bytes: &Vec<u8>) -> (r: String)
    ensures
        r@ == "sha256:"@ + lower_hex(sha256_digest(bytes@)),
        sha256_digest(bytes@).len() == 32,
{
    let digest = sha256(bytes.as_slice());
    let hex = lower_hex_prefix(&digest, 32);
    assert(digest@.take(32) =~= digest@);
    crate::text::concat("sha256:", hex.as_str())
}

/// The hex digest of some bytes, without a prefix.
pub fn sha256_hex(bytes: &Vec<u8>) -> (r: String)
    ensures
        r@ == lower_hex(sha256_digest(bytes@)),
{
    let digest = sha256(bytes.as_slice());
    let hex = lower_hex_prefix(&digest, 32);
    assert(digest@.take(32) =~= digest@);
    hex
}

} // verus!
