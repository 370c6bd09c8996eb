//! SHA-256 and hexadecimal text, as provided by the `sha2` and `hex` crates.

use vstd::prelude::*;

verus! {

/// What the hash function gives for `data`.
pub uninterp spec fn sha256_output(data: Seq<u8>) -> Seq<u8>;

/// The SHA-256 digest of a byte string, as a string of exactly 32 bytes:
/// the output of the hash function, which always has that length.
pub open spec fn sha256_digest(data: Seq<u8>) -> Seq<u8> {
    let output = sha256_output(data);
    if output.len() == 32 {
        output
    } else {
        Seq::new(32, |i: int| 0u8)
    }
}

/// Computes SHA-256 with `sha2::Sha256::digest`.
///
/// Trusted: the result is the hash function's output for exactly the bytes
/// given, and that output is 32 bytes long.
#[verifier::external_body]
fn sha256_raw(data: &[u8]) -> (output: Vec<u8>)
    ensures
        output@ == sha256_output(data@),
        output@.len() == 32,
{
    <sha2::Sha256 as sha2::Digest>::digest(data).to_vec()
}

/// The SHA-256 digest of `data`.
pub(crate) fn sha256(data: &[u8]) -> (digest: Vec<u8>)
    ensures
        digest@ == sha256_digest(data@),
        digest@.len() == 32,
{
    sha256_raw(data)
}

/// Every digest is 32 bytes long.
pub proof fn lemma_digest_len(data: Seq<u8>)
    ensures
        sha256_digest(data).len() == 32,
{
}

/// The lower-case hexadecimal digit for a value below sixteen.
pub open spec fn hex_digit(nibble: u8) -> char {
    if nibble < 10 {
        (('0' as u8) + nibble) as char
    } else {
        (('a' as u8) + (nibble - 10) as u8) as char
    }
}

/// Lower-case hexadecimal text of a byte string, two digits per byte.
pub open spec fn hex_text(data: Seq<u8>) -> Seq<char>
    decreases data.len(),
{
    if data.len() == 0 {
        Seq::empty()
    } else {
        hex_text(data.drop_last()) + seq![
            hex_digit(data.last() / 16),
            hex_digit(data.last() % 16),
        ]
    }
}

/// Renders bytes as text with `hex::encode`.
///
/// Trusted: each byte becomes its two lower-case hexadecimal digits, high
/// nibble first, in input order.
#[verifier::external_body]
pub(crate) fn hex_encode(data: &[u8]) -> (text: String)
    ensures
        text@ == hex_text(data@),
{
    hex::encode(data)
}

} // verus!
