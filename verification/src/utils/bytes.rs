//! Byte-level helpers shared by the cryptographic pipeline.

use vstd::prelude::*;

verus! {

/// The eight bytes of `x`, most significant first.
pub open spec fn be_bytes(x: u64) -> Seq<u8> {
    seq![
        (x >> 56) as u8,
        (x >> 48) as u8,
        (x >> 40) as u8,
        (x >> 32) as u8,
        (x >> 24) as u8,
        (x >> 16) as u8,
        (x >> 8) as u8,
        x as u8,
    ]
}

/// The eight bytes of `x`, least significant first.
pub open spec fn le_bytes(x: u64) -> Seq<u8> {
    seq![
        x as u8,
        (x >> 8) as u8,
        (x >> 16) as u8,
        (x >> 24) as u8,
        (x >> 32) as u8,
        (x >> 40) as u8,
        (x >> 48) as u8,
        (x >> 56) as u8,
    ]
}

/// Big-endian encoding of a 64-bit integer.
pub fn u64_to_be_bytes(x: u64) -> (out: Vec<u8>)
    ensures
        out@ == be_bytes(x),
{
    let mut out: Vec<u8> = Vec::new();
    out.push((x >> 56) as u8);
    out.push((x >> 48) as u8);
    out.push((x >> 40) as u8);
    out.push((x >> 32) as u8);
    out.push((x >> 24) as u8);
    out.push((x >> 16) as u8);
    out.push((x >> 8) as u8);
    out.push(x as u8);
    assert(out@ =~= be_bytes(x));
    out
}

/// Little-endian encoding of a 64-bit integer.
pub fn u64_to_le_bytes(x: u64) -> (out: Vec<u8>)
    ensures
        out@ == le_bytes(x),
{
    let mut out: Vec<u8> = Vec::new();
    out.push(x as u8);
    out.push((x >> 8) as u8);
    out.push((x >> 16) as u8);
    out.push((x >> 24) as u8);
    out.push((x >> 32) as u8);
    out.push((x >> 40) as u8);
    out.push((x >> 48) as u8);
    out.push((x >> 56) as u8);
    assert(out@ =~= le_bytes(x));
    out
}

/// Whether two byte strings hold the same bytes.
pub fn bytes_equal(a: &[u8], b: &[u8]) -> (same: bool)
    ensures
        same == (a@ == b@),
{
    if a.len() != b.len() {
        return false;
    }
    let mut i: usize = 0;
    while i < a.len()
        invariant
            a@.len() == b@.len(),
            0 <= i <= a@.len(),
            forall|j: int| 0 <= j < i ==> a@[j] == b@[j],
        decreases a@.len() - i,
    {
        if a[i] != b[i] {
            return false;
        }
        i += 1;
    }
    assert(a@ =~= b@);
    true
}

/// A fresh vector holding `a` followed by `b`.
pub fn concat_bytes(a: &[u8], b: &[u8]) -> (out: Vec<u8>)
    ensures
        out@ == a@ + b@,
{
    let mut out: Vec<u8> = Vec::new();
    let mut i: usize = 0;
    while i < a.len()
        invariant
            0 <= i <= a@.len(),
            out@ == a@.subrange(0, i as int),
        decreases a@.len() - i,
    {
        out.push(a[i]);
        assert(out@ =~= a@.subrange(0, i + 1));
        i += 1;
    }
    assert(out@ =~= a@);
    let mut j: usize = 0;
    while j < b.len()
        invariant
            0 <= j <= b@.len(),
            out@ == a@ + b@.subrange(0, j as int),
        decreases b@.len() - j,
    {
        out.push(b[j]);
        assert(out@ =~= a@ + b@.subrange(0, j + 1));
        j += 1;
    }
    assert(out@ =~= a@ + b@);
    out
}

/// A fresh copy of a byte string.
pub fn copy_bytes(a: &[u8]) -> (out: Vec<u8>)
    ensures
        out@ == a@,
{
    let empty: Vec<u8> = Vec::new();
    let out = concat_bytes(a, empty.as_slice());
    assert(out@ =~= a@);
    out
}

} // verus!
