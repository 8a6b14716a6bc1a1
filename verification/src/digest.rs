//! Randomness, hashing and hexadecimal text: the outside calls that keys,
//! secrets and integrity hashes are made from.
use vstd::prelude::*;
use rand::Rng;
use sha2::Digest;

verus! {

/// Fills `n` bytes from `rand`'s thread-local generator; only the length is stated.
#[verifier::external_body]
pub(crate) fn random_bytes(n: usize) -> (v: Vec<u8>)
    ensures
        v@.len() == n,
{
    let mut v = vec![0u8; n];
    rand::rng().fill(&mut v[..]);
    v
}

/// Draws a number below `n` from `rand`'s thread-local generator
/// (`random_range` panics on an empty range, hence `n > 0`).
#[verifier::external_body]
pub(crate) fn random_below(n: usize) -> (r: usize)
    requires
        n > 0,
    ensures
        r < n,
{
    rand::rng().random_range(0..n)
}

/// The sixteen lowercase hexadecimal digits.
pub open spec fn hex_digits() -> Seq<char> {
    seq!['0', '1', '2', '3', '4', '5', '6', '7', '8', '9', 'a', 'b', 'c', 'd', 'e', 'f']
}

/// The lowercase hexadecimal rendering of bytes: two digits per byte, high first.
pub open spec fn hex_of(bytes: Seq<u8>) -> Seq<char>
    decreases bytes.len(),
{
    if bytes.len() == 0 {
        Seq::empty()
    } else {
        hex_of(bytes.drop_last()) + seq![hex_digits()[(bytes.last() / 16) as int], hex_digits()[(bytes.last() % 16) as int]]
    }
}

/// Two hexadecimal digits per byte.
pub proof fn lemma_hex_len(bytes: Seq<u8>)
    ensures
        hex_of(bytes).len() == 2 * bytes.len(),
    decreases bytes.len(),
{
    if bytes.len() > 0 {
        lemma_hex_len(bytes.drop_last());
    }
}

/// Calls `hex::encode`, which writes each byte as two lowercase hex digits.
#[verifier::external_body]
pub(crate) fn hex_encode(bytes: &Vec<u8>) -> (s: String)
    ensures
        s@ == hex_of(bytes@),
{
    hex::encode(bytes)
}

/// What `sha2::Sha256` digests these bytes to.
pub uninterp spec fn sha256_of(data: Seq<u8>) -> Seq<u8>;

/// Digests `data` with `sha2::Sha256`: 32 bytes, named `sha256_of`.
#[verifier::external_body]
pub(crate) fn sha256_digest(data: &Vec<u8>) -> (d: Vec<u8>)
    ensures
        d@ == sha256_of(data@),
        d@.len() == 32,
{
    sha2::Sha256::digest(data.as_slice()).to_vec()
}

/// A fresh random identifier from `uuid::Uuid::new_v4`, as text: `uuid`
/// writes it in the hyphenated form of 36 characters. Its value is left
/// free.
#[verifier::external_body]
pub(crate) fn new_uuid() -> (r: String)
    ensures
        r@.len() == 36,
{
    uuid::Uuid::new_v4().to_string()
}

} // verus!
