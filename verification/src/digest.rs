//! Content digests of evidence bytes.

use vstd::prelude::*;

use crate::failure::{ensure, failed, Checked};
use crate::text::joined;

verus! {

/// The lowercase hexadecimal BLAKE3 digest of a byte sequence.
pub uninterp spec fn blake3_hex(bytes: Seq<u8>) -> Seq<char>;

pub open spec fn is_lower_hex(c: char) -> bool {
    ('0' <= c && c <= '9') || ('a' <= c && c <= 'f')
}

/// Calls `blake3::hash` and `blake3::Hash::to_hex`: the digest depends on the bytes alone and is
/// written as 64 lowercase hexadecimal digits.
#[verifier::external_body]
pub(crate) fn hash_hex(bytes: &[u8]) -> (r: String)
    ensures
        r@ == blake3_hex(bytes@),
        r@.len() == 64,
        forall|i: int| 0 <= i < r@.len() ==> is_lower_hex(#[trigger] r@[i]),
{
    blake3::hash(bytes).to_hex().to_string()
}

/// The content identity of a byte sequence: `b3_` and its digest.
pub open spec fn identity_of(bytes: Seq<u8>) -> Seq<char> {
    "b3_"@ + blake3_hex(bytes)
}

pub fn content_digest(bytes: &[u8]) -> (r: String)
    ensures
        r@ == blake3_hex(bytes@),
        r@.len() == 64,
{
    hash_hex(bytes)
}

pub fn content_identity(bytes: &[u8]) -> (r: String)
    ensures
        r@ == identity_of(bytes@),
        r@.len() == 67,
{
    proof {
        reveal_strlit("b3_");
    }
    joined("b3_", hash_hex(bytes).as_str())
}

/// The identity and size of a file whose content was read while its metadata gave `expected`
/// bytes: fails where the file changed in between.
pub fn hash_file(bytes: &[u8], expected: u64) -> (r: Checked<(String, u64)>)
    ensures
        match r {
            Ok((identity, size)) => bytes@.len() == expected && identity@ == identity_of(bytes@)
                && size == expected,
            Err(_) => bytes@.len() != expected,
        },
        bytes@.len() != expected ==> failed(r, "evidence executable changed while it was hashed"@),
{
    ensure(
        bytes.len() as u64 == expected,
        "evidence executable changed while it was hashed",
    )?;
    Ok((content_identity(bytes), expected))
}

/// Whether bytes have the size and the digest that were recorded for them.
pub open spec fn preserved(bytes: Seq<u8>, size: u64, digest: Seq<char>) -> bool {
    bytes.len() == size && blake3_hex(bytes) == digest
}

pub fn is_preserved(bytes: &[u8], size: u64, digest: &str) -> (r: bool)
    ensures
        r == preserved(bytes@, size, digest@),
{
    bytes.len() as u64 == size && hash_hex(bytes) == digest.to_owned()
}

} // verus!
