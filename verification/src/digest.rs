//! SHA-256 digests and how they are written.

use crate::text::{hex_of, hex_text, is_lower_hex};
use vstd::prelude::*;

verus! {

/// The SHA-256 digest of a byte sequence.
pub uninterp spec fn sha256_of(bytes: Seq<u8>) -> Seq<u8>;

/// `sha2::Sha256::digest`, with its output as an array: the 32 bytes of the digest of `bytes`.
#[verifier::external_body]
fn sha256(bytes: &[u8]) -> (digest: [u8; 32])
    ensures
        digest@ == sha256_of(bytes@),
{
    <sha2::Sha256 as sha2::Digest>::digest(bytes).into()
}

/// The digest of a byte sequence as it is written: two lower-case hexadecimal digits a byte.
pub open spec fn digest_text(bytes: Seq<u8>) -> Seq<char> {
    hex_text(sha256_of(bytes))
}

/// The digest of a byte sequence, written out.
pub fn sha256_text(bytes: &[u8]) -> (text: String)
    ensures
        text@ == digest_text(bytes@),
        text@.len() == 64,
        is_lower_hex(text@),
{
    let digest = sha256(bytes);
    hex_of(&digest)
}

} // verus!
