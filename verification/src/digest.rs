//! SHA-2 digests of byte strings.

use crate::hex::{hex_string, is_lower_hex, lemma_hex_string_shape, to_hex};
use sha2::Digest;
use vstd::prelude::*;

verus! {

/// The SHA-512 digest of `data`.
pub uninterp spec fn sha512_digest(data: Seq<u8>) -> Seq<u8>;

/// The SHA-256 digest of `data`.
pub uninterp spec fn sha256_digest(data: Seq<u8>) -> Seq<u8>;

/// Trusted: `sha2::Sha512::digest`, whose output is the 64 bytes of the SHA-512
/// digest of its input.
#[verifier::external_body]
pub(crate) fn sha512(data: &[u8]) -> (digest: Vec<u8>)
    ensures
        digest@ == sha512_digest(data@),
        digest@.len() == 64,
{
    sha2::Sha512::digest(data).to_vec()
}

/// Trusted: `sha2::Sha256::digest`, whose output is the 32 bytes of the SHA-256
/// digest of its input.
#[verifier::external_body]
pub(crate) fn sha256(data: &[u8]) -> (digest: Vec<u8>)
    ensures
        digest@ == sha256_digest(data@),
        digest@.len() == 32,
{
    sha2::Sha256::digest(data).to_vec()
}

/// The SHA-512 digest of `data` as 128 lower-case hexadecimal digits.
pub open spec fn sha512_hex_spec(data: Seq<u8>) -> Seq<char> {
    hex_string(sha512_digest(data))
}

/// Computes the SHA-512 digest of `data` as 128 lower-case hexadecimal digits.
pub fn sha512_hex(data: &[u8]) -> (text: String)
    ensures
        text@ == sha512_hex_spec(data@),
        text@.len() == 128,
        is_lower_hex(text@),
{
    let digest = sha512(data);
    proof {
        lemma_hex_string_shape(digest@);
    }
    to_hex(digest.as_slice())
}

} // verus!
