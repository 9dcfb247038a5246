//! Where in the ledger's state a resource lives.
//!
//! An address is 70 lower-case hexadecimal digits: the first 6 digits of the
//! SHA-512 digest of the namespace, then the first 64 digits of the SHA-512 digest
//! of the resource key.

use crate::digest::{sha512, sha512_hex_spec};
use crate::error::GatewayError;
use crate::hex::{hex_string, is_lower_hex, to_hex};
use vstd::prelude::*;
use vstd::string::*;
use vstd::utf8::*;

verus! {

/// The number of digits that name the namespace.
pub const PREFIX_LEN: usize = 6;

/// The number of digits of an address.
pub const ADDRESS_LEN: usize = 70;

/// The first `len` digits of the SHA-512 digest of `text`.
pub open spec fn hash_prefix(text: Seq<char>, len: int) -> Seq<char> {
    sha512_hex_spec(encode_utf8(text)).take(len)
}

/// The six digits shared by every address of `namespace`.
pub open spec fn namespace_prefix_spec(namespace: Seq<char>) -> Seq<char> {
    hash_prefix(namespace, PREFIX_LEN as int)
}

/// The address of `key` in `namespace`.
pub open spec fn address_spec(namespace: Seq<char>, key: Seq<char>) -> Seq<char> {
    namespace_prefix_spec(namespace) + hash_prefix(key, ADDRESS_LEN - PREFIX_LEN)
}

/// True when `text` has the shape of an address.
pub open spec fn is_address(text: Seq<char>) -> bool {
    text.len() == ADDRESS_LEN && is_lower_hex(text)
}

/// Any two addresses of one namespace begin with the digits of that namespace,
/// whatever their keys.
pub proof fn lemma_same_namespace_same_prefix(
    namespace: Seq<char>,
    key1: Seq<char>,
    key2: Seq<char>,
)
    ensures
        namespace_prefix_spec(namespace).is_prefix_of(address_spec(namespace, key1)),
        namespace_prefix_spec(namespace).is_prefix_of(address_spec(namespace, key2)),
        address_spec(namespace, key1).take(namespace_prefix_spec(namespace).len() as int)
            == address_spec(namespace, key2).take(namespace_prefix_spec(namespace).len() as int),
{
}

/// Writes the first `len` hexadecimal digits of `digest`.
pub fn leading_digits(digest: &[u8], len: usize) -> (digits: String)
    requires
        len <= 2 * digest@.len(),
    ensures
        digits@ == hex_string(digest@).take(len as int),
        digits@.len() == len,
        is_lower_hex(digits@),
{
    let all = to_hex(digest);
    all.as_str().substring_ascii(0, len).to_owned()
}

/// Puts an address together from the SHA-512 digests of its namespace and of
/// its key.
pub fn address_of_digests(namespace_digest: &[u8], key_digest: &[u8]) -> (found: String)
    requires
        namespace_digest@.len() == 64,
        key_digest@.len() == 64,
    ensures
        found@ == hex_string(namespace_digest@).take(PREFIX_LEN as int) + hex_string(
            key_digest@,
        ).take(ADDRESS_LEN - PREFIX_LEN),
        is_address(found@),
{
    let prefix = leading_digits(namespace_digest, PREFIX_LEN);
    let rest = leading_digits(key_digest, ADDRESS_LEN - PREFIX_LEN);
    prefix.concat(rest.as_str())
}

/// Computes the first `len` digits of the SHA-512 digest of `text`.
pub fn hash(text: &str, len: usize) -> (digits: String)
    requires
        len <= 128,
    ensures
        digits@ == hash_prefix(text@, len as int),
        digits@.len() == len,
        is_lower_hex(digits@),
{
    let digest = sha512(text.as_bytes());
    leading_digits(digest.as_slice(), len)
}

/// Computes the six digits shared by every address of `namespace`.
pub fn namespace_prefix(namespace: &str) -> (prefix: String)
    ensures
        prefix@ == namespace_prefix_spec(namespace@),
        prefix@.len() == PREFIX_LEN,
        is_lower_hex(prefix@),
{
    hash(namespace, PREFIX_LEN)
}

/// Computes the address of `key` in `namespace`. An empty namespace or an empty
/// key is refused; every other pair has an address.
pub fn address(namespace: &str, key: &str) -> (res: Result<String, GatewayError>)
    ensures
        namespace@.len() == 0 || key@.len() == 0 ==> res == Err::<String, GatewayError>(
            GatewayError::AddressingError,
        ),
        namespace@.len() > 0 && key@.len() > 0 ==> (res matches Ok(found) && found@
            == address_spec(namespace@, key@) && is_address(found@) && found@.take(
            PREFIX_LEN as int,
        ) == namespace_prefix_spec(namespace@)),
{
    if namespace.is_empty() || key.is_empty() {
        return Err(GatewayError::AddressingError);
    }
    let namespace_digest = sha512(namespace.as_bytes());
    let key_digest = sha512(key.as_bytes());
    let found = address_of_digests(namespace_digest.as_slice(), key_digest.as_slice());
    Ok(found)
}

} // verus!
