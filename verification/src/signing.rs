//! Keys and signatures: ECDSA over the curve secp256k1, on the SHA-256 digest of
//! the message, with keys and signatures written as hexadecimal text.

use crate::digest::{sha256, sha256_digest};
use crate::error::GatewayError;
use crate::hex::{from_hex, hex_string, parse_hex, to_hex};
use vstd::prelude::*;

verus! {

/// The compressed public key of the private key `secret`, where `secret` is a
/// valid private key of the curve.
pub uninterp spec fn secp256k1_public_key(secret: Seq<u8>) -> Option<Seq<u8>>;

/// The compact ECDSA signature of `digest` under `secret`, with the nonce of
/// RFC 6979, where `secret` is a valid private key of the curve.
pub uninterp spec fn ecdsa_signature(digest: Seq<u8>, secret: Seq<u8>) -> Option<Seq<u8>>;

/// Whether `signature` is a well-formed compact signature, `public_key` a
/// well-formed public key, and the signature one of `digest` under that key.
pub uninterp spec fn ecdsa_accepts(signature: Seq<u8>, digest: Seq<u8>, public_key: Seq<u8>) -> bool;

/// Trusted: `secp256k1::SecretKey::from_secret_bytes`, which refuses what is not
/// a private key of the curve, then `secp256k1::PublicKey::from_secret_key` and
/// `serialize`, which give the 33 bytes of the compressed public key.
#[verifier::external_body]
fn derive_public_key(secret: &[u8; 32]) -> (key: Option<Vec<u8>>)
    ensures
        match secp256k1_public_key(secret@) {
            Some(bytes) => key matches Some(found) && found@ == bytes && bytes.len() == 33,
            None => key is None,
        },
{
    match secp256k1::SecretKey::from_secret_bytes(*secret) {
        Ok(key) => Some(secp256k1::PublicKey::from_secret_key(&key).serialize().to_vec()),
        Err(_) => None,
    }
}

/// Trusted: `secp256k1::ecdsa::sign` on the message made of `digest`, which
/// draws its nonce from the message and the key alone, then `serialize_compact`,
/// which gives the 64 bytes of the signature.
#[verifier::external_body]
fn sign_digest(digest: &[u8; 32], secret: &[u8; 32]) -> (signature: Option<Vec<u8>>)
    ensures
        match ecdsa_signature(digest@, secret@) {
            Some(bytes) => signature matches Some(found) && found@ == bytes && bytes.len() == 64,
            None => signature is None,
        },
{
    match secp256k1::SecretKey::from_secret_bytes(*secret) {
        Ok(key) => {
            let message = secp256k1::Message::from_digest(*digest);
            Some(secp256k1::ecdsa::sign(message, &key).serialize_compact().to_vec())
        },
        Err(_) => None,
    }
}

/// Trusted: `secp256k1::ecdsa::Signature::from_compact` and
/// `secp256k1::PublicKey::from_slice`, which refuse malformed input, then
/// `secp256k1::ecdsa::verify` on the message made of `digest`.
#[verifier::external_body]
fn verify_digest(signature: &[u8], digest: &[u8; 32], public_key: &[u8]) -> (accepted: bool)
    ensures
        accepted == ecdsa_accepts(signature@, digest@, public_key@),
{
    match (
        secp256k1::ecdsa::Signature::from_compact(signature),
        secp256k1::PublicKey::from_slice(public_key),
    ) {
        (Ok(sig), Ok(key)) => {
            secp256k1::ecdsa::verify(&sig, secp256k1::Message::from_digest(*digest), &key).is_ok()
        },
        _ => false,
    }
}

/// Copies 32 bytes into an array; `None` for any other length.
fn array_of_32(bytes: &[u8]) -> (res: Option<[u8; 32]>)
    ensures
        bytes@.len() == 32 ==> (res matches Some(array) && array@ == bytes@),
        bytes@.len() != 32 ==> res is None,
{
    if bytes.len() != 32 {
        return None;
    }
    let mut array: [u8; 32] = [0u8;32];
    let mut i: usize = 0;
    while i < 32
        invariant
            i <= 32,
            bytes@.len() == 32,
            forall|k: int| 0 <= k < i ==> array@[k] == bytes@[k],
        decreases 32 - i,
    {
        array[i] = bytes[i];
        i += 1;
    }
    Some(array)
}

/// The public key that belongs to the private key written as `private_key`:
/// `None` unless that text is 64 hexadecimal digits that stand for a private key
/// of the curve.
pub open spec fn public_key_of(private_key: Seq<char>) -> Option<Seq<char>> {
    match parse_hex(private_key) {
        Some(secret) => if secret.len() == 32 {
            match secp256k1_public_key(secret) {
                Some(key) => Some(hex_string(key)),
                None => None,
            }
        } else {
            None
        },
        None => None,
    }
}

/// The signature of `message` under the private key written as `private_key`.
pub open spec fn signature_of(message: Seq<u8>, private_key: Seq<char>) -> Option<Seq<char>> {
    match parse_hex(private_key) {
        Some(secret) => match ecdsa_signature(sha256_digest(message), secret) {
            Some(signature) => Some(hex_string(signature)),
            None => None,
        },
        None => None,
    }
}

/// Whether `signature` is the hexadecimal text of a signature of `message` that
/// verifies under the public key written as `public_key`.
pub open spec fn signature_valid(
    signature: Seq<char>,
    message: Seq<u8>,
    public_key: Seq<char>,
) -> bool {
    match (parse_hex(signature), parse_hex(public_key)) {
        (Some(sig), Some(key)) => ecdsa_accepts(sig, sha256_digest(message), key),
        _ => false,
    }
}

/// Checks `signature` over `message` against `public_key`, both written as
/// hexadecimal text.
pub fn verify(signature: &str, message: &[u8], public_key: &str) -> (accepted: bool)
    ensures
        accepted == signature_valid(signature@, message@, public_key@),
{
    match (from_hex(signature), from_hex(public_key)) {
        (Some(sig), Some(key)) => {
            let digest = sha256(message);
            match array_of_32(digest.as_slice()) {
                Some(array) => verify_digest(sig.as_slice(), &array, key.as_slice()),
                None => false,
            }
        },
        _ => false,
    }
}

/// A private key with its public key. The private key cannot be read back.
pub struct SigningContext {
    secret: [u8; 32],
    private_key: Ghost<Seq<char>>,
    public_key: String,
}

impl SigningContext {
    #[verifier::type_invariant]
    spec fn consistent(self) -> bool {
        &&& parse_hex(self.private_key@) == Some(self.secret@)
        &&& public_key_of(self.private_key@) == Some(self.public_key@)
        &&& self.public_key@.len() == 66
    }

    /// The private key, as the hexadecimal text the context was made from.
    pub closed spec fn private_key(&self) -> Seq<char> {
        self.private_key@
    }

    /// The public key, as 66 hexadecimal digits.
    pub closed spec fn public_key(&self) -> Seq<char> {
        self.public_key@
    }

    /// Makes a context from a private key written as 64 hexadecimal digits.
    /// Text that does not stand for a private key of the curve is refused.
    pub fn from_hex(private_key: &str) -> (res: Result<SigningContext, GatewayError>)
        ensures
            match public_key_of(private_key@) {
                Some(key) => res matches Ok(context) && context.private_key() == private_key@
                    && context.public_key() == key,
                None => res == Err::<SigningContext, GatewayError>(GatewayError::SigningError),
            },
    {
        let bytes = match from_hex(private_key) {
            Some(bytes) => bytes,
            None => {
                return Err(GatewayError::SigningError);
            },
        };
        let secret = match array_of_32(bytes.as_slice()) {
            Some(secret) => secret,
            None => {
                return Err(GatewayError::SigningError);
            },
        };
        match derive_public_key(&secret) {
            Some(key) => {
                Ok(
                    SigningContext {
                        secret,
                        private_key: Ghost(private_key@),
                        public_key: to_hex(key.as_slice()),
                    },
                )
            },
            None => Err(GatewayError::SigningError),
        }
    }

    /// The public key as hexadecimal text.
    pub fn public_key_hex(&self) -> (key: String)
        ensures
            key@ == self.public_key(),
            key@.len() == 66,
            public_key_of(self.private_key()) == Some(key@),
    {
        proof {
            use_type_invariant(self);
        }
        self.public_key.clone()
    }

    /// Signs `message`: the signature as 128 hexadecimal digits, or
    /// `SigningError` where the signer produces none.
    pub fn sign(&self, message: &[u8]) -> (res: Result<String, GatewayError>)
        ensures
            match signature_of(message@, self.private_key()) {
                Some(signature) => res matches Ok(found) && found@ == signature && found@.len()
                    == 128,
                None => res == Err::<String, GatewayError>(GatewayError::SigningError),
            },
    {
        proof {
            use_type_invariant(self);
        }
        let digest = sha256(message);
        let array = match array_of_32(digest.as_slice()) {
            Some(array) => array,
            None => {
                return Err(GatewayError::SigningError);
            },
        };
        match sign_digest(&array, &self.secret) {
            Some(signature) => {
                Ok(to_hex(signature.as_slice()))
            },
            None => Err(GatewayError::SigningError),
        }
    }
}

} // verus!
