//! Transactions: a header that names the family, the addresses and the signer,
//! the signature of that header, and the payload.

use crate::digest::{sha512_hex, sha512_hex_spec};
use crate::error::GatewayError;
use crate::signing::{public_key_of, signature_of, signature_valid, verify, SigningContext};
use crate::wire::{
    field, lemma_parse_field_inverse, lemma_parse_field_of_field, lemma_parse_text_field_inverse,
    lemma_parse_text_field_of_text_field, lemma_parse_text_fields_inverse,
    lemma_parse_text_fields_of_text_fields, parse_field, parse_text_field, parse_text_fields,
    put_field, put_text_field, put_text_fields, take_field, take_text_field, take_text_fields,
    text_field, text_fields,
};
use vstd::prelude::*;
use vstd::slice::slice_to_vec;

verus! {

/// The tag of the family name in a transaction header.
pub const TAG_FAMILY_NAME: u8 = 0x1A;

/// The tag of the family version in a transaction header.
pub const TAG_FAMILY_VERSION: u8 = 0x22;

/// The tag of an input address in a transaction header.
pub const TAG_INPUT: u8 = 0x2A;

/// The tag of an output address in a transaction header.
pub const TAG_OUTPUT: u8 = 0x3A;

/// The tag of the payload's digest in a transaction header.
pub const TAG_PAYLOAD_SHA512: u8 = 0x4A;

/// The tag of the signer's public key in a transaction header.
pub const TAG_SIGNER_PUBLIC_KEY: u8 = 0x52;

/// The tag of the header in a transaction or a batch.
pub const TAG_HEADER: u8 = 0x0A;

/// The tag of the header's signature in a transaction or a batch.
pub const TAG_HEADER_SIGNATURE: u8 = 0x12;

/// The tag of the payload in a transaction.
pub const TAG_PAYLOAD: u8 = 0x1A;

/// What a transaction declares of itself; it is the part that is signed.
#[derive(Debug, PartialEq, Eq)]
pub struct TransactionHeader {
    /// The family of transaction processors that the payload is meant for.
    pub family_name: String,
    /// The version of that family.
    pub family_version: String,
    /// The addresses that the transaction may read.
    pub inputs: Vec<String>,
    /// The addresses that the transaction may write.
    pub outputs: Vec<String>,
    /// The SHA-512 digest of the payload, as hexadecimal text.
    pub payload_sha512: String,
    /// The public key of the signer of the transaction.
    pub signer_public_key: String,
}

/// The mathematical content of a transaction header.
pub ghost struct TransactionHeaderView {
    pub family_name: Seq<char>,
    pub family_version: Seq<char>,
    pub inputs: Seq<Seq<char>>,
    pub outputs: Seq<Seq<char>>,
    pub payload_sha512: Seq<char>,
    pub signer_public_key: Seq<char>,
}

impl View for TransactionHeader {
    type V = TransactionHeaderView;

    open spec fn view(&self) -> TransactionHeaderView {
        TransactionHeaderView {
            family_name: self.family_name@,
            family_version: self.family_version@,
            inputs: self.inputs.deep_view(),
            outputs: self.outputs.deep_view(),
            payload_sha512: self.payload_sha512@,
            signer_public_key: self.signer_public_key@,
        }
    }
}

/// A signed transaction.
#[derive(Debug, PartialEq, Eq)]
pub struct Transaction {
    /// The encoded header.
    pub header: Vec<u8>,
    /// The signature of the encoded header, as hexadecimal text.
    pub header_signature: String,
    /// The payload, opaque to the gateway.
    pub payload: Vec<u8>,
}

/// The mathematical content of a transaction.
pub ghost struct TransactionView {
    pub header: Seq<u8>,
    pub header_signature: Seq<char>,
    pub payload: Seq<u8>,
}

impl View for Transaction {
    type V = TransactionView;

    open spec fn view(&self) -> TransactionView {
        TransactionView {
            header: self.header@,
            header_signature: self.header_signature@,
            payload: self.payload@,
        }
    }
}

impl DeepView for Transaction {
    type V = TransactionView;

    open spec fn deep_view(&self) -> TransactionView {
        self@
    }
}

/// The canonical encoding of a transaction header.
pub open spec fn encode_transaction_header(h: TransactionHeaderView) -> Seq<u8> {
    text_field(TAG_FAMILY_NAME, h.family_name) + (text_field(TAG_FAMILY_VERSION, h.family_version)
        + (text_fields(TAG_INPUT, h.inputs) + (text_fields(TAG_OUTPUT, h.outputs) + (text_field(
        TAG_PAYLOAD_SHA512,
        h.payload_sha512,
    ) + text_field(TAG_SIGNER_PUBLIC_KEY, h.signer_public_key)))))
}

/// Reads a transaction header; the whole input must be its canonical encoding.
pub open spec fn parse_transaction_header(s: Seq<u8>) -> Option<TransactionHeaderView> {
    match parse_text_field(s, TAG_FAMILY_NAME) {
        None => None,
        Some((family_name, s2)) => match parse_text_field(s2, TAG_FAMILY_VERSION) {
            None => None,
            Some((family_version, s3)) => match parse_text_fields(s3, TAG_INPUT) {
                None => None,
                Some((inputs, s4)) => match parse_text_fields(s4, TAG_OUTPUT) {
                    None => None,
                    Some((outputs, s5)) => match parse_text_field(s5, TAG_PAYLOAD_SHA512) {
                        None => None,
                        Some((payload_sha512, s6)) => match parse_text_field(
                            s6,
                            TAG_SIGNER_PUBLIC_KEY,
                        ) {
                            None => None,
                            Some((signer_public_key, s7)) => if s7.len() == 0 {
                                Some(
                                    TransactionHeaderView {
                                        family_name,
                                        family_version,
                                        inputs,
                                        outputs,
                                        payload_sha512,
                                        signer_public_key,
                                    },
                                )
                            } else {
                                None
                            },
                        },
                    },
                },
            },
        },
    }
}

/// The canonical encoding of a transaction.
pub open spec fn encode_transaction(t: TransactionView) -> Seq<u8> {
    field(TAG_HEADER, t.header) + (text_field(TAG_HEADER_SIGNATURE, t.header_signature) + field(
        TAG_PAYLOAD,
        t.payload,
    ))
}

/// Reads a transaction; the whole input must be its canonical encoding.
pub open spec fn parse_transaction(s: Seq<u8>) -> Option<TransactionView> {
    match parse_field(s, TAG_HEADER) {
        None => None,
        Some((header, s1)) => match parse_text_field(s1, TAG_HEADER_SIGNATURE) {
            None => None,
            Some((header_signature, s2)) => match parse_field(s2, TAG_PAYLOAD) {
                None => None,
                Some((payload, s3)) => if s3.len() == 0 {
                    Some(TransactionView { header, header_signature, payload })
                } else {
                    None
                },
            },
        },
    }
}

/// The identity of a transaction: the SHA-512 digest of its encoded header, as
/// hexadecimal text.
pub open spec fn transaction_id_spec(header: Seq<u8>) -> Seq<char> {
    sha512_hex_spec(header)
}

/// Reading the encoding of a header gives the header back.
pub proof fn lemma_parse_transaction_header_of_encoding(h: TransactionHeaderView)
    ensures
        parse_transaction_header(encode_transaction_header(h)) == Some(h),
{
    let e7 = text_field(TAG_SIGNER_PUBLIC_KEY, h.signer_public_key);
    let e6 = text_field(TAG_PAYLOAD_SHA512, h.payload_sha512) + e7;
    let e5 = text_fields(TAG_OUTPUT, h.outputs) + e6;
    let e4 = text_fields(TAG_INPUT, h.inputs) + e5;
    let e3 = text_field(TAG_FAMILY_VERSION, h.family_version) + e4;
    lemma_parse_text_field_of_text_field(TAG_FAMILY_NAME, h.family_name, e3);
    lemma_parse_text_field_of_text_field(TAG_FAMILY_VERSION, h.family_version, e4);
    lemma_parse_text_fields_of_text_fields(TAG_INPUT, h.inputs, e5);
    lemma_parse_text_fields_of_text_fields(TAG_OUTPUT, h.outputs, e6);
    lemma_parse_text_field_of_text_field(TAG_PAYLOAD_SHA512, h.payload_sha512, e7);
    lemma_parse_text_field_of_text_field(
        TAG_SIGNER_PUBLIC_KEY,
        h.signer_public_key,
        Seq::empty(),
    );
}

/// Whatever reads as a header is the encoding of that header.
pub proof fn lemma_parse_transaction_header_inverse(s: Seq<u8>)
    ensures
        parse_transaction_header(s) matches Some(h) ==> s == encode_transaction_header(h),
{
    if let Some(h) = parse_transaction_header(s) {
        lemma_parse_text_field_inverse(s, TAG_FAMILY_NAME);
        let (_, s2) = parse_text_field(s, TAG_FAMILY_NAME)->0;
        lemma_parse_text_field_inverse(s2, TAG_FAMILY_VERSION);
        let (_, s3) = parse_text_field(s2, TAG_FAMILY_VERSION)->0;
        lemma_parse_text_fields_inverse(s3, TAG_INPUT);
        let (_, s4) = parse_text_fields(s3, TAG_INPUT)->0;
        lemma_parse_text_fields_inverse(s4, TAG_OUTPUT);
        let (_, s5) = parse_text_fields(s4, TAG_OUTPUT)->0;
        lemma_parse_text_field_inverse(s5, TAG_PAYLOAD_SHA512);
        let (_, s6) = parse_text_field(s5, TAG_PAYLOAD_SHA512)->0;
        lemma_parse_text_field_inverse(s6, TAG_SIGNER_PUBLIC_KEY);
    }
}

/// Reading the encoding of a transaction gives the transaction back.
pub proof fn lemma_parse_transaction_of_encoding(t: TransactionView)
    ensures
        parse_transaction(encode_transaction(t)) == Some(t),
{
    let e3 = field(TAG_PAYLOAD, t.payload);
    let e2 = text_field(TAG_HEADER_SIGNATURE, t.header_signature) + e3;
    lemma_parse_field_of_field(TAG_HEADER, t.header, e2);
    lemma_parse_text_field_of_text_field(TAG_HEADER_SIGNATURE, t.header_signature, e3);
    lemma_parse_field_of_field(TAG_PAYLOAD, t.payload, Seq::empty());
}

/// Whatever reads as a transaction is the encoding of that transaction.
pub proof fn lemma_parse_transaction_inverse(s: Seq<u8>)
    ensures
        parse_transaction(s) matches Some(t) ==> s == encode_transaction(t),
{
    if let Some(t) = parse_transaction(s) {
        lemma_parse_field_inverse(s, TAG_HEADER);
        let (_, s1) = parse_field(s, TAG_HEADER)->0;
        lemma_parse_text_field_inverse(s1, TAG_HEADER_SIGNATURE);
        let (_, s2) = parse_text_field(s1, TAG_HEADER_SIGNATURE)->0;
        lemma_parse_field_inverse(s2, TAG_PAYLOAD);
    }
}

impl TransactionHeader {
    /// Writes the canonical encoding of the header.
    pub fn to_bytes(&self) -> (bytes: Vec<u8>)
        ensures
            bytes@ == encode_transaction_header(self@),
    {
        let mut out: Vec<u8> = Vec::new();
        put_text_field(&mut out, TAG_FAMILY_NAME, self.family_name.as_str());
        put_text_field(&mut out, TAG_FAMILY_VERSION, self.family_version.as_str());
        put_text_fields(&mut out, TAG_INPUT, &self.inputs);
        put_text_fields(&mut out, TAG_OUTPUT, &self.outputs);
        put_text_field(&mut out, TAG_PAYLOAD_SHA512, self.payload_sha512.as_str());
        put_text_field(&mut out, TAG_SIGNER_PUBLIC_KEY, self.signer_public_key.as_str());
        out
    }

    /// Reads a header from its canonical encoding; any other input is refused.
    pub fn from_bytes(bytes: &[u8]) -> (res: Option<TransactionHeader>)
        ensures
            match parse_transaction_header(bytes@) {
                Some(h) => res matches Some(found) && found@ == h,
                None => res is None,
            },
    {
        let (family_name, s2) = take_text_field(bytes, TAG_FAMILY_NAME)?;
        let (family_version, s3) = take_text_field(s2, TAG_FAMILY_VERSION)?;
        let (inputs, s4) = take_text_fields(s3, TAG_INPUT)?;
        let (outputs, s5) = take_text_fields(s4, TAG_OUTPUT)?;
        let (payload_sha512, s6) = take_text_field(s5, TAG_PAYLOAD_SHA512)?;
        let (signer_public_key, s7) = take_text_field(s6, TAG_SIGNER_PUBLIC_KEY)?;
        if s7.len() != 0 {
            return None;
        }
        Some(
            TransactionHeader {
                family_name,
                family_version,
                inputs,
                outputs,
                payload_sha512,
                signer_public_key,
            },
        )
    }
}

impl Transaction {
    /// Writes the canonical encoding of the transaction.
    pub fn to_bytes(&self) -> (bytes: Vec<u8>)
        ensures
            bytes@ == encode_transaction(self@),
    {
        let mut out: Vec<u8> = Vec::new();
        put_field(&mut out, TAG_HEADER, self.header.as_slice());
        put_text_field(&mut out, TAG_HEADER_SIGNATURE, self.header_signature.as_str());
        put_field(&mut out, TAG_PAYLOAD, self.payload.as_slice());
        out
    }

    /// Reads a transaction from its canonical encoding; any other input is
    /// refused.
    pub fn from_bytes(bytes: &[u8]) -> (res: Option<Transaction>)
        ensures
            match parse_transaction(bytes@) {
                Some(t) => res matches Some(found) && found@ == t,
                None => res is None,
            },
    {
        let (header, s1) = take_field(bytes, TAG_HEADER)?;
        let (header_signature, s2) = take_text_field(s1, TAG_HEADER_SIGNATURE)?;
        let (payload, s3) = take_field(s2, TAG_PAYLOAD)?;
        if s3.len() != 0 {
            return None;
        }
        Some(
            Transaction {
                header: slice_to_vec(header),
                header_signature,
                payload: slice_to_vec(payload),
            },
        )
    }

    /// The identity of the transaction.
    pub fn id(&self) -> (id: String)
        ensures
            id@ == transaction_id_spec(self@.header),
            id@.len() == 128,
    {
        sha512_hex(self.header.as_slice())
    }
}

/// The header of a transaction of the given family over `payload`, signed
/// under `public_key`.
pub open spec fn header_for(
    family_name: Seq<char>,
    family_version: Seq<char>,
    payload: Seq<u8>,
    inputs: Seq<Seq<char>>,
    outputs: Seq<Seq<char>>,
    public_key: Seq<char>,
) -> TransactionHeaderView {
    TransactionHeaderView {
        family_name,
        family_version,
        inputs,
        outputs,
        payload_sha512: sha512_hex_spec(payload),
        signer_public_key: public_key,
    }
}

/// The transaction made of an encoded header, a payload and what the signer
/// answered: there is one exactly when the signer gave a signature and that
/// signature was accepted on checking.
pub open spec fn assembled(
    header: Seq<u8>,
    payload: Seq<u8>,
    signature: Option<Seq<char>>,
    accepted: bool,
) -> Option<TransactionView> {
    match signature {
        Some(header_signature) => if accepted {
            Some(TransactionView { header, header_signature, payload })
        } else {
            None
        },
        None => None,
    }
}

/// The transaction that `TransactionBuilder::build` makes of its arguments, where
/// `private_key` is the signer's key; `None` where signing fails.
pub open spec fn built_transaction(
    family_name: Seq<char>,
    family_version: Seq<char>,
    payload: Seq<u8>,
    inputs: Seq<Seq<char>>,
    outputs: Seq<Seq<char>>,
    private_key: Seq<char>,
) -> Option<TransactionView> {
    match public_key_of(private_key) {
        Some(public_key) => {
            let header = encode_transaction_header(
                header_for(family_name, family_version, payload, inputs, outputs, public_key),
            );
            let signature = signature_of(header, private_key);
            assembled(
                header,
                payload,
                signature,
                signature is Some && signature_valid(signature->0, header, public_key),
            )
        },
        None => None,
    }
}

/// What holds of a transaction that can be trusted: its header reads as a
/// header, its signature verifies over the encoded header under the signer's key
/// named in that header, and the header names the digest of its payload.
pub open spec fn transaction_valid(t: TransactionView) -> bool {
    match parse_transaction_header(t.header) {
        Some(h) => signature_valid(t.header_signature, t.header, h.signer_public_key)
            && h.payload_sha512 == sha512_hex_spec(t.payload),
        None => false,
    }
}

/// Every transaction that the builder makes is valid: its signature verifies
/// under the public key in its own header. It carries the payload it was given,
/// and its header names the family, the addresses and the signer it was given.
pub proof fn lemma_built_transaction_valid(
    family_name: Seq<char>,
    family_version: Seq<char>,
    payload: Seq<u8>,
    inputs: Seq<Seq<char>>,
    outputs: Seq<Seq<char>>,
    private_key: Seq<char>,
)
    ensures
        built_transaction(family_name, family_version, payload, inputs, outputs, private_key)
            matches Some(t) ==> {
            &&& transaction_valid(t)
            &&& t.payload == payload
            &&& public_key_of(private_key) matches Some(public_key)
            &&& parse_transaction_header(t.header) == Some(
                header_for(family_name, family_version, payload, inputs, outputs, public_key),
            )
        },
{
    if let Some(public_key) = public_key_of(private_key) {
        lemma_parse_transaction_header_of_encoding(
            header_for(family_name, family_version, payload, inputs, outputs, public_key),
        );
    }
}

/// Two transactions built from the same arguments are the same transaction, with
/// the same identity.
pub proof fn lemma_build_deterministic(
    family_name: Seq<char>,
    family_version: Seq<char>,
    payload: Seq<u8>,
    inputs: Seq<Seq<char>>,
    outputs: Seq<Seq<char>>,
    private_key: Seq<char>,
    first: TransactionView,
    second: TransactionView,
)
    requires
        built_transaction(family_name, family_version, payload, inputs, outputs, private_key)
            == Some(first),
        built_transaction(family_name, family_version, payload, inputs, outputs, private_key)
            == Some(second),
    ensures
        first == second,
        transaction_id_spec(first.header) == transaction_id_spec(second.header),
{
}

/// Makes signed transactions.
pub struct TransactionBuilder {}

impl TransactionBuilder {
    /// Puts a transaction together from its encoded header, its payload and what
    /// the signer answered. `accepted` tells whether the signature verified.
    pub fn assemble(
        header: Vec<u8>,
        payload: Vec<u8>,
        signature: Result<String, GatewayError>,
        accepted: bool,
    ) -> (res: Result<Transaction, GatewayError>)
        ensures
            match assembled(
                header@,
                payload@,
                match signature {
                    Ok(text) => Some(text@),
                    Err(_) => None,
                },
                accepted,
            ) {
                Some(t) => res matches Ok(found) && found@ == t,
                None => res == Err::<Transaction, GatewayError>(GatewayError::SigningError),
            },
    {
        match signature {
            Ok(header_signature) => {
                if accepted {
                    Ok(Transaction { header, header_signature, payload })
                } else {
                    Err(GatewayError::SigningError)
                }
            },
            Err(_) => Err(GatewayError::SigningError),
        }
    }

    /// Builds the transaction of the given family over `payload` that may read
    /// `inputs` and write `outputs`, signed by `signer`. The signature is checked
    /// against the signer's public key before the transaction is handed out;
    /// `SigningError` where the signer gives no signature that verifies.
    pub fn build(
        family_name: &str,
        family_version: &str,
        payload: Vec<u8>,
        inputs: Vec<String>,
        outputs: Vec<String>,
        signer: &SigningContext,
    ) -> (res: Result<Transaction, GatewayError>)
        ensures
            match built_transaction(
                family_name@,
                family_version@,
                payload@,
                inputs.deep_view(),
                outputs.deep_view(),
                signer.private_key(),
            ) {
                Some(t) => res matches Ok(found) && found@ == t && transaction_valid(t),
                None => res == Err::<Transaction, GatewayError>(GatewayError::SigningError),
            },
    {
        let public_key = signer.public_key_hex();
        let header = TransactionHeader {
            family_name: family_name.to_owned(),
            family_version: family_version.to_owned(),
            inputs,
            outputs,
            payload_sha512: sha512_hex(payload.as_slice()),
            signer_public_key: public_key.clone(),
        };
        let bytes = header.to_bytes();
        let signature = signer.sign(bytes.as_slice());
        let accepted = match &signature {
            Ok(text) => verify(text.as_str(), bytes.as_slice(), public_key.as_str()),
            Err(_) => false,
        };
        proof {
            lemma_built_transaction_valid(
                family_name@,
                family_version@,
                payload@,
                header@.inputs,
                header@.outputs,
                signer.private_key(),
            );
        }
        Self::assemble(bytes, payload, signature, accepted)
    }
}

impl TransactionBuilder {
    /// Builds a transaction over a payload whose serialization may have failed:
    /// the failure of the serialization is handed on as it is, and a payload
    /// that was serialized is built on as by `build`.
    pub fn build_serialized(
        family_name: &str,
        family_version: &str,
        payload: Result<Vec<u8>, GatewayError>,
        inputs: Vec<String>,
        outputs: Vec<String>,
        signer: &SigningContext,
    ) -> (res: Result<Transaction, GatewayError>)
        ensures
            match payload {
                Err(error) => res matches Err(found) && found@ == error@,
                Ok(bytes) => match built_transaction(
                    family_name@,
                    family_version@,
                    bytes@,
                    inputs.deep_view(),
                    outputs.deep_view(),
                    signer.private_key(),
                ) {
                    Some(t) => res matches Ok(found) && found@ == t && transaction_valid(t),
                    None => res == Err::<Transaction, GatewayError>(GatewayError::SigningError),
                },
            },
    {
        match payload {
            Err(error) => Err(error),
            Ok(bytes) => Self::build(family_name, family_version, bytes, inputs, outputs, signer),
        }
    }
}

impl Transaction {
    /// Checks the transaction: that its header reads as a header, that its
    /// signature verifies under the signer's key named there, and that the header
    /// names the digest of the payload.
    pub fn verify(&self) -> (valid: bool)
        ensures
            valid == transaction_valid(self@),
    {
        match TransactionHeader::from_bytes(self.header.as_slice()) {
            Some(header) => {
                let digest = sha512_hex(self.payload.as_slice());
                verify(
                    self.header_signature.as_str(),
                    self.header.as_slice(),
                    header.signer_public_key.as_str(),
                ) && header.payload_sha512 == digest
            },
            None => false,
        }
    }
}

} // verus!
