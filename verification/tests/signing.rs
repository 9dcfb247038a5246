use ledger_gateway::digest::sha512_hex;
use ledger_gateway::error::GatewayError;
use ledger_gateway::signing::{verify, SigningContext};

const KEY1_PRIV: &str = "2f1e7b7a130d7ba9da0068b3bb0ba1d79e7e77110302c9f746c3c2a63fe40088";
const KEY1_PUB: &str = "026a2c795a9776f75464aa3bda3534c3154a6e91b357b1181d3f515110f84b67c5";
const KEY2_PRIV: &str = "51b845c2cdde22fe646148f0b51eaf5feec8c82ee921d5e0cbe7619f3bb9c62d";
const KEY2_PUB: &str = "039c20a66b4ec7995391dbec1d8bb0e2c6e6fd63cd259ed5b877cb4ea98858cf6d";
const MSG1_KEY1_SIG: &str = "5195115d9be2547b720ee74c23dd841842875db6eae1f5da8605b050a49e702b4aa83be72ab7e3cb20f17c657011b49f4c8632be2745ba4de79e6aa05da57b35";
const MSG2_KEY2_SIG: &str = "d589c7b1fa5f8a4c5a389de80ae9582c2f7f2a5e21bab5450b670214e5b1c1235e9eb8102fd0ca690a8b42e2c406a682bd57f6daf6e142e5fa4b2c26ef40a490";

#[test]
fn public_key_of_private_key() {
    assert_eq!(SigningContext::from_hex(KEY1_PRIV).unwrap().public_key_hex(), KEY1_PUB);
    assert_eq!(SigningContext::from_hex(KEY2_PRIV).unwrap().public_key_hex(), KEY2_PUB);
}

#[test]
fn private_key_in_upper_case_is_the_same_key() {
    let upper = KEY1_PRIV.to_uppercase();
    assert_eq!(SigningContext::from_hex(&upper).unwrap().public_key_hex(), KEY1_PUB);
}

#[test]
fn malformed_private_key_is_a_signing_error() {
    let zero = "0".repeat(64);
    let above_order = "f".repeat(64);
    let long = format!("{}00", KEY1_PRIV);
    for text in ["", "abc", "not hex", &KEY1_PRIV[..62], &long, &zero, &above_order] {
        assert!(matches!(SigningContext::from_hex(text), Err(GatewayError::SigningError)));
    }
}

#[test]
fn signature_of_known_messages() {
    let first = SigningContext::from_hex(KEY1_PRIV).unwrap();
    assert_eq!(first.sign(b"test"), Ok(MSG1_KEY1_SIG.to_string()));
    let second = SigningContext::from_hex(KEY2_PRIV).unwrap();
    assert_eq!(second.sign(b"test2"), Ok(MSG2_KEY2_SIG.to_string()));
}

#[test]
fn signing_is_deterministic() {
    let signer = SigningContext::from_hex(KEY1_PRIV).unwrap();
    assert_eq!(signer.sign(b"some bytes"), signer.sign(b"some bytes"));
    assert_ne!(signer.sign(b"some bytes"), signer.sign(b"other bytes"));
}

#[test]
fn signature_verifies_under_its_own_key_only() {
    assert!(verify(MSG1_KEY1_SIG, b"test", KEY1_PUB));
    assert!(verify(MSG2_KEY2_SIG, b"test2", KEY2_PUB));
    assert!(!verify(MSG1_KEY1_SIG, b"test", KEY2_PUB));
    assert!(!verify(MSG1_KEY1_SIG, b"test2", KEY1_PUB));
    assert!(!verify(MSG2_KEY2_SIG, b"test", KEY1_PUB));
}

#[test]
fn verify_refuses_malformed_signature_or_key() {
    assert!(!verify("", b"test", KEY1_PUB));
    assert!(!verify("zz", b"test", KEY1_PUB));
    assert!(!verify(&MSG1_KEY1_SIG[..126], b"test", KEY1_PUB));
    assert!(!verify(MSG1_KEY1_SIG, b"test", ""));
    assert!(!verify(MSG1_KEY1_SIG, b"test", "02ff"));
    assert!(!verify(b"test".iter().map(|_| "00").collect::<String>().as_str(), b"test", KEY1_PUB));
}

#[test]
fn every_signature_made_verifies() {
    let signer = SigningContext::from_hex(KEY2_PRIV).unwrap();
    let key = signer.public_key_hex();
    for n in 0..20u32 {
        let message = sha512_hex(&n.to_be_bytes()).into_bytes();
        let signature = signer.sign(&message).unwrap();
        assert_eq!(signature.len(), 128);
        assert!(verify(&signature, &message, &key));
    }
}
