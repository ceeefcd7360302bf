use base64::Engine;
use openssl::ec::{EcGroup, EcKey};
use openssl::error::ErrorStack;
use openssl::hash::MessageDigest;
use openssl::nid::Nid;
use openssl::pkey::{PKey, Private};
use openssl::rsa::Rsa;
use openssl::sign::Verifier;
use openssl::symm::Cipher;
use signed_post::{
    build_create_request, build_delete_request, encode_create, encode_delete, sign, sign_create,
    sign_create_now, sign_delete, sign_delete_now, signature_text, SignError,
};

fn fresh_key() -> Rsa<Private> {
    Rsa::generate(2048).unwrap()
}

fn pem_of(key: &Rsa<Private>) -> Vec<u8> {
    key.private_key_to_pem().unwrap()
}

fn verifies(key: &Rsa<Private>, data: &[u8], signature_b64: &str) -> bool {
    let signature = base64::engine::general_purpose::STANDARD
        .decode(signature_b64)
        .unwrap();
    let public = Rsa::public_key_from_pem(&key.public_key_to_pem().unwrap()).unwrap();
    let public = PKey::from_rsa(public).unwrap();
    let mut verifier = Verifier::new(MessageDigest::sha256(), &public).unwrap();
    verifier.update(data).unwrap();
    verifier.verify(&signature).unwrap()
}

#[test]
fn sign_verify_round_trip() {
    let key = fresh_key();
    let payload = b"any payload at all".to_vec();
    let signature = sign(&payload, &pem_of(&key)).unwrap();
    assert!(verifies(&key, &payload, &signature));

    let mut altered = payload.clone();
    altered[3] ^= 0x01;
    assert!(!verifies(&key, &altered, &signature));

    let other = fresh_key();
    assert!(!verifies(&other, &payload, &signature));
}

#[test]
fn sign_empty_payload_round_trip() {
    let key = fresh_key();
    let signature = sign(&[], &pem_of(&key)).unwrap();
    assert!(verifies(&key, &[], &signature));
}

#[test]
fn signature_is_base64_of_key_size() {
    let key = fresh_key();
    let signature = sign(b"x", &pem_of(&key)).unwrap();
    // 256 signature bytes for a 2048-bit key: 86 groups of four characters.
    assert_eq!(signature.len(), 344);
    assert!(signature.ends_with('='));
}

#[test]
fn signing_is_deterministic() {
    let key = fresh_key();
    let pem = pem_of(&key);
    assert_eq!(sign(b"same", &pem).unwrap(), sign(b"same", &pem).unwrap());
}

#[test]
fn malformed_key_is_rejected() {
    assert_eq!(
        sign(b"payload", b"this is just a text file\n"),
        Err(SignError::KeyLoad)
    );
    assert_eq!(sign(b"payload", b""), Err(SignError::KeyLoad));
    let truncated = {
        let pem = pem_of(&fresh_key());
        pem[..pem.len() / 2].to_vec()
    };
    assert_eq!(sign(b"payload", &truncated), Err(SignError::KeyLoad));
}

#[test]
fn encrypted_key_is_rejected_without_prompt() {
    let key = fresh_key();
    let pem = key
        .private_key_to_pem_passphrase(Cipher::aes_128_cbc(), b"secret")
        .unwrap();
    assert_eq!(sign(b"payload", &pem), Err(SignError::KeyLoad));
    assert!(matches!(
        sign_create(&pem, "t".to_string(), "b".to_string(), 1),
        Err(SignError::KeyLoad)
    ));
}

#[test]
fn small_key_still_signs() {
    let key = Rsa::generate(1024).unwrap();
    let signature = sign(b"short key", &pem_of(&key)).unwrap();
    assert_eq!(signature.len(), 172);
    assert!(verifies(&key, b"short key", &signature));
}

#[test]
fn non_rsa_key_is_rejected() {
    let group = EcGroup::from_curve_name(Nid::X9_62_PRIME256V1).unwrap();
    let ec = EcKey::generate(&group).unwrap();
    let pem = ec.private_key_to_pem().unwrap();
    assert_eq!(sign(b"payload", &pem), Err(SignError::KeyLoad));
}

#[test]
fn create_request_end_to_end() {
    let key = fresh_key();
    let req = sign_create(&pem_of(&key), "Hello".to_string(), "World".to_string(), 1_700_000_000)
        .unwrap();
    assert_eq!(req.title, "Hello");
    assert_eq!(req.body, "World");
    assert_eq!(req.timestamp, 1_700_000_000);
    let mut data = b"HelloWorld".to_vec();
    data.extend_from_slice(&1_700_000_000i64.to_le_bytes());
    assert!(verifies(&key, &data, &req.signature));
}

#[test]
fn delete_request_end_to_end() {
    let key = fresh_key();
    let req = sign_delete(&pem_of(&key), 42, 1_700_000_123).unwrap();
    assert_eq!(req.id, 42);
    assert_eq!(req.timestamp, 1_700_000_123);
    let mut data = 42i32.to_le_bytes().to_vec();
    data.extend_from_slice(&1_700_000_123i64.to_le_bytes());
    assert_eq!(data.len(), 12);
    assert!(verifies(&key, &data, &req.signature));
}

#[test]
fn empty_fields_sign_their_own_payloads() {
    let key = fresh_key();
    let pem = pem_of(&key);
    let a = sign_create(&pem, String::new(), "nonempty".to_string(), 5).unwrap();
    let b = sign_create(&pem, "nonempty".to_string(), String::new(), 5).unwrap();
    assert!(verifies(&key, &encode_create("", "nonempty", 5), &a.signature));
    assert!(verifies(&key, &encode_create("nonempty", "", 5), &b.signature));
    let mut wrong = encode_create("", "nonempty", 5);
    wrong.push(0);
    assert!(!verifies(&key, &wrong, &a.signature));
}

#[test]
fn requests_fail_with_key_error() {
    assert!(matches!(
        sign_create(b"nope", "t".to_string(), "b".to_string(), 1),
        Err(SignError::KeyLoad)
    ));
    assert!(matches!(sign_delete(b"nope", 1, 1), Err(SignError::KeyLoad)));
    assert!(matches!(
        sign_create_now(b"nope", "t".to_string(), "b".to_string()),
        Err(SignError::KeyLoad)
    ));
    assert!(matches!(sign_delete_now(b"nope", 1), Err(SignError::KeyLoad)));
}

#[test]
fn requests_now_use_the_clock() {
    let key = fresh_key();
    let pem = pem_of(&key);
    let before = chrono::Utc::now().timestamp();
    let create = sign_create_now(&pem, "T".to_string(), "B".to_string()).unwrap();
    let delete = sign_delete_now(&pem, 7).unwrap();
    let after = chrono::Utc::now().timestamp();
    assert!(before <= create.timestamp && create.timestamp <= after);
    assert!(before <= delete.timestamp && delete.timestamp <= after);
    assert!(verifies(&key, &encode_create("T", "B", create.timestamp), &create.signature));
    assert!(verifies(&key, &encode_delete(7, delete.timestamp), &delete.signature));
}

#[test]
fn signature_text_encodes_or_fails() {
    assert_eq!(signature_text(Ok(vec![1, 2, 3])), Ok("AQID".to_string()));
    assert_eq!(signature_text(Ok(vec![0xff])), Ok("/w==".to_string()));
    assert_eq!(signature_text(Ok(Vec::new())), Ok(String::new()));
    assert_eq!(
        signature_text(Err(ErrorStack::get())),
        Err(SignError::Signing)
    );
}

#[test]
fn builders_keep_fields() {
    let c = build_create_request("t".to_string(), "b".to_string(), -5, "sig".to_string());
    assert_eq!((c.title.as_str(), c.body.as_str(), c.timestamp, c.signature.as_str()), ("t", "b", -5, "sig"));
    let d = build_delete_request(-9, 11, "s".to_string());
    assert_eq!((d.id, d.timestamp, d.signature.as_str()), (-9, 11, "s"));
}
