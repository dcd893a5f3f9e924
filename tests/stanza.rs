use age_plugin_yubikey::format::{RecipientLine, Stanza};
use age_plugin_yubikey::point::Recipient;
use age_plugin_yubikey::yubikey::Stub;
use age_plugin_yubikey::slot::RetiredSlot;
use bech32::ToBase32;
use p256::elliptic_curve::sec1::ToEncodedPoint;
use sha2::Digest;

fn keypair(seed: u8) -> (p256::SecretKey, Recipient) {
    let sk = p256::SecretKey::from_slice(&[seed; 32]).unwrap();
    let pk = sk.public_key().to_encoded_point(true);
    let r = Recipient::from_bytes(pk.as_bytes()).unwrap();
    (sk, r)
}

fn ecdh(sk: &p256::SecretKey, peer: &[u8]) -> Vec<u8> {
    let peer = p256::PublicKey::from_sec1_bytes(peer).unwrap();
    let shared = (peer.to_projective() * *sk.to_nonzero_scalar()).to_affine();
    shared.to_encoded_point(false).x().unwrap().to_vec()
}

#[test]
fn recipient_round_trip() {
    let (_, r) = keypair(1);
    let again = Recipient::from_bytes(r.as_bytes()).unwrap();
    assert_eq!(again.as_bytes(), r.as_bytes());
    assert_eq!(r.as_bytes().len(), 33);
}

#[test]
fn recipient_from_uncompressed_is_compressed() {
    let sk = p256::SecretKey::from_slice(&[2; 32]).unwrap();
    let full = sk.public_key().to_encoded_point(false);
    let short = sk.public_key().to_encoded_point(true);
    let r = Recipient::from_bytes(full.as_bytes()).unwrap();
    assert_eq!(r.as_bytes(), short.as_bytes());
    assert_eq!(r.decompress(), full.as_bytes().to_vec());
    let again = Recipient::from_bytes(&r.decompress()).unwrap();
    assert_eq!(again.as_bytes(), short.as_bytes());
    let kept = Recipient::from_bytes(short.as_bytes()).unwrap();
    assert_eq!(kept.as_bytes(), short.as_bytes());
}

#[test]
fn recipient_rejects_invalid_points() {
    assert!(Recipient::from_bytes(&[]).is_none());
    assert!(Recipient::from_bytes(&[2; 32]).is_none());
    assert!(Recipient::from_bytes(&[7; 33]).is_none());
    assert!(Recipient::from_bytes(&[4; 65]).is_none());
}

#[test]
fn recipient_rejects_compact_points() {
    let (_, r) = keypair(6);
    let mut compact = r.as_bytes().to_vec();
    compact[0] = 5;
    assert!(Recipient::from_bytes(&compact).is_none());
    let mut identity = vec![0u8];
    assert!(Recipient::from_bytes(&identity).is_none());
    identity.clear();
    assert!(Recipient::from_bytes(&identity).is_none());
}

#[test]
fn fingerprint_is_stable() {
    let (_, r) = keypair(4);
    assert_eq!(r.tag(), r.tag());
    let text = bech32::encode("age1yubikey", r.as_bytes().to_base32(), bech32::Variant::Bech32).unwrap();
    assert_eq!(r.to_string(), text);
    assert_eq!(text.len(), 71);
    assert!(text.starts_with("age1yubikey1"));
    assert_eq!(text, text.to_lowercase());
    let digest = sha2::Sha256::digest(text.as_bytes());
    assert_eq!(r.tag().to_vec(), digest[..4].to_vec());
    let (_, other) = keypair(5);
    assert_ne!(r.tag(), other.tag());
}

#[test]
fn wrap_unwrap_round_trip() {
    let (sk, pk) = keypair(9);
    let file_key = [0x42u8; 32];
    let a = RecipientLine::wrap_file_key(&file_key, &pk).unwrap();
    let b = RecipientLine::wrap_file_key(&file_key, &pk).unwrap();
    assert_ne!(a.epk.as_bytes(), b.epk.as_bytes());
    assert_ne!(a.encrypted_file_key, b.encrypted_file_key);
    assert_eq!(a.tag, pk.tag());
    assert_eq!(a.encrypted_file_key.len(), 48);
    for line in [a, b] {
        let secret = ecdh(&sk, line.epk.as_bytes());
        assert_eq!(line.unwrap_with_secret(&pk, &secret), Ok(file_key));
    }
}

#[test]
fn tampered_ciphertext_fails() {
    let (sk, pk) = keypair(10);
    let file_key = [3u8; 32];
    let line = RecipientLine::wrap_file_key(&file_key, &pk).unwrap();
    let secret = ecdh(&sk, line.epk.as_bytes());
    for i in [0usize, 17, 47] {
        let mut t = line.clone();
        t.encrypted_file_key[i] ^= 0x01;
        assert!(t.unwrap_with_secret(&pk, &secret).is_err());
    }
}

#[test]
fn tampered_epk_fails() {
    let (sk, pk) = keypair(11);
    let file_key = [5u8; 32];
    let line = RecipientLine::wrap_file_key(&file_key, &pk).unwrap();
    let mut bytes = line.epk.as_bytes().to_vec();
    bytes[32] ^= 0x80;
    if let Some(epk) = Recipient::from_bytes(&bytes) {
        let t = RecipientLine { tag: line.tag, epk, encrypted_file_key: line.encrypted_file_key.clone() };
        let secret = ecdh(&sk, t.epk.as_bytes());
        assert!(t.unwrap_with_secret(&pk, &secret).is_err());
    }
}

#[test]
fn tampered_tag_is_not_matched() {
    let (_, pk) = keypair(12);
    let stub = Stub::new(1, RetiredSlot::R1, &pk);
    let line = RecipientLine::wrap_file_key(&[1u8; 32], &pk).unwrap();
    assert!(stub.matches(&line));
    let mut t = line.clone();
    t.tag[2] ^= 0x10;
    assert!(!stub.matches(&t));
}

#[test]
fn wrong_secret_fails() {
    let (_, pk) = keypair(13);
    let line = RecipientLine::wrap_file_key(&[1u8; 32], &pk).unwrap();
    assert!(line.unwrap_with_secret(&pk, &[0u8; 32]).is_err());
}

#[test]
fn stanza_round_trip() {
    let (_, pk) = keypair(14);
    let line = RecipientLine::wrap_file_key(&[8u8; 32], &pk).unwrap();
    let s = line.to_stanza();
    assert_eq!(s.tag, "piv-p256");
    assert_eq!(s.args.len(), 2);
    assert_eq!(s.args[0], base64::encode_config(line.tag, base64::STANDARD_NO_PAD));
    assert_eq!(s.args[0].len(), 6);
    assert_eq!(s.args[1].len(), 44);
    let back = RecipientLine::from_stanza(&s).unwrap().unwrap();
    assert_eq!(back.tag, line.tag);
    assert_eq!(back.epk.as_bytes(), line.epk.as_bytes());
    assert_eq!(back.encrypted_file_key, line.encrypted_file_key);
}

#[test]
fn stanza_of_other_scheme_is_ignored() {
    let s = Stanza { tag: "X25519".to_string(), args: vec![], body: vec![] };
    assert!(RecipientLine::from_stanza(&s).is_none());
}

#[test]
fn malformed_stanzas_are_errors() {
    let (_, pk) = keypair(15);
    let good = RecipientLine::wrap_file_key(&[8u8; 32], &pk).unwrap().to_stanza();

    let mut short_body = good.clone();
    short_body.body.pop();
    assert_eq!(RecipientLine::from_stanza(&short_body).unwrap().err(), Some(age_plugin_yubikey::format::MalformedStanza));

    let mut long_body = good.clone();
    long_body.body.push(0);
    assert!(RecipientLine::from_stanza(&long_body).unwrap().is_err());

    let mut long_tag = good.clone();
    long_tag.args[0] = base64::encode_config([1u8, 2, 3, 4, 5], base64::STANDARD_NO_PAD);
    assert!(RecipientLine::from_stanza(&long_tag).unwrap().is_err());

    let mut short_epk = good.clone();
    short_epk.args[1] = base64::encode_config([2u8; 32], base64::STANDARD_NO_PAD);
    assert!(RecipientLine::from_stanza(&short_epk).unwrap().is_err());

    let mut compact = good.clone();
    let mut epk = base64::decode_config(&good.args[1], base64::STANDARD_NO_PAD).unwrap();
    epk[0] = 5;
    compact.args[1] = base64::encode_config(&epk, base64::STANDARD_NO_PAD);
    assert!(RecipientLine::from_stanza(&compact).unwrap().is_err());

    let mut bad_point = good.clone();
    bad_point.args[1] = base64::encode_config([7u8; 33], base64::STANDARD_NO_PAD);
    assert!(RecipientLine::from_stanza(&bad_point).unwrap().is_err());

    let mut padded = good.clone();
    padded.args[0] = base64::encode_config([1u8, 2, 3, 4], base64::STANDARD);
    assert!(RecipientLine::from_stanza(&padded).unwrap().is_err());

    let mut missing = good.clone();
    missing.args.pop();
    assert!(RecipientLine::from_stanza(&missing).unwrap().is_err());

    let mut extra = good.clone();
    extra.args.push("AAAA".to_string());
    assert!(RecipientLine::from_stanza(&extra).unwrap().is_err());

    assert!(RecipientLine::from_stanza(&good).unwrap().is_ok());
}
