use age_plugin_yubikey::point::Recipient;
use age_plugin_yubikey::slot::RetiredSlot;
use age_plugin_yubikey::yubikey::Stub;
use p256::elliptic_curve::sec1::ToEncodedPoint;

fn recipient(seed: u8) -> Recipient {
    let sk = p256::SecretKey::from_slice(&[seed; 32]).unwrap();
    let pk = sk.public_key().to_encoded_point(true);
    Recipient::from_bytes(pk.as_bytes()).unwrap()
}

#[test]
fn stub_round_trip() {
    let stub = Stub {
        serial: 42,
        slot: RetiredSlot::R1,
        tag: [7; 4],
        identity_index: 0,
    };

    let encoded = stub.to_bytes();
    assert_eq!(Stub::from_bytes(&encoded, 0), Some(stub));
}

#[test]
fn stub_bytes_layout() {
    let stub = Stub { serial: 0x0403_0201, slot: RetiredSlot::R20, tag: [9, 8, 7, 6], identity_index: 3 };
    assert_eq!(stub.to_bytes(), vec![1, 2, 3, 4, 0x95, 9, 8, 7, 6]);
}

#[test]
fn stub_from_bytes_rejects_bad_input() {
    assert_eq!(Stub::from_bytes(&[1, 2, 3, 4, 0x81, 9, 8, 7, 6], 0), None);
    assert_eq!(Stub::from_bytes(&[1, 2, 3, 4, 0x96, 9, 8, 7, 6], 0), None);
    assert_eq!(Stub::from_bytes(&[1, 2, 3, 4, 0x82, 9, 8, 7], 0), None);
    assert_eq!(Stub::from_bytes(&[1, 2, 3, 4, 0x82, 9, 8, 7, 6, 5], 0), None);
    assert_eq!(Stub::from_bytes(&[], 0), None);
}

#[test]
fn stub_from_bytes_keeps_index() {
    let s = Stub::from_bytes(&[0xff, 0xff, 0xff, 0xff, 0x8a, 1, 2, 3, 4], 5).unwrap();
    assert_eq!(s.serial, u32::MAX);
    assert_eq!(s.slot, RetiredSlot::R9);
    assert_eq!(s.tag, [1, 2, 3, 4]);
    assert_eq!(s.identity_index, 5);
}

#[test]
fn stub_equality_ignores_index() {
    let a = Stub { serial: 7, slot: RetiredSlot::R2, tag: [1, 2, 3, 4], identity_index: 0 };
    let b = Stub { serial: 7, slot: RetiredSlot::R2, tag: [1, 2, 3, 4], identity_index: 9 };
    let c = Stub { serial: 7, slot: RetiredSlot::R3, tag: [1, 2, 3, 4], identity_index: 0 };
    assert!(a == b);
    assert!(a != c);
}

#[test]
fn stub_text_round_trip() {
    let stub = Stub { serial: 12345678, slot: RetiredSlot::R5, tag: [0xde, 0xad, 0xbe, 0xef], identity_index: 0 };
    let text = stub.to_string();
    assert!(text.starts_with("AGE-PLUGIN-YUBIKEY-1"));
    assert_eq!(text.len(), 41);
    assert_eq!(text, text.to_uppercase());
    assert_eq!(Stub::from_string(&text, 0), Some(stub.clone()));
    assert_eq!(Stub::from_string(&text.to_lowercase(), 2), Some(stub));
}

#[test]
fn stub_text_rejects_other_prefix_and_corruption() {
    let stub = Stub { serial: 1, slot: RetiredSlot::R1, tag: [1, 1, 1, 1], identity_index: 0 };
    let text = stub.to_string();
    let mut corrupted: Vec<char> = text.chars().collect();
    let last = corrupted.len() - 1;
    corrupted[last] = if corrupted[last] == 'Q' { 'P' } else { 'Q' };
    let corrupted: String = corrupted.into_iter().collect();
    assert_eq!(Stub::from_string(&corrupted, 0), None);
    let r = recipient(3);
    assert_eq!(Stub::from_string(&r.to_string(), 0), None);
}

#[test]
fn stub_new_takes_fingerprint_from_key() {
    let r = recipient(5);
    let stub = Stub::new(99, RetiredSlot::R4, &r);
    assert_eq!(stub.serial, 99);
    assert_eq!(stub.slot, RetiredSlot::R4);
    assert_eq!(stub.tag, r.tag());
    assert_eq!(stub.identity_index, 0);
}

#[test]
fn slot_codes() {
    assert_eq!(RetiredSlot::R1.code(), 0x82);
    assert_eq!(RetiredSlot::R20.code(), 0x95);
    assert_eq!(RetiredSlot::from_code(0x83), Some(RetiredSlot::R2));
    assert_eq!(RetiredSlot::from_code(0x9a), None);
    assert_eq!(RetiredSlot::from_index(19), Some(RetiredSlot::R20));
    assert_eq!(RetiredSlot::from_index(20), None);
    assert_eq!(RetiredSlot::R7.index(), 6);
}
