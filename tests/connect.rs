use age_plugin_yubikey::format::RecipientLine;
use age_plugin_yubikey::point::Recipient;
use age_plugin_yubikey::slot::RetiredSlot;
use age_plugin_yubikey::yubikey::{ConnectAction, ConnectError, ConnectEvent, ConnectState, Connection, Stub};
use p256::elliptic_curve::sec1::ToEncodedPoint;

fn keypair(seed: u8) -> (p256::SecretKey, Recipient) {
    let sk = p256::SecretKey::from_slice(&[seed; 32]).unwrap();
    let pk = sk.public_key().to_encoded_point(true);
    (sk, Recipient::from_bytes(pk.as_bytes()).unwrap())
}

/// A simulated device with a key in one slot, present from `appears_at_ms`.
struct FakeDevice {
    appears_at_ms: u64,
    secret: p256::SecretKey,
    public: Vec<u8>,
    pin: &'static str,
    decrypt_calls: usize,
}

impl FakeDevice {
    fn new(seed: u8, appears_at_ms: u64) -> FakeDevice {
        let secret = p256::SecretKey::from_slice(&[seed; 32]).unwrap();
        let public = secret.public_key().to_encoded_point(false).as_bytes().to_vec();
        FakeDevice { appears_at_ms, secret, public, pin: "123456", decrypt_calls: 0 }
    }

    fn raw_ec_decrypt(&mut self, peer: &[u8]) -> Vec<u8> {
        self.decrypt_calls += 1;
        let peer = p256::PublicKey::from_sec1_bytes(peer).unwrap();
        let shared = (peer.to_projective() * *self.secret.to_nonzero_scalar()).to_affine();
        shared.to_encoded_point(false).x().unwrap().to_vec()
    }
}

/// Runs the connection protocol against `device` on a simulated clock,
/// with a user who acknowledges every message and enters `pin`.
fn connect(stub: &Stub, device: &FakeDevice, pin: Option<&str>, insert_ack: bool) -> ConnectState {
    let mut clock: u64 = 0;
    let mut notice: Option<u64> = None;
    let mut entered: Option<&str> = None;
    let (mut state, mut action) = stub.connect_start();
    let open = |clock: u64, notice: Option<u64>| {
        if clock >= device.appears_at_ms {
            ConnectEvent::Opened
        } else {
            ConnectEvent::NotFound(notice.map(|n| clock - n).unwrap_or(0))
        }
    };
    loop {
        let event = match action {
            ConnectAction::Open => open(clock, notice),
            ConnectAction::OpenAfter(ms) => {
                clock += ms;
                open(clock, notice)
            }
            ConnectAction::ShowInsertMessage => {
                notice = Some(clock);
                if insert_ack { ConnectEvent::Acknowledged } else { ConnectEvent::Declined }
            }
            ConnectAction::ReadSlotKey(_) => ConnectEvent::SlotKey(Some(device.public.clone())),
            ConnectAction::RequestPin => match pin {
                Some(p) => {
                    entered = Some(p);
                    ConnectEvent::PinEntered
                }
                None => ConnectEvent::Declined,
            },
            ConnectAction::VerifyPin => {
                if entered == Some(device.pin) { ConnectEvent::PinAccepted } else { ConnectEvent::PinRejected }
            }
            ConnectAction::Stop => return state,
        };
        let (s, a) = stub.connect_step(state, event);
        state = s;
        action = a;
    }
}

#[test]
fn device_present_connects() {
    let (_, pk) = keypair(21);
    let stub = Stub::new(7, RetiredSlot::R3, &pk);
    let device = FakeDevice::new(21, 0);
    match connect(&stub, &device, Some("123456"), true) {
        ConnectState::Connected(c) => {
            assert_eq!(c.serial, 7);
            assert_eq!(c.slot, RetiredSlot::R3);
            assert_eq!(c.tag, stub.tag);
            assert_eq!(c.pk.as_bytes(), pk.as_bytes());
        }
        other => panic!("unexpected state {:?}", other),
    }
}

#[test]
fn device_appearing_before_timeout_connects() {
    let (_, pk) = keypair(22);
    let stub = Stub::new(7, RetiredSlot::R1, &pk);
    let device = FakeDevice::new(22, 14_900);
    assert!(matches!(connect(&stub, &device, Some("123456"), true), ConnectState::Connected(_)));
}

#[test]
fn device_appearing_after_timeout_times_out() {
    let (_, pk) = keypair(22);
    let stub = Stub::new(7, RetiredSlot::R1, &pk);
    let device = FakeDevice::new(22, 15_100);
    assert!(matches!(connect(&stub, &device, Some("123456"), true), ConnectState::Failed(ConnectError::TimedOut)));
}

#[test]
fn declined_insert_is_not_found() {
    let (_, pk) = keypair(23);
    let stub = Stub::new(7, RetiredSlot::R1, &pk);
    let device = FakeDevice::new(23, 5_000);
    assert!(matches!(connect(&stub, &device, Some("123456"), false), ConnectState::Failed(ConnectError::NotFound)));
}

#[test]
fn missing_and_wrong_pin() {
    let (_, pk) = keypair(24);
    let stub = Stub::new(7, RetiredSlot::R1, &pk);
    let device = FakeDevice::new(24, 0);
    assert!(matches!(connect(&stub, &device, None, true), ConnectState::Failed(ConnectError::PinRequired)));
    assert!(matches!(connect(&stub, &device, Some("000000"), true), ConnectState::Failed(ConnectError::InvalidPin)));
}

#[test]
fn open_failure_and_unexpected_events() {
    let (_, pk) = keypair(25);
    let stub = Stub::new(7, RetiredSlot::R1, &pk);
    let (s, a) = stub.connect_step(ConnectState::Opening, ConnectEvent::OpenFailed);
    assert!(matches!(s, ConnectState::Failed(ConnectError::CouldNotOpen)));
    assert_eq!(a, ConnectAction::Stop);
    let (s, _) = stub.connect_step(ConnectState::Opening, ConnectEvent::PinAccepted);
    assert!(matches!(s, ConnectState::Failed(ConnectError::UnexpectedEvent)));
    let (s, a) = stub.connect_step(ConnectState::Verifying, ConnectEvent::SlotKey(None));
    assert!(matches!(s, ConnectState::Failed(ConnectError::StubMismatch)));
    assert_eq!(a, ConnectAction::Stop);
    let (s, a) = stub.connect_step(ConnectState::Waiting, ConnectEvent::NotFound(14_999));
    assert!(matches!(s, ConnectState::Waiting));
    assert_eq!(a, ConnectAction::OpenAfter(1000));
    let (s, a) = stub.connect_step(ConnectState::Opening, ConnectEvent::Opened);
    assert!(matches!(s, ConnectState::Verifying));
    assert_eq!(a, ConnectAction::ReadSlotKey(RetiredSlot::R1));
}

#[test]
fn end_to_end_decrypts_file_key() {
    let (_, recipient_a) = keypair(31);
    let file_key = [0x5au8; 32];
    let stanza = RecipientLine::wrap_file_key(&file_key, &recipient_a).unwrap().to_stanza();

    let stub = Stub::from_string(&Stub::new(1234, RetiredSlot::R2, &recipient_a).to_string(), 0).unwrap();
    let mut device = FakeDevice::new(31, 0);
    let line = RecipientLine::from_stanza(&stanza).unwrap().unwrap();
    assert!(stub.matches(&line));
    let conn: Connection = match connect(&stub, &device, Some("123456"), true) {
        ConnectState::Connected(c) => c,
        other => panic!("unexpected state {:?}", other),
    };
    let secret = device.raw_ec_decrypt(&conn.decrypt_input(&line));
    assert_eq!(conn.unwrap_file_key(&line, Some(secret)), Ok(file_key));
    assert_eq!(device.decrypt_calls, 1);
    assert!(conn.unwrap_file_key(&line, None).is_err());
}

#[test]
fn end_to_end_other_key_is_mismatch() {
    let (_, recipient_b) = keypair(32);
    let stub = Stub::new(1234, RetiredSlot::R2, &recipient_b);
    let device = FakeDevice::new(31, 0);
    assert!(matches!(connect(&stub, &device, Some("123456"), true), ConnectState::Failed(ConnectError::StubMismatch)));
    assert_eq!(device.decrypt_calls, 0);
}
