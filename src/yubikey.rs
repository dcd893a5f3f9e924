//! Identity stubs and the connection protocol that turns a stub into a live
//! decryption session.
//!
//! The protocol's decisions are a state machine: the caller performs each
//! returned action (opening the device, prompting, reading the slot's key,
//! checking the PIN) and feeds back what happened as the next event.

use vstd::prelude::*;
use crate::format::RecipientLine;
use crate::point::{fingerprint_of, parse_point, Recipient};
use crate::primitives::{
    ascii_upper, bech32_decode, bech32_decoded, bech32_encode, bech32_text, lemma_case_round_trip, to_uppercase,
    valid_hrp,
};
use crate::slot::RetiredSlot;
use crate::text::{str_eq, tag_eq};

verus! {

/// Length of a stub's binary form.
pub const STUB_BYTES: usize = 9;

/// Polling interval while waiting for a device, in milliseconds.
pub const POLL_INTERVAL_MS: u64 = 1000;

/// How long to wait for a device after asking for it, in milliseconds.
pub const INSERT_TIMEOUT_MS: u64 = 15000;

/// A reference to a key held in a slot of a specific device.
#[derive(Clone, Debug)]
pub struct Stub {
    pub serial: u32,
    pub slot: RetiredSlot,
    pub tag: [u8; 4],
    pub identity_index: usize,
}

/// The little-endian bytes of `x`.
pub open spec fn le_bytes(x: u32) -> Seq<u8> {
    seq![
        (x % 0x100) as u8,
        ((x / 0x100) % 0x100) as u8,
        ((x / 0x10000) % 0x100) as u8,
        (x / 0x1000000) as u8,
    ]
}

/// The value of four little-endian bytes.
pub open spec fn le_value(b: Seq<u8>) -> int {
    b[0] + 0x100 * b[1] + 0x10000 * b[2] + 0x1000000 * b[3]
}

/// The 9-byte form of a stub: serial (little-endian), slot code, fingerprint.
pub open spec fn stub_bytes(serial: u32, slot: RetiredSlot, tag: Seq<u8>) -> Seq<u8> {
    le_bytes(serial) + seq![slot.spec_code()] + tag
}

/// The human-readable part of a stub's text form.
pub open spec fn identity_hrp() -> Seq<char> {
    seq!['a', 'g', 'e', '-', 'p', 'l', 'u', 'g', 'i', 'n', '-', 'y', 'u', 'b', 'i', 'k', 'e', 'y', '-']
}

/// The stub fields that `b` holds, if it is a 9-byte stub with a known slot code.
pub open spec fn parse_stub(b: Seq<u8>) -> Option<(u32, RetiredSlot, Seq<u8>)> {
    if b.len() == 9 && 0x82 <= b[4] <= 0x95 {
        Some((le_value(b.subrange(0, 4)) as u32, choose|s: RetiredSlot| s.spec_code() == b[4], b.subrange(5, 9)))
    } else {
        None
    }
}

proof fn lemma_le_round_trip(x: u32)
    ensures
        le_value(le_bytes(x)) == x,
        le_bytes(x).len() == 4,
{
    assert(le_value(le_bytes(x)) == x) by (nonlinear_arith);
}

proof fn lemma_le_value_bytes(b: Seq<u8>)
    requires
        b.len() == 4,
    ensures
        0 <= le_value(b) <= u32::MAX,
        le_bytes(le_value(b) as u32) == b,
{
    let (b0, b1, b2, b3) = (b[0] as int, b[1] as int, b[2] as int, b[3] as int);
    let v = b0 + 0x100 * b1 + 0x10000 * b2 + 0x1000000 * b3;
    assert(0 <= v <= u32::MAX) by (nonlinear_arith)
        requires 0 <= b0 < 256, 0 <= b1 < 256, 0 <= b2 < 256, 0 <= b3 < 256, v == b0 + 0x100 * b1 + 0x10000 * b2 + 0x1000000 * b3;
    assert(v % 0x100 == b0) by (nonlinear_arith)
        requires 0 <= b0 < 256, 0 <= b1 < 256, 0 <= b2 < 256, 0 <= b3 < 256, v == b0 + 0x100 * b1 + 0x10000 * b2 + 0x1000000 * b3;
    assert((v / 0x100) % 0x100 == b1) by (nonlinear_arith)
        requires 0 <= b0 < 256, 0 <= b1 < 256, 0 <= b2 < 256, 0 <= b3 < 256, v == b0 + 0x100 * b1 + 0x10000 * b2 + 0x1000000 * b3;
    assert((v / 0x10000) % 0x100 == b2) by (nonlinear_arith)
        requires 0 <= b0 < 256, 0 <= b1 < 256, 0 <= b2 < 256, 0 <= b3 < 256, v == b0 + 0x100 * b1 + 0x10000 * b2 + 0x1000000 * b3;
    assert(v / 0x1000000 == b3) by (nonlinear_arith)
        requires 0 <= b0 < 256, 0 <= b1 < 256, 0 <= b2 < 256, 0 <= b3 < 256, v == b0 + 0x100 * b1 + 0x10000 * b2 + 0x1000000 * b3;
    assert(le_bytes(v as u32) =~= b);
}

/// Why a stub could not be turned into a session. Each is scoped to one
/// identity: the caller may go on with the next.
#[derive(Clone, Copy, Debug, PartialEq, Eq, Structural)]
pub enum ConnectError {
    /// The device was absent and the user declined to insert it.
    NotFound,
    /// The device could not be opened.
    CouldNotOpen,
    /// The device did not appear within the insertion timeout.
    TimedOut,
    /// The slot's key is missing or does not have the stub's fingerprint.
    StubMismatch,
    /// The user declined to give a PIN.
    PinRequired,
    /// The device refused the PIN.
    InvalidPin,
    /// An event that the current state does not expect.
    UnexpectedEvent,
}

/// A live session on a device, bound to the re-verified key of one slot.
#[derive(Clone, Debug)]
pub struct Connection {
    pub serial: u32,
    pub pk: Recipient,
    pub slot: RetiredSlot,
    pub tag: [u8; 4],
}

/// Where the connection protocol stands.
#[derive(Clone, Debug)]
pub enum ConnectState {
    /// First attempt to open the device.
    Opening,
    /// The user was asked to insert the device.
    AwaitingInsert,
    /// Polling for the device after the request to insert it.
    Waiting,
    /// The device is open; its slot's key is being read.
    Verifying,
    /// The key matched; a PIN is being requested.
    Authenticating(Recipient),
    /// A PIN was entered and is being checked by the device.
    CheckingPin(Recipient),
    /// The session is ready.
    Connected(Connection),
    /// The protocol ended without a session.
    Failed(ConnectError),
}

/// What happened after the caller performed the last action.
#[derive(Clone, Debug)]
pub enum ConnectEvent {
    /// The device with the stub's serial is open.
    Opened,
    /// No device with that serial is present; `elapsed_ms` is the time since
    /// the user was asked to insert it (0 before that).
    NotFound(u64),
    /// Opening the device failed for another reason.
    OpenFailed,
    /// The user acknowledged the message.
    Acknowledged,
    /// The user declined the prompt.
    Declined,
    /// The SEC-1 public key found in the stub's slot, if any.
    SlotKey(Option<Vec<u8>>),
    /// The user entered a PIN.
    PinEntered,
    /// The device accepted the PIN.
    PinAccepted,
    /// The device refused the PIN.
    PinRejected,
}

/// What the caller must do next.
#[derive(Clone, Copy, Debug, PartialEq, Eq, Structural)]
pub enum ConnectAction {
    /// Try to open the device with the stub's serial.
    Open,
    /// Ask the user to insert the device with the stub's serial.
    ShowInsertMessage,
    /// Wait this many milliseconds, then try to open the device again.
    OpenAfter(u64),
    /// Read the public key stored in this slot.
    ReadSlotKey(RetiredSlot),
    /// Ask the user for the device's PIN.
    RequestPin,
    /// Have the device check the PIN that was entered.
    VerifyPin,
    /// Nothing more: the state is `Connected` or `Failed`.
    Stop,
}

impl Connection {
    pub open spec fn wf(&self) -> bool {
        &&& self.pk.wf()
        &&& self.tag@ == fingerprint_of(self.pk@)
    }

    /// The peer key to hand to the device's raw decryption for `line`: the
    /// stanza's ephemeral point, uncompressed.
    pub fn decrypt_input(&self, line: &RecipientLine) -> (r: Vec<u8>)
        requires
            line.wf(),
        ensures
            r@ == crate::primitives::sec1_uncompressed(line.epk@),
            r@.len() == 65,
    {
        line.epk.decompress()
    }

    /// Finishes decryption of a stanza addressed to this session, given what
    /// the device's raw decryption returned (`None` if it failed).
    pub fn unwrap_file_key(&self, line: &RecipientLine, shared_secret: Option<Vec<u8>>) -> (r: Result<[u8; 32], crate::format::CryptoFailure>)
        requires
            self.wf(),
            line.wf(),
            self.tag@ == line.tag@,
        ensures
            shared_secret is None ==> r is Err,
            shared_secret matches Some(s) ==> {
                &&& r is Ok <==> line.unwrapped(self.pk@, s@) is Some
                &&& r matches Ok(k) ==> line.unwrapped(self.pk@, s@) == Some(k@)
            },
    {
        match shared_secret {
            Some(s) => line.unwrap_with_secret(&self.pk, s.as_slice()),
            None => Err(crate::format::CryptoFailure),
        }
    }
}

/// The transition relation of the connection protocol for a stub with
/// `serial`, `slot` and fingerprint `tag`: from `state`, on `event`, the
/// protocol moves to `next` and asks for `action`.
pub open spec fn connect_next(
    serial: u32,
    slot: RetiredSlot,
    tag: Seq<u8>,
    state: ConnectState,
    event: ConnectEvent,
    next: ConnectState,
    action: ConnectAction,
) -> bool {
    let fail = |e: ConnectError| next == ConnectState::Failed(e) && action == ConnectAction::Stop;
    match (state, event) {
        (ConnectState::Opening, ConnectEvent::Opened) => next is Verifying && action == ConnectAction::ReadSlotKey(slot),
        (ConnectState::Opening, ConnectEvent::NotFound(_)) => next is AwaitingInsert && action == ConnectAction::ShowInsertMessage,
        (ConnectState::Opening, ConnectEvent::OpenFailed) => fail(ConnectError::CouldNotOpen),
        (ConnectState::AwaitingInsert, ConnectEvent::Acknowledged) => next is Waiting && action == ConnectAction::Open,
        (ConnectState::AwaitingInsert, ConnectEvent::Declined) => fail(ConnectError::NotFound),
        (ConnectState::Waiting, ConnectEvent::Opened) => next is Verifying && action == ConnectAction::ReadSlotKey(slot),
        (ConnectState::Waiting, ConnectEvent::NotFound(t)) => if t >= INSERT_TIMEOUT_MS {
            fail(ConnectError::TimedOut)
        } else {
            next is Waiting && action == ConnectAction::OpenAfter(POLL_INTERVAL_MS)
        },
        (ConnectState::Waiting, ConnectEvent::OpenFailed) => fail(ConnectError::CouldNotOpen),
        (ConnectState::Verifying, ConnectEvent::SlotKey(k)) => match k {
            Some(b) => match parse_point(b@) {
                Some(p) => if fingerprint_of(p) == tag {
                    next matches ConnectState::Authenticating(pk) && pk@ == p && pk.wf() && action == ConnectAction::RequestPin
                } else {
                    fail(ConnectError::StubMismatch)
                },
                None => fail(ConnectError::StubMismatch),
            },
            None => fail(ConnectError::StubMismatch),
        },
        (ConnectState::Authenticating(pk), ConnectEvent::PinEntered) => next == ConnectState::CheckingPin(pk) && action == ConnectAction::VerifyPin,
        (ConnectState::Authenticating(_), ConnectEvent::Declined) => fail(ConnectError::PinRequired),
        (ConnectState::CheckingPin(pk), ConnectEvent::PinAccepted) => {
            &&& next matches ConnectState::Connected(c) && c.serial == serial && c.pk == pk && c.slot == slot && c.tag@ == tag
            &&& action == ConnectAction::Stop
        },
        (ConnectState::CheckingPin(_), ConnectEvent::PinRejected) => fail(ConnectError::InvalidPin),
        (ConnectState::Failed(e), _) => fail(e),
        _ => fail(ConnectError::UnexpectedEvent),
    }
}

impl Stub {
    /// The stub's 9-byte form; the identity index is not part of it.
    pub open spec fn spec_bytes(&self) -> Seq<u8> {
        stub_bytes(self.serial, self.slot, self.tag@)
    }

    /// The stub's text form.
    pub open spec fn spec_text(&self) -> Seq<char> {
        ascii_upper(bech32_text(identity_hrp(), self.spec_bytes()))
    }

    /// A stub for the key `recipient` in `slot` of the device with `serial`;
    /// the fingerprint always comes from the key.
    pub fn new(serial: u32, slot: RetiredSlot, recipient: &Recipient) -> (r: Stub)
        ensures
            r.serial == serial,
            r.slot == slot,
            r.tag@ == fingerprint_of(recipient@),
            r.identity_index == 0,
    {
        Stub { serial, slot, tag: recipient.tag(), identity_index: 0 }
    }

    /// Parses the 9-byte form; `None` for another length or an unknown slot code.
    pub fn from_bytes(bytes: &[u8], identity_index: usize) -> (r: Option<Stub>)
        ensures
            r is Some <==> parse_stub(bytes@) is Some,
            r matches Some(s) ==> {
                &&& parse_stub(bytes@) == Some((s.serial, s.slot, s.tag@))
                &&& s.spec_bytes() == bytes@
                &&& s.identity_index == identity_index
            },
    {
        if bytes.len() != STUB_BYTES {
            return None;
        }
        let slot = match RetiredSlot::from_code(bytes[4]) {
            Some(slot) => slot,
            None => return None,
        };
        proof {
            lemma_le_value_bytes(bytes@.subrange(0, 4));
        }
        let serial: u32 = bytes[0] as u32 + 0x100 * (bytes[1] as u32) + 0x10000 * (bytes[2] as u32)
            + 0x1000000 * (bytes[3] as u32);
        let tag: [u8; 4] = [bytes[5], bytes[6], bytes[7], bytes[8]];
        let s = Stub { serial, slot, tag, identity_index };
        proof {
            assert(tag@ =~= bytes@.subrange(5, 9));
            assert(serial == le_value(bytes@.subrange(0, 4)));
            assert(s.spec_bytes() =~= bytes@);
            let c = choose|t: RetiredSlot| t.spec_code() == bytes@[4];
            crate::slot::lemma_slot_code_injective(c, slot);
        }
        Some(s)
    }

    /// The 9-byte form.
    pub fn to_bytes(&self) -> (r: Vec<u8>)
        ensures
            r@ == self.spec_bytes(),
    {
        let mut r: Vec<u8> = Vec::with_capacity(STUB_BYTES);
        r.push((self.serial % 0x100) as u8);
        r.push(((self.serial / 0x100) % 0x100) as u8);
        r.push(((self.serial / 0x10000) % 0x100) as u8);
        r.push((self.serial / 0x1000000) as u8);
        r.push(self.slot.code());
        r.push(self.tag[0]);
        r.push(self.tag[1]);
        r.push(self.tag[2]);
        r.push(self.tag[3]);
        assert(r@ =~= self.spec_bytes());
        r
    }

    /// The text form: bech32 under the identity prefix, in upper case.
    /// Decoding it gives back the prefix and the stub's 9 bytes, so
    /// `from_string` of it yields a stub equal to this one.
    pub fn to_string(&self) -> (r: String)
        ensures
            r@ == self.spec_text(),
            bech32_decoded(r@) == Some((identity_hrp(), self.spec_bytes())),
            r@.len() == 41,
            r@.subrange(0, 20) == ascii_upper(identity_hrp().push('1')),
    {
        let hrp = crate::IDENTITY_PREFIX;
        proof {
            reveal_strlit("age-plugin-yubikey-");
            assert(hrp@ =~= identity_hrp());
            assert(valid_hrp(hrp@));
        }
        let bytes = self.to_bytes();
        let lower = bech32_encode(hrp, bytes.as_slice());
        let r = to_uppercase(lower.as_str());
        proof {
            lemma_case_round_trip(lower@);
            assert(lower@.subrange(0, 20) =~= identity_hrp().push('1'));
            assert(r@.subrange(0, 20) =~= ascii_upper(lower@.subrange(0, 20)));
        }
        r
    }

    /// Parses the text form, in either case.
    pub fn from_string(s: &str, identity_index: usize) -> (r: Option<Stub>)
        ensures
            r is Some <==> (bech32_decoded(s@) matches Some((h, d)) && h == identity_hrp()
                && parse_stub(d) is Some),
            r matches Some(st) ==> {
                &&& bech32_decoded(s@) == Some((identity_hrp(), st.spec_bytes()))
                &&& st.identity_index == identity_index
            },
    {
        let hrp = crate::IDENTITY_PREFIX;
        proof {
            reveal_strlit("age-plugin-yubikey-");
            assert(hrp@ =~= identity_hrp());
        }
        match bech32_decode(s) {
            Some((h, d)) => {
                if !str_eq(h.as_str(), hrp) {
                    return None;
                }
                Self::from_bytes(d.as_slice(), identity_index)
            },
            None => None,
        }
    }

    /// Whether `line` is addressed to this stub's key.
    pub fn matches(&self, line: &RecipientLine) -> (r: bool)
        ensures
            r == (self.tag@ == line.tag@),
    {
        tag_eq(&self.tag, &line.tag)
    }

    /// The state and first action of the connection protocol.
    pub fn connect_start(&self) -> (r: (ConnectState, ConnectAction))
        ensures
            r.0 is Opening,
            r.1 == ConnectAction::Open,
    {
        (ConnectState::Opening, ConnectAction::Open)
    }

    /// One step of the connection protocol: the next state and the action
    /// the caller must perform.
    pub fn connect_step(&self, state: ConnectState, event: ConnectEvent) -> (r: (ConnectState, ConnectAction))
        requires
            state matches ConnectState::Authenticating(pk) ==> pk.wf() && fingerprint_of(pk@) == self.tag@,
            state matches ConnectState::CheckingPin(pk) ==> pk.wf() && fingerprint_of(pk@) == self.tag@,
        ensures
            r.0 matches ConnectState::Authenticating(pk) ==> pk.wf() && fingerprint_of(pk@) == self.tag@,
            r.0 matches ConnectState::CheckingPin(pk) ==> pk.wf() && fingerprint_of(pk@) == self.tag@,
            r.0 matches ConnectState::Connected(c) ==> c.wf(),
            connect_next(self.serial, self.slot, self.tag@, state, event, r.0, r.1),
    {
        match (state, event) {
            (ConnectState::Opening, ConnectEvent::Opened) => (ConnectState::Verifying, ConnectAction::ReadSlotKey(self.slot)),
            (ConnectState::Opening, ConnectEvent::NotFound(_)) => (ConnectState::AwaitingInsert, ConnectAction::ShowInsertMessage),
            (ConnectState::Opening, ConnectEvent::OpenFailed) => (ConnectState::Failed(ConnectError::CouldNotOpen), ConnectAction::Stop),
            (ConnectState::AwaitingInsert, ConnectEvent::Acknowledged) => (ConnectState::Waiting, ConnectAction::Open),
            (ConnectState::AwaitingInsert, ConnectEvent::Declined) => (ConnectState::Failed(ConnectError::NotFound), ConnectAction::Stop),
            (ConnectState::Waiting, ConnectEvent::Opened) => (ConnectState::Verifying, ConnectAction::ReadSlotKey(self.slot)),
            (ConnectState::Waiting, ConnectEvent::NotFound(t)) => {
                if t >= INSERT_TIMEOUT_MS {
                    (ConnectState::Failed(ConnectError::TimedOut), ConnectAction::Stop)
                } else {
                    (ConnectState::Waiting, ConnectAction::OpenAfter(POLL_INTERVAL_MS))
                }
            },
            (ConnectState::Waiting, ConnectEvent::OpenFailed) => (ConnectState::Failed(ConnectError::CouldNotOpen), ConnectAction::Stop),
            (ConnectState::Verifying, ConnectEvent::SlotKey(k)) => {
                match k {
                    Some(b) => match Recipient::from_bytes(b.as_slice()) {
                        Some(pk) => {
                            let t = pk.tag();
                            if tag_eq(&t, &self.tag) {
                                (ConnectState::Authenticating(pk), ConnectAction::RequestPin)
                            } else {
                                (ConnectState::Failed(ConnectError::StubMismatch), ConnectAction::Stop)
                            }
                        },
                        None => (ConnectState::Failed(ConnectError::StubMismatch), ConnectAction::Stop),
                    },
                    None => (ConnectState::Failed(ConnectError::StubMismatch), ConnectAction::Stop),
                }
            },
            (ConnectState::Authenticating(pk), ConnectEvent::PinEntered) => (ConnectState::CheckingPin(pk), ConnectAction::VerifyPin),
            (ConnectState::Authenticating(_), ConnectEvent::Declined) => (ConnectState::Failed(ConnectError::PinRequired), ConnectAction::Stop),
            (ConnectState::CheckingPin(pk), ConnectEvent::PinAccepted) => {
                let c = Connection { serial: self.serial, pk, slot: self.slot, tag: self.tag };
                (ConnectState::Connected(c), ConnectAction::Stop)
            },
            (ConnectState::CheckingPin(_), ConnectEvent::PinRejected) => (ConnectState::Failed(ConnectError::InvalidPin), ConnectAction::Stop),
            (ConnectState::Failed(e), _) => (ConnectState::Failed(e), ConnectAction::Stop),
            _ => (ConnectState::Failed(ConnectError::UnexpectedEvent), ConnectAction::Stop),
        }
    }
}

impl PartialEq for Stub {
    fn eq(&self, other: &Stub) -> (r: bool) {
        let r = self.serial == other.serial && self.slot.code() == other.slot.code() && tag_eq(&self.tag, &other.tag);
        proof {
            crate::slot::lemma_slot_code_injective(self.slot, other.slot);
            if self.spec_bytes() == other.spec_bytes() {
                lemma_stub_bytes_injective(*self, *other);
            }
        }
        r
    }
}

impl vstd::std_specs::cmp::PartialEqSpecImpl for Stub {
    open spec fn obeys_eq_spec() -> bool {
        true
    }

    open spec fn eq_spec(&self, other: &Stub) -> bool {
        self.spec_bytes() == other.spec_bytes()
    }
}

/// Decoding the 9-byte form of a stub gives back its serial, slot and fingerprint.
pub proof fn lemma_stub_bytes_round_trip(s: Stub)
    ensures
        parse_stub(s.spec_bytes()) == Some((s.serial, s.slot, s.tag@)),
{
    let b = s.spec_bytes();
    lemma_le_round_trip(s.serial);
    assert(b.subrange(0, 4) =~= le_bytes(s.serial));
    assert(b.subrange(5, 9) =~= s.tag@);
    assert(b[4] == s.slot.spec_code());
    let c = choose|t: RetiredSlot| t.spec_code() == b[4];
    crate::slot::lemma_slot_code_injective(c, s.slot);
}

/// Stubs with equal 9-byte forms have equal fields, the identity index aside.
pub proof fn lemma_stub_bytes_injective(a: Stub, b: Stub)
    requires
        a.spec_bytes() == b.spec_bytes(),
    ensures
        a.serial == b.serial,
        a.slot == b.slot,
        a.tag@ == b.tag@,
{
    lemma_stub_bytes_round_trip(a);
    lemma_stub_bytes_round_trip(b);
}

/// A stanza whose fingerprint has one bit flipped from one a stub matches
/// is not matched by that stub, so the device is never asked to decrypt it.
pub proof fn lemma_flipped_tag_not_matched(stub: Stub, line: RecipientLine, tampered: RecipientLine, i: int, bit: u8)
    requires
        stub.tag@ == line.tag@,
        0 <= i < 4,
        bit < 8,
        tampered.tag@ == line.tag@.update(i, line.tag@[i] ^ (1u8 << bit)),
    ensures
        stub.tag@ != tampered.tag@,
{
    let x = line.tag@[i];
    assert(x ^ (1u8 << bit) != x) by (bit_vector)
        requires
            bit < 8,
    ;
    assert(tampered.tag@[i] != stub.tag@[i]);
}

} // verus!
