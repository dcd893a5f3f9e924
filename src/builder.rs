//! Planning and assembling a new identity around a freshly generated key.

use vstd::prelude::*;
use vstd::string::StringExecFns;
use crate::error::Error;
use crate::point::{fingerprint_of, parse_point, Recipient};
use crate::primitives::{hex_encode, is_hex_of};
use crate::slot::{RetiredSlot, USABLE_SLOT_COUNT};
use crate::util::{PinPolicy, TouchPolicy};
use crate::yubikey::Stub;

verus! {

/// PIN policy of a new identity unless one is given.
pub const DEFAULT_PIN_POLICY: PinPolicy = PinPolicy::Once;

/// Touch policy of a new identity unless one is given.
pub const DEFAULT_TOUCH_POLICY: TouchPolicy = TouchPolicy::Always;

/// Options for generating a new identity.
#[derive(Debug)]
pub struct IdentityBuilder {
    pub slot: Option<RetiredSlot>,
    pub force: bool,
    pub name: Option<String>,
    pub pin_policy: Option<PinPolicy>,
    pub touch_policy: Option<TouchPolicy>,
}

/// Whether `s` is among `occupied`.
pub open spec fn is_occupied(occupied: Seq<RetiredSlot>, s: RetiredSlot) -> bool {
    exists|i: int| 0 <= i < occupied.len() && occupied[i] == s
}

/// `s` is the first slot in usable order that is not occupied.
pub open spec fn is_first_free(occupied: Seq<RetiredSlot>, s: RetiredSlot) -> bool {
    &&& !is_occupied(occupied, s)
    &&& forall|t: RetiredSlot| t.spec_index() < s.spec_index() ==> is_occupied(occupied, t)
}

/// The text `age identity ` followed by the hexadecimal fingerprint.
pub open spec fn is_default_name(n: Seq<char>, tag: Seq<u8>) -> bool {
    &&& n.len() >= 13
    &&& n.subrange(0, 13) == seq!['a', 'g', 'e', ' ', 'i', 'd', 'e', 'n', 't', 'i', 't', 'y', ' ']
    &&& is_hex_of(n.subrange(13, n.len() as int), tag)
}

fn slot_occupied(occupied: &Vec<RetiredSlot>, s: RetiredSlot) -> (r: bool)
    ensures
        r == is_occupied(occupied@, s),
{
    let mut i: usize = 0;
    while i < occupied.len()
        invariant
            i <= occupied@.len(),
            forall|j: int| 0 <= j < i ==> occupied@[j] != s,
        decreases occupied@.len() - i,
    {
        if occupied[i] == s {
            return true;
        }
        i = i + 1;
    }
    false
}

impl IdentityBuilder {
    /// A builder for `slot` (the first empty slot if `None`), with default
    /// name and policies, that does not overwrite a filled slot.
    pub fn new(slot: Option<RetiredSlot>) -> (r: IdentityBuilder)
        ensures
            r.slot == slot,
            r.name is None,
            r.pin_policy is None,
            r.touch_policy is None,
            !r.force,
    {
        IdentityBuilder { slot, name: None, pin_policy: None, touch_policy: None, force: false }
    }

    pub fn with_name(self, name: Option<String>) -> (r: IdentityBuilder)
        ensures
            r == (IdentityBuilder { name, ..self }),
    {
        IdentityBuilder { name, ..self }
    }

    pub fn with_pin_policy(self, pin_policy: Option<PinPolicy>) -> (r: IdentityBuilder)
        ensures
            r == (IdentityBuilder { pin_policy, ..self }),
    {
        IdentityBuilder { pin_policy, ..self }
    }

    pub fn with_touch_policy(self, touch_policy: Option<TouchPolicy>) -> (r: IdentityBuilder)
        ensures
            r == (IdentityBuilder { touch_policy, ..self }),
    {
        IdentityBuilder { touch_policy, ..self }
    }

    pub fn force(self, force: bool) -> (r: IdentityBuilder)
        ensures
            r == (IdentityBuilder { force, ..self }),
    {
        IdentityBuilder { force, ..self }
    }

    /// The slot to generate into, given the slots of the device with
    /// `serial` that already hold keys.
    pub fn select_slot(&self, serial: u32, occupied: &Vec<RetiredSlot>) -> (r: Result<RetiredSlot, Error>)
        ensures
            self.slot matches Some(s) ==> (if !self.force && is_occupied(occupied@, s) {
                r matches Err(Error::SlotIsNotEmpty(t)) && t == s
            } else {
                r == Ok::<RetiredSlot, Error>(s)
            }),
            self.slot is None ==> (r matches Ok(s) ==> is_first_free(occupied@, s)),
            self.slot is None ==> (r is Err <==> forall|t: RetiredSlot| is_occupied(occupied@, t)),
            self.slot is None ==> (r is Err ==> (r matches Err(Error::NoEmptySlots(n)) && n == serial)),
    {
        match self.slot {
            Some(s) => {
                if !self.force && slot_occupied(occupied, s) {
                    Err(Error::SlotIsNotEmpty(s))
                } else {
                    Ok(s)
                }
            },
            None => {
                let mut i: usize = 0;
                while i < USABLE_SLOT_COUNT
                    invariant
                        i <= USABLE_SLOT_COUNT,
                        self.slot is None,
                        forall|t: RetiredSlot| t.spec_index() < i ==> is_occupied(occupied@, t),
                    decreases USABLE_SLOT_COUNT - i,
                {
                    let s = match RetiredSlot::from_index(i) {
                        Some(s) => s,
                        None => {
                            return Err(Error::NoEmptySlots(serial));
                        },
                    };
                    if !slot_occupied(occupied, s) {
                        assert(is_first_free(occupied@, s));
                        return Ok(s);
                    }
                    i = i + 1;
                }
                proof {
                    assert forall|t: RetiredSlot| is_occupied(occupied@, t) by {
                        assert(t.spec_index() < 20);
                    }
                }
                Err(Error::NoEmptySlots(serial))
            },
        }
    }

    /// The PIN and touch policies to generate with.
    pub fn policies(&self) -> (r: (PinPolicy, TouchPolicy))
        ensures
            r.0 == (match self.pin_policy { Some(p) => p, None => DEFAULT_PIN_POLICY }),
            r.1 == (match self.touch_policy { Some(t) => t, None => DEFAULT_TOUCH_POLICY }),
    {
        let p = match self.pin_policy {
            Some(p) => p,
            None => DEFAULT_PIN_POLICY,
        };
        let t = match self.touch_policy {
            Some(t) => t,
            None => DEFAULT_TOUCH_POLICY,
        };
        (p, t)
    }

    /// Assembles the new identity from the public key the device generated in
    /// `slot`: its stub, its recipient and the name for its certificate.
    /// `None` if the device returned an invalid point.
    pub fn build(self, serial: u32, slot: RetiredSlot, generated: &[u8]) -> (r: Option<(Stub, Recipient, String)>)
        ensures
            r is Some <==> parse_point(generated@) is Some,
            r matches Some((stub, recipient, name)) ==> {
                &&& recipient.wf()
                &&& parse_point(generated@) == Some(recipient@)
                &&& stub.serial == serial && stub.slot == slot && stub.tag@ == fingerprint_of(recipient@)
                &&& stub.identity_index == 0
                &&& (match self.name {
                    Some(n) => name@ == n@,
                    None => is_default_name(name@, stub.tag@),
                })
            },
    {
        let recipient = match Recipient::from_bytes(generated) {
            Some(r) => r,
            None => return None,
        };
        let stub = Stub::new(serial, slot, &recipient);
        let name = match self.name {
            Some(n) => n,
            None => {
                let prefix = "age identity ";
                proof {
                    reveal_strlit("age identity ");
                }
                let hex = hex_encode(&stub.tag);
                let n = String::from_str(prefix).concat(hex.as_str());
                assert(prefix@ =~= seq!['a', 'g', 'e', ' ', 'i', 'd', 'e', 'n', 't', 'i', 't', 'y', ' ']);
                assert(n@.subrange(0, 13) =~= prefix@);
                assert(n@.subrange(13, n@.len() as int) =~= hex@);
                assert(is_hex_of(hex@, stub.tag@));
                assert(is_default_name(n@, stub.tag@));
                n
            },
        };
        Some((stub, recipient, name))
    }
}

} // verus!
