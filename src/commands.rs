//! The decisions behind the command-line operations: reading the options of
//! a new identity, picking a device and picking an identity.

use vstd::prelude::*;
use crate::builder::IdentityBuilder;
use crate::error::Error;
use crate::slot::RetiredSlot;
use crate::util::{parse_pin_policy, parse_touch_policy, pin_policy_from_string, touch_policy_from_string};
use crate::yubikey::{INSERT_TIMEOUT_MS, POLL_INTERVAL_MS};

verus! {

/// The slot with 1-based number `n` in usable order.
pub open spec fn slot_number(n: u8) -> Option<RetiredSlot> {
    if 1 <= n <= 20 {
        Some(choose|s: RetiredSlot| s.spec_index() == n - 1)
    } else {
        None
    }
}

/// The slot with 1-based number `n` in usable order, if there is one.
pub fn slot_from_number(n: u8) -> (r: Option<RetiredSlot>)
    ensures
        r == slot_number(n),
{
    if n == 0 {
        return None;
    }
    match RetiredSlot::from_index((n - 1) as usize) {
        Some(s) => {
            proof {
                let c = choose|t: RetiredSlot| t.spec_index() == n - 1;
                crate::slot::lemma_slot_code_injective(c, s);
            }
            Some(s)
        },
        None => None,
    }
}

/// The options of `generate` are valid.
pub open spec fn generate_options_valid(slot: Option<u8>, pin_policy: Option<String>, touch_policy: Option<String>) -> bool {
    &&& slot matches Some(n) ==> 1 <= n <= 20
    &&& pin_policy matches Some(p) ==> parse_pin_policy(p@) is Some
    &&& touch_policy matches Some(t) ==> parse_touch_policy(t@) is Some
}

/// Reads the options of a new identity into a builder: the slot by its
/// 1-based number, the policies by name. The first invalid option, in that
/// order, is the error.
pub fn generate(slot: Option<u8>, name: Option<String>, pin_policy: Option<String>, touch_policy: Option<String>, force: bool) -> (r: Result<IdentityBuilder, Error>)
    ensures
        r is Ok <==> generate_options_valid(slot, pin_policy, touch_policy),
        slot is Some && !(1 <= slot->0 <= 20) ==> (r matches Err(Error::InvalidSlot(m)) && m == slot->0),
        (slot matches Some(n) ==> 1 <= n <= 20) && (pin_policy matches Some(p) && parse_pin_policy(p@) is None)
            ==> (r matches Err(Error::InvalidPinPolicy(e)) && e@ == pin_policy->0@),
        (slot matches Some(n) ==> 1 <= n <= 20) && (pin_policy matches Some(p) ==> parse_pin_policy(p@) is Some)
            && (touch_policy matches Some(t) && parse_touch_policy(t@) is None)
            ==> (r matches Err(Error::InvalidTouchPolicy(e)) && e@ == touch_policy->0@),
        r matches Ok(b) ==> {
            &&& b.slot == (match slot { Some(n) => slot_number(n), None => None })
            &&& b.name == name
            &&& b.force == force
            &&& b.pin_policy == (match pin_policy { Some(p) => parse_pin_policy(p@), None => None })
            &&& b.touch_policy == (match touch_policy { Some(t) => parse_touch_policy(t@), None => None })
        },
{
    let s = match slot {
        Some(n) => match slot_from_number(n) {
            Some(s) => Some(s),
            None => return Err(Error::InvalidSlot(n)),
        },
        None => None,
    };
    let p = match pin_policy {
        Some(p) => match pin_policy_from_string(p) {
            Ok(p) => Some(p),
            Err(e) => return Err(e),
        },
        None => None,
    };
    let t = match touch_policy {
        Some(t) => match touch_policy_from_string(t) {
            Ok(t) => Some(t),
            Err(e) => return Err(e),
        },
        None => None,
    };
    Ok(IdentityBuilder::new(s).with_name(name).with_pin_policy(p).with_touch_policy(t).force(force))
}

/// Fails when more than one command was asked for.
pub fn check_single_command(generate: bool, identity: bool, list: bool, list_all: bool) -> (r: Result<(), Error>)
    ensures
        r is Ok <==> (generate as int + identity as int + list as int + list_all as int) <= 1,
        r is Err ==> r matches Err(Error::MultipleCommands),
{
    let n: u8 = generate as u8 + identity as u8 + list as u8 + list_all as u8;
    if n > 1 {
        Err(Error::MultipleCommands)
    } else {
        Ok(())
    }
}

/// The first position at which `serials` holds `s`.
pub open spec fn first_index_of(serials: Seq<u32>, s: u32, i: int) -> bool {
    &&& 0 <= i < serials.len()
    &&& serials[i] == s
    &&& forall|j: int| 0 <= j < i ==> serials[j] != s
}

/// Picks the device to use among the connected ones, given their serials:
/// the one with `serial` if given, else the only one.
pub fn select_reader(serials: &Vec<u32>, serial: Option<u32>) -> (r: Result<usize, Error>)
    requires
        serials@.len() > 0,
    ensures
        serial matches Some(s) ==> (r matches Ok(i) ==> first_index_of(serials@, s, i as int)),
        serial matches Some(s) ==> (r is Err <==> !serials@.contains(s)),
        serial matches Some(s) ==> (r is Err ==> (r matches Err(Error::NoMatchingSerial(t)) && t == s)),
        serial is None ==> (serials@.len() == 1 <==> r == Ok::<usize, Error>(0)),
        serial is None && serials@.len() > 1 ==> (r matches Err(Error::MultipleYubiKeys)),
{
    match serial {
        Some(s) => {
            let mut i: usize = 0;
            while i < serials.len()
                invariant
                    i <= serials@.len(),
                    serial == Some(s),
                    forall|j: int| 0 <= j < i ==> serials@[j] != s,
                decreases serials@.len() - i,
            {
                if serials[i] == s {
                    return Ok(i);
                }
                i = i + 1;
            }
            Err(Error::NoMatchingSerial(s))
        },
        None => {
            if serials.len() == 1 {
                Ok(0)
            } else {
                Err(Error::MultipleYubiKeys)
            }
        },
    }
}

/// What to do while waiting for any device to be connected.
#[derive(Clone, Copy, Debug, PartialEq, Eq, Structural)]
pub enum ReaderWait {
    /// At least one device is connected.
    Ready,
    /// Check again after this many milliseconds.
    RetryAfter(u64),
    /// Waited too long.
    TimedOut,
}

/// One step of waiting for a device: `readers` are connected and
/// `elapsed_ms` have passed since the wait began.
pub fn wait_for_readers(readers: usize, elapsed_ms: u64) -> (r: ReaderWait)
    ensures
        readers > 0 ==> r == ReaderWait::Ready,
        readers == 0 && elapsed_ms >= INSERT_TIMEOUT_MS ==> r == ReaderWait::TimedOut,
        readers == 0 && elapsed_ms < INSERT_TIMEOUT_MS ==> r == ReaderWait::RetryAfter(POLL_INTERVAL_MS),
{
    if readers > 0 {
        ReaderWait::Ready
    } else if elapsed_ms >= INSERT_TIMEOUT_MS {
        ReaderWait::TimedOut
    } else {
        ReaderWait::RetryAfter(POLL_INTERVAL_MS)
    }
}

/// A compatible key found on a device: its slot, and whether its certificate
/// marks it as an identity of this plugin.
#[derive(Clone, Copy, Debug, PartialEq, Eq, Structural)]
pub struct KeyCandidate {
    pub slot: RetiredSlot,
    pub ours: bool,
}

/// The positions at which `keys` holds identities of this plugin.
pub open spec fn ours_count(keys: Seq<KeyCandidate>) -> nat
    decreases keys.len(),
{
    if keys.len() == 0 {
        0
    } else {
        ours_count(keys.drop_last()) + if keys.last().ours { 1nat } else { 0nat }
    }
}

/// Picks the identity to print among the compatible keys of a device: the
/// first in `slot` if given, else the only identity of this plugin.
pub fn select_identity(keys: &Vec<KeyCandidate>, slot: Option<RetiredSlot>) -> (r: Result<usize, Error>)
    ensures
        slot matches Some(s) ==> (r matches Ok(i) ==> (i < keys@.len() && keys@[i as int].slot == s
            && forall|j: int| 0 <= j < i ==> keys@[j].slot != s)),
        slot matches Some(s) ==> (r is Err <==> forall|j: int| 0 <= j < keys@.len() ==> keys@[j].slot != s),
        slot matches Some(s) ==> (r is Err ==> (r matches Err(Error::SlotHasNoIdentity(t)) && t == s)),
        slot is None ==> (r is Ok <==> ours_count(keys@) == 1),
        slot is None ==> (r matches Ok(i) ==> i < keys@.len() && keys@[i as int].ours),
        slot is None && ours_count(keys@) == 0 ==> (r matches Err(Error::NoIdentities)),
        slot is None && ours_count(keys@) > 1 ==> (r matches Err(Error::MultipleIdentities)),
{
    match slot {
        Some(s) => {
            let mut i: usize = 0;
            while i < keys.len()
                invariant
                    i <= keys@.len(),
                    slot == Some(s),
                    forall|j: int| 0 <= j < i ==> keys@[j].slot != s,
                decreases keys@.len() - i,
            {
                if keys[i].slot == s {
                    return Ok(i);
                }
                i = i + 1;
            }
            Err(Error::SlotHasNoIdentity(s))
        },
        None => {
            let mut found: Option<usize> = None;
            let mut count: usize = 0;
            let mut i: usize = 0;
            while i < keys.len()
                invariant
                    i <= keys@.len(),
                    slot is None,
                    count == ours_count(keys@.subrange(0, i as int)),
                    count <= i,
                    count == 0 <==> found is None,
                    found matches Some(f) ==> f < keys@.len() && keys@[f as int].ours,
                decreases keys@.len() - i,
            {
                assert(keys@.subrange(0, i + 1).drop_last() =~= keys@.subrange(0, i as int));
                if keys[i].ours {
                    if found.is_none() {
                        found = Some(i);
                    }
                    count = count + 1;
                }
                i = i + 1;
            }
            assert(keys@.subrange(0, keys@.len() as int) =~= keys@);
            if count == 0 {
                Err(Error::NoIdentities)
            } else if count > 1 {
                Err(Error::MultipleIdentities)
            } else {
                match found {
                    Some(f) => Ok(f),
                    None => Err(Error::NoIdentities),
                }
            }
        },
    }
}

} // verus!
