//! PIN and touch policies, and the names shown when listing identities.

use vstd::prelude::*;
use crate::error::Error;
use crate::text::str_eq;

verus! {

/// How often the device asks for the PIN before using a key.
#[derive(Clone, Copy, Debug, PartialEq, Eq, Structural)]
pub enum PinPolicy {
    Never,
    Once,
    Always,
}

/// How often the device asks for a physical touch before using a key.
#[derive(Clone, Copy, Debug, PartialEq, Eq, Structural)]
pub enum TouchPolicy {
    Never,
    Always,
    Cached,
}

pub open spec fn always_text() -> Seq<char> {
    seq!['a', 'l', 'w', 'a', 'y', 's']
}

pub open spec fn once_text() -> Seq<char> {
    seq!['o', 'n', 'c', 'e']
}

pub open spec fn never_text() -> Seq<char> {
    seq!['n', 'e', 'v', 'e', 'r']
}

pub open spec fn cached_text() -> Seq<char> {
    seq!['c', 'a', 'c', 'h', 'e', 'd']
}

/// The PIN policy that `s` names, if any.
pub open spec fn parse_pin_policy(s: Seq<char>) -> Option<PinPolicy> {
    if s == always_text() {
        Some(PinPolicy::Always)
    } else if s == once_text() {
        Some(PinPolicy::Once)
    } else if s == never_text() {
        Some(PinPolicy::Never)
    } else {
        None
    }
}

/// The touch policy that `s` names, if any.
pub open spec fn parse_touch_policy(s: Seq<char>) -> Option<TouchPolicy> {
    if s == always_text() {
        Some(TouchPolicy::Always)
    } else if s == cached_text() {
        Some(TouchPolicy::Cached)
    } else if s == never_text() {
        Some(TouchPolicy::Never)
    } else {
        None
    }
}

/// Parses a PIN policy: one of `always`, `once`, `never`.
pub fn pin_policy_from_string(s: String) -> (r: Result<PinPolicy, Error>)
    ensures
        s@ == always_text() ==> r == Ok::<PinPolicy, Error>(PinPolicy::Always),
        s@ == once_text() ==> r == Ok::<PinPolicy, Error>(PinPolicy::Once),
        s@ == never_text() ==> r == Ok::<PinPolicy, Error>(PinPolicy::Never),
        s@ != always_text() && s@ != once_text() && s@ != never_text() ==> (r matches Err(Error::InvalidPinPolicy(e)) && e@ == s@),
        r is Ok <==> parse_pin_policy(s@) is Some,
        r matches Ok(p) ==> parse_pin_policy(s@) == Some(p),
{
    proof {
        reveal_strlit("always");
        reveal_strlit("once");
        reveal_strlit("never");
        assert("always"@ =~= always_text());
        assert("once"@ =~= once_text());
        assert("never"@ =~= never_text());
    }
    if str_eq(s.as_str(), "always") {
        Ok(PinPolicy::Always)
    } else if str_eq(s.as_str(), "once") {
        Ok(PinPolicy::Once)
    } else if str_eq(s.as_str(), "never") {
        Ok(PinPolicy::Never)
    } else {
        Err(Error::InvalidPinPolicy(s))
    }
}

/// Parses a touch policy: one of `always`, `cached`, `never`.
pub fn touch_policy_from_string(s: String) -> (r: Result<TouchPolicy, Error>)
    ensures
        s@ == always_text() ==> r == Ok::<TouchPolicy, Error>(TouchPolicy::Always),
        s@ == cached_text() ==> r == Ok::<TouchPolicy, Error>(TouchPolicy::Cached),
        s@ == never_text() ==> r == Ok::<TouchPolicy, Error>(TouchPolicy::Never),
        s@ != always_text() && s@ != cached_text() && s@ != never_text() ==> (r matches Err(Error::InvalidTouchPolicy(e)) && e@ == s@),
        r is Ok <==> parse_touch_policy(s@) is Some,
        r matches Ok(t) ==> parse_touch_policy(s@) == Some(t),
{
    proof {
        reveal_strlit("always");
        reveal_strlit("cached");
        reveal_strlit("never");
        assert("always"@ =~= always_text());
        assert("cached"@ =~= cached_text());
        assert("never"@ =~= never_text());
    }
    if str_eq(s.as_str(), "always") {
        Ok(TouchPolicy::Always)
    } else if str_eq(s.as_str(), "cached") {
        Ok(TouchPolicy::Cached)
    } else if str_eq(s.as_str(), "never") {
        Ok(TouchPolicy::Never)
    } else {
        Err(Error::InvalidTouchPolicy(s))
    }
}

impl PinPolicy {
    /// The policy's code in the device's policy encoding.
    pub open spec fn spec_code(self) -> u8 {
        match self {
            PinPolicy::Never => 1u8,
            PinPolicy::Once => 2u8,
            PinPolicy::Always => 3u8,
        }
    }

    /// The policy's code in the device's policy encoding.
    pub fn code(self) -> (r: u8)
        ensures
            r == self.spec_code(),
    {
        match self {
            PinPolicy::Never => 1,
            PinPolicy::Once => 2,
            PinPolicy::Always => 3,
        }
    }

    /// The policy with code `c`, if `c` names one.
    pub fn from_code(c: u8) -> (r: Option<PinPolicy>)
        ensures
            r is Some <==> 1 <= c <= 3,
            r matches Some(p) ==> p.spec_code() == c,
    {
        match c {
            1 => Some(PinPolicy::Never),
            2 => Some(PinPolicy::Once),
            3 => Some(PinPolicy::Always),
            _ => None,
        }
    }
}

impl TouchPolicy {
    /// The policy's code in the device's policy encoding.
    pub open spec fn spec_code(self) -> u8 {
        match self {
            TouchPolicy::Never => 1u8,
            TouchPolicy::Always => 2u8,
            TouchPolicy::Cached => 3u8,
        }
    }

    /// The policy's code in the device's policy encoding.
    pub fn code(self) -> (r: u8)
        ensures
            r == self.spec_code(),
    {
        match self {
            TouchPolicy::Never => 1,
            TouchPolicy::Always => 2,
            TouchPolicy::Cached => 3,
        }
    }

    /// The policy with code `c`, if `c` names one.
    pub fn from_code(c: u8) -> (r: Option<TouchPolicy>)
        ensures
            r is Some <==> 1 <= c <= 3,
            r matches Some(p) ==> p.spec_code() == c,
    {
        match c {
            1 => Some(TouchPolicy::Never),
            2 => Some(TouchPolicy::Always),
            3 => Some(TouchPolicy::Cached),
            _ => None,
        }
    }
}

/// The PIN and touch policies stored in an identity certificate's policy
/// extension, whose first two bytes are the two codes.
pub fn policies_from_extension(value: &[u8]) -> (r: Option<(PinPolicy, TouchPolicy)>)
    ensures
        r is Some <==> value@.len() >= 2 && 1 <= value@[0] <= 3 && 1 <= value@[1] <= 3,
        r matches Some((p, t)) ==> p.spec_code() == value@[0] && t.spec_code() == value@[1],
{
    if value.len() < 2 {
        return None;
    }
    match (PinPolicy::from_code(value[0]), TouchPolicy::from_code(value[1])) {
        (Some(p), Some(t)) => Some((p, t)),
        _ => None,
    }
}

/// Describes a PIN policy for listings.
pub fn pin_policy_to_str(policy: Option<PinPolicy>) -> (r: &'static str)
    ensures
        policy == Some(PinPolicy::Always) ==> r@ == "Always (A PIN is required for every decryption, if set)"@,
        policy == Some(PinPolicy::Once) ==> r@ == "Once   (A PIN is required once per session, if set)"@,
        policy == Some(PinPolicy::Never) ==> r@ == "Never  (A PIN is NOT required to decrypt)"@,
        policy is None ==> r@ == "Unknown"@,
{
    match policy {
        Some(PinPolicy::Always) => "Always (A PIN is required for every decryption, if set)",
        Some(PinPolicy::Once) => "Once   (A PIN is required once per session, if set)",
        Some(PinPolicy::Never) => "Never  (A PIN is NOT required to decrypt)",
        None => "Unknown",
    }
}

/// Describes a touch policy for listings.
pub fn touch_policy_to_str(policy: Option<TouchPolicy>) -> (r: &'static str)
    ensures
        policy == Some(TouchPolicy::Always) ==> r@ == "Always (A physical touch is required for every decryption)"@,
        policy == Some(TouchPolicy::Cached) ==> r@ == "Cached (A physical touch is required for decryption, and is cached for 15 seconds)"@,
        policy == Some(TouchPolicy::Never) ==> r@ == "Never  (A physical touch is NOT required to decrypt)"@,
        policy is None ==> r@ == "Unknown"@,
{
    match policy {
        Some(TouchPolicy::Always) => "Always (A physical touch is required for every decryption)",
        Some(TouchPolicy::Cached) => "Cached (A physical touch is required for decryption, and is cached for 15 seconds)",
        Some(TouchPolicy::Never) => "Never  (A physical touch is NOT required to decrypt)",
        None => "Unknown",
    }
}

/// The name under which a key is listed, and whether it is one of ours.
///
/// A certificate whose subject organisation is this plugin's is ours; its
/// name is the subject's common name (empty if missing). Another key is
/// listed only when `all` is set, under its whole subject.
pub fn extract_name(organization: Option<String>, common_name: Option<String>, subject: String, all: bool) -> (r: Option<(String, bool)>)
    ensures
        (organization matches Some(o) && o@ == crate::PLUGIN_NAME@) ==> (r matches Some((n, ours)) && ours
            && n@ == (match common_name { Some(c) => c@, None => Seq::<char>::empty() })),
        !(organization matches Some(o) && o@ == crate::PLUGIN_NAME@) ==> (r is None <==> !all),
        !(organization matches Some(o) && o@ == crate::PLUGIN_NAME@) ==> (r matches Some((n, ours)) ==> (!ours && n@ == subject@)),
{
    let ours = match &organization {
        Some(o) => str_eq(o.as_str(), crate::PLUGIN_NAME),
        None => false,
    };
    if ours {
        let name = match common_name {
            Some(c) => c,
            None => String::new(),
        };
        Some((name, true))
    } else if !all {
        None
    } else {
        Some((subject, false))
    }
}

} // verus!
