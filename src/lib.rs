//! A hardware-backed identity for file encryption: P-256 recipients, the
//! key-wrapping stanza, compact identity stubs and the decisions of the
//! device-connection protocol, each with a verified contract.

use vstd::prelude::*;

pub mod builder;
pub mod commands;
pub mod error;
pub mod format;
pub mod primitives;
pub mod slot;
pub mod point;
pub mod text;
pub mod util;
pub mod yubikey;

verus! {

/// Organisation name written into the certificates of generated identities.
pub const PLUGIN_NAME: &'static str = "age-plugin-yubikey";

/// Human-readable prefix of a recipient's text form.
pub const RECIPIENT_PREFIX: &'static str = "age1yubikey";

/// Human-readable prefix of an identity stub's text form.
pub const IDENTITY_PREFIX: &'static str = "age-plugin-yubikey-";

/// Tag of the stanzas this scheme reads and writes.
pub const STANZA_TAG: &'static str = "piv-p256";

} // verus!
