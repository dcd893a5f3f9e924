use vstd::prelude::*;
use crate::slot::RetiredSlot;

verus! {

/// Errors of the command-level operations.
#[derive(Debug, Clone)]
pub enum Error {
    /// A device, prompt or certificate operation failed.
    Device(String),
    InvalidSlot(u8),
    InvalidPinPolicy(String),
    InvalidTouchPolicy(String),
    MultipleCommands,
    MultipleIdentities,
    MultipleYubiKeys,
    NoEmptySlots(u32),
    NoIdentities,
    NoMatchingSerial(u32),
    SlotHasNoIdentity(RetiredSlot),
    SlotIsNotEmpty(RetiredSlot),
    TimedOut,
}

} // verus!
