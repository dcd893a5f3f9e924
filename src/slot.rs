//! The retired key slots of a PIV device that identities may use.

use vstd::prelude::*;

verus! {

/// One of the twenty retired key-management slots, in their usable order.
#[derive(Clone, Copy, Debug, PartialEq, Eq, Structural)]
pub enum RetiredSlot {
    R1,
    R2,
    R3,
    R4,
    R5,
    R6,
    R7,
    R8,
    R9,
    R10,
    R11,
    R12,
    R13,
    R14,
    R15,
    R16,
    R17,
    R18,
    R19,
    R20,
}

/// The number of usable slots.
pub const USABLE_SLOT_COUNT: usize = 20;

impl RetiredSlot {
    /// Position of the slot in the usable order, from 0.
    pub open spec fn spec_index(self) -> nat {
        match self {
            RetiredSlot::R1 => 0,
            RetiredSlot::R2 => 1,
            RetiredSlot::R3 => 2,
            RetiredSlot::R4 => 3,
            RetiredSlot::R5 => 4,
            RetiredSlot::R6 => 5,
            RetiredSlot::R7 => 6,
            RetiredSlot::R8 => 7,
            RetiredSlot::R9 => 8,
            RetiredSlot::R10 => 9,
            RetiredSlot::R11 => 10,
            RetiredSlot::R12 => 11,
            RetiredSlot::R13 => 12,
            RetiredSlot::R14 => 13,
            RetiredSlot::R15 => 14,
            RetiredSlot::R16 => 15,
            RetiredSlot::R17 => 16,
            RetiredSlot::R18 => 17,
            RetiredSlot::R19 => 18,
            RetiredSlot::R20 => 19,
        }
    }

    /// The slot's one-byte wire code: `0x82` for the first slot, rising by one.
    pub open spec fn spec_code(self) -> u8 {
        (0x82 + self.spec_index()) as u8
    }

    /// The slot's one-byte wire code.
    pub fn code(self) -> (r: u8)
        ensures
            r == self.spec_code(),
    {
        match self {
            RetiredSlot::R1 => 0x82,
            RetiredSlot::R2 => 0x83,
            RetiredSlot::R3 => 0x84,
            RetiredSlot::R4 => 0x85,
            RetiredSlot::R5 => 0x86,
            RetiredSlot::R6 => 0x87,
            RetiredSlot::R7 => 0x88,
            RetiredSlot::R8 => 0x89,
            RetiredSlot::R9 => 0x8a,
            RetiredSlot::R10 => 0x8b,
            RetiredSlot::R11 => 0x8c,
            RetiredSlot::R12 => 0x8d,
            RetiredSlot::R13 => 0x8e,
            RetiredSlot::R14 => 0x8f,
            RetiredSlot::R15 => 0x90,
            RetiredSlot::R16 => 0x91,
            RetiredSlot::R17 => 0x92,
            RetiredSlot::R18 => 0x93,
            RetiredSlot::R19 => 0x94,
            RetiredSlot::R20 => 0x95,
        }
    }

    /// The slot with wire code `c`, if `c` names one.
    pub fn from_code(c: u8) -> (r: Option<RetiredSlot>)
        ensures
            r is Some <==> 0x82 <= c <= 0x95,
            r matches Some(s) ==> s.spec_code() == c,
    {
        match c {
            0x82 => Some(RetiredSlot::R1),
            0x83 => Some(RetiredSlot::R2),
            0x84 => Some(RetiredSlot::R3),
            0x85 => Some(RetiredSlot::R4),
            0x86 => Some(RetiredSlot::R5),
            0x87 => Some(RetiredSlot::R6),
            0x88 => Some(RetiredSlot::R7),
            0x89 => Some(RetiredSlot::R8),
            0x8a => Some(RetiredSlot::R9),
            0x8b => Some(RetiredSlot::R10),
            0x8c => Some(RetiredSlot::R11),
            0x8d => Some(RetiredSlot::R12),
            0x8e => Some(RetiredSlot::R13),
            0x8f => Some(RetiredSlot::R14),
            0x90 => Some(RetiredSlot::R15),
            0x91 => Some(RetiredSlot::R16),
            0x92 => Some(RetiredSlot::R17),
            0x93 => Some(RetiredSlot::R18),
            0x94 => Some(RetiredSlot::R19),
            0x95 => Some(RetiredSlot::R20),
            _ => None,
        }
    }

    /// Position of the slot in the usable order, from 0.
    pub fn index(self) -> (r: usize)
        ensures
            r == self.spec_index(),
            r < USABLE_SLOT_COUNT,
    {
        match self {
            RetiredSlot::R1 => 0,
            RetiredSlot::R2 => 1,
            RetiredSlot::R3 => 2,
            RetiredSlot::R4 => 3,
            RetiredSlot::R5 => 4,
            RetiredSlot::R6 => 5,
            RetiredSlot::R7 => 6,
            RetiredSlot::R8 => 7,
            RetiredSlot::R9 => 8,
            RetiredSlot::R10 => 9,
            RetiredSlot::R11 => 10,
            RetiredSlot::R12 => 11,
            RetiredSlot::R13 => 12,
            RetiredSlot::R14 => 13,
            RetiredSlot::R15 => 14,
            RetiredSlot::R16 => 15,
            RetiredSlot::R17 => 16,
            RetiredSlot::R18 => 17,
            RetiredSlot::R19 => 18,
            RetiredSlot::R20 => 19,
        }
    }

    /// The slot at position `i` of the usable order, from 0.
    pub fn from_index(i: usize) -> (r: Option<RetiredSlot>)
        ensures
            r is Some <==> i < USABLE_SLOT_COUNT,
            r matches Some(s) ==> s.spec_index() == i,
    {
        match i {
            0 => Some(RetiredSlot::R1),
            1 => Some(RetiredSlot::R2),
            2 => Some(RetiredSlot::R3),
            3 => Some(RetiredSlot::R4),
            4 => Some(RetiredSlot::R5),
            5 => Some(RetiredSlot::R6),
            6 => Some(RetiredSlot::R7),
            7 => Some(RetiredSlot::R8),
            8 => Some(RetiredSlot::R9),
            9 => Some(RetiredSlot::R10),
            10 => Some(RetiredSlot::R11),
            11 => Some(RetiredSlot::R12),
            12 => Some(RetiredSlot::R13),
            13 => Some(RetiredSlot::R14),
            14 => Some(RetiredSlot::R15),
            15 => Some(RetiredSlot::R16),
            16 => Some(RetiredSlot::R17),
            17 => Some(RetiredSlot::R18),
            18 => Some(RetiredSlot::R19),
            19 => Some(RetiredSlot::R20),
            _ => None,
        }
    }
}

/// Wire codes and slots correspond one to one.
pub proof fn lemma_slot_code_injective(a: RetiredSlot, b: RetiredSlot)
    ensures
        a.spec_code() == b.spec_code() <==> a == b,
{
}

} // verus!
