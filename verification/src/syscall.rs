//! The 32-bit request word that a task hands to the kernel.
//!
//! The four high bits of a word select the kernel operation, the twenty-eight
//! low bits carry its operand: a channel identifier, or a tick count for a
//! delay.

use vstd::prelude::*;

verus! {

/// Mask selecting the operand bits of a request word.
pub const OPERAND_MASK: u32 = 0x0FFF_FFFF;

/// Suspend the task for as many ticks as the operand says.
pub const SC_DELAY: u32 = 0x0000_0000;

/// Suspend the task until the channel named by the operand holds a message.
pub const SC_CHAN_POP: u32 = 0x1000_0000;

/// Take a message from the channel named by the operand if one is ready.
pub const SC_CHAN_POLL: u32 = 0x2000_0000;

/// Hand the task's current message to the channel named by the operand.
pub const SC_MSG_SEND: u32 = 0x3000_0000;

/// Give the task's current message back to the kernel.
pub const SC_MSG_FREE: u32 = 0x4000_0000;

/// The request word made of the opcode bits `opcode` and the operand `operand`.
pub open spec fn request(opcode: u32, operand: u32) -> u32 {
    opcode | operand
}

/// The operation number of a request word: its four high bits.
pub open spec fn opcode_of(word: u32) -> u32 {
    word >> 28
}

/// The operand of a request word: its twenty-eight low bits.
pub open spec fn operand_of(word: u32) -> u32 {
    word & OPERAND_MASK
}

/// Whether `opcode` lies in the four high bits only, as the opcode constants do.
pub open spec fn is_opcode(opcode: u32) -> bool {
    opcode & OPERAND_MASK == 0
}

/// Joins opcode bits and an operand into a request word.
pub fn request_word(opcode: u32, operand: u32) -> (word: u32)
    ensures
        word == request(opcode, operand),
{
    opcode | operand
}

/// The operation number of `word`, below 16.
pub fn opcode(word: u32) -> (op: u32)
    ensures
        op == opcode_of(word),
        op < 16,
{
    assert(word >> 28 < 16) by (bit_vector);
    word >> 28
}

/// The operand of `word`, at most `OPERAND_MASK`.
pub fn operand(word: u32) -> (arg: u32)
    ensures
        arg == operand_of(word),
        arg <= OPERAND_MASK,
{
    assert(word & 0x0FFF_FFFF <= 0x0FFF_FFFF) by (bit_vector);
    word & OPERAND_MASK
}

/// Opcode and operand do not overlap: a word made of opcode bits and an operand
/// that fits in twenty-eight bits gives both back unchanged.
pub proof fn lemma_request_fields(opcode: u32, operand: u32)
    requires
        is_opcode(opcode),
        operand <= OPERAND_MASK,
    ensures
        opcode_of(request(opcode, operand)) == opcode_of(opcode),
        operand_of(request(opcode, operand)) == operand,
        request(opcode_of(opcode) << 28, operand) == request(opcode, operand),
{
    assert((opcode | operand) >> 28 == opcode >> 28) by (bit_vector)
        requires
            operand <= 0x0FFF_FFFF,
    ;
    assert((opcode | operand) & 0x0FFF_FFFF == operand) by (bit_vector)
        requires
            opcode & 0x0FFF_FFFF == 0,
            operand <= 0x0FFF_FFFF,
    ;
    assert((opcode >> 28) << 28 == opcode) by (bit_vector)
        requires
            opcode & 0x0FFF_FFFF == 0,
    ;
}

/// The five opcode constants are opcodes, numbered 0 to 4.
pub proof fn lemma_opcode_numbers()
    ensures
        is_opcode(SC_DELAY) && opcode_of(SC_DELAY) == 0,
        is_opcode(SC_CHAN_POP) && opcode_of(SC_CHAN_POP) == 1,
        is_opcode(SC_CHAN_POLL) && opcode_of(SC_CHAN_POLL) == 2,
        is_opcode(SC_MSG_SEND) && opcode_of(SC_MSG_SEND) == 3,
        is_opcode(SC_MSG_FREE) && opcode_of(SC_MSG_FREE) == 4,
{
    assert(0x0000_0000u32 & 0x0FFF_FFFF == 0 && 0x0000_0000u32 >> 28 == 0) by (bit_vector);
    assert(0x1000_0000u32 & 0x0FFF_FFFF == 0 && 0x1000_0000u32 >> 28 == 1) by (bit_vector);
    assert(0x2000_0000u32 & 0x0FFF_FFFF == 0 && 0x2000_0000u32 >> 28 == 2) by (bit_vector);
    assert(0x3000_0000u32 & 0x0FFF_FFFF == 0 && 0x3000_0000u32 >> 28 == 3) by (bit_vector);
    assert(0x4000_0000u32 & 0x0FFF_FFFF == 0 && 0x4000_0000u32 >> 28 == 4) by (bit_vector);
}

/// A delay word is its tick count: the delay opcode adds no bit.
pub proof fn lemma_delay_word(ticks: u32)
    ensures
        request(SC_DELAY, ticks) == ticks,
{
    assert(0x0000_0000u32 | ticks == ticks) by (bit_vector);
}

} // verus!
