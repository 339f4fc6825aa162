//! Instruction words: how two bytes form one, how a word splits into its
//! operand fields, and which instruction a word stands for.

use vstd::prelude::*;

verus! {

/// A decoded instruction.
#[derive(Clone, Copy, Debug, PartialEq, Eq, Structural)]
pub enum Opcode {
    /// `00E0`: blank the display surface.
    ClearDisplay,
    /// `00EE`: return to the address on top of the call stack.
    ReturnFromSubroutine,
    /// `1nnn`: continue at `addr`.
    Jump { addr: u16 },
    /// `2nnn`: call the subroutine at `addr`.
    CallSubroutine { addr: u16 },
    /// `0010`: stop the program.
    Halt,
    /// Any other word, kept as it was fetched.
    Unknown { raw: u16 },
}

/// The instruction word whose high byte is `first` and whose low byte is `second`.
pub open spec fn spec_merge(first: u8, second: u8) -> u16 {
    (first as int * 0x100 + second as int) as u16
}

/// The identifier nibble: bits 12–15 of the word.
pub open spec fn spec_identifier(word: u16) -> u8 {
    (word as int / 0x1000) as u8
}

/// The address operand `nnn`: bits 0–11 of the word.
pub open spec fn spec_address(word: u16) -> u16 {
    (word as int % 0x1000) as u16
}

/// The register index `x`: bits 8–11 of the word.
pub open spec fn spec_x(word: u16) -> u8 {
    (word as int / 0x100 % 0x10) as u8
}

/// The register index `y`: bits 4–7 of the word.
pub open spec fn spec_y(word: u16) -> u8 {
    (word as int / 0x10 % 0x10) as u8
}

/// The sub-opcode `n`: bits 0–3 of the word.
pub open spec fn spec_n(word: u16) -> u8 {
    (word as int % 0x10) as u8
}

/// The immediate byte `kk`: bits 0–7 of the word.
pub open spec fn spec_kk(word: u16) -> u8 {
    (word as int % 0x100) as u8
}

/// The instruction that `word` stands for. Every word stands for one: a word
/// outside the known set is `Unknown` and carries itself.
pub open spec fn spec_decode(word: u16) -> Opcode {
    if word == 0x00E0 {
        Opcode::ClearDisplay
    } else if word == 0x00EE {
        Opcode::ReturnFromSubroutine
    } else if word == 0x0010 {
        Opcode::Halt
    } else if spec_identifier(word) == 0x1 {
        Opcode::Jump { addr: spec_address(word) }
    } else if spec_identifier(word) == 0x2 {
        Opcode::CallSubroutine { addr: spec_address(word) }
    } else {
        Opcode::Unknown { raw: word }
    }
}

/// Joins two bytes, high byte first, into one instruction word.
pub fn merge(first: u8, second: u8) -> (word: u16)
    ensures
        word == spec_merge(first, second),
        word == first * 0x100 + second,
{
    assert(((first as u16) << 8 | (second as u16)) == (first as u16) * 0x100 + (second as u16))
        by (bit_vector);
    (first as u16) << 8 | second as u16
}

/// The identifier nibble of `word`, which selects the instruction family.
pub fn identifier(word: u16) -> (id: u8)
    ensures
        id == spec_identifier(word),
        id < 0x10,
{
    assert(word >> 12 == word / 0x1000 && word >> 12 < 0x10) by (bit_vector);
    (word >> 12) as u8
}

/// The 12-bit address operand of `word`.
pub fn address(word: u16) -> (addr: u16)
    ensures
        addr == spec_address(word),
        addr <= 0xFFF,
{
    assert(word & 0x0FFF == word % 0x1000) by (bit_vector);
    word & 0x0FFF
}

/// The first register index of `word`.
pub fn x(word: u16) -> (index: u8)
    ensures
        index == spec_x(word),
        index < 0x10,
{
    assert((word >> 8) & 0xF == word / 0x100 % 0x10) by (bit_vector);
    ((word >> 8) & 0xF) as u8
}

/// The second register index of `word`.
pub fn y(word: u16) -> (index: u8)
    ensures
        index == spec_y(word),
        index < 0x10,
{
    assert((word >> 4) & 0xF == word / 0x10 % 0x10) by (bit_vector);
    ((word >> 4) & 0xF) as u8
}

/// The 4-bit sub-opcode of `word`.
pub fn n(word: u16) -> (nibble: u8)
    ensures
        nibble == spec_n(word),
        nibble < 0x10,
{
    assert(word & 0xF == word % 0x10) by (bit_vector);
    (word & 0xF) as u8
}

/// The immediate byte of `word`.
pub fn kk(word: u16) -> (byte: u8)
    ensures
        byte == spec_kk(word),
{
    assert(word & 0xFF == word % 0x100) by (bit_vector);
    (word & 0xFF) as u8
}

/// Decodes an instruction word. Decoding never fails.
pub fn decode(word: u16) -> (opcode: Opcode)
    ensures
        opcode == spec_decode(word),
{
    let family: u8 = identifier(word);
    let value: u16 = address(word);
    match family {
        0x0 => match value {
            0x010 => Opcode::Halt,
            0x0E0 => Opcode::ClearDisplay,
            0x0EE => Opcode::ReturnFromSubroutine,
            _ => Opcode::Unknown { raw: word },
        },
        0x1 => Opcode::Jump { addr: value },
        0x2 => Opcode::CallSubroutine { addr: value },
        _ => Opcode::Unknown { raw: word },
    }
}

/// A word is its fields put back together: the identifier nibble above the
/// address operand, and the address operand as `x`, `y` and `n` in turn.
pub proof fn lemma_fields_rebuild_word(word: u16)
    ensures
        word == spec_identifier(word) * 0x1000 + spec_address(word),
        spec_address(word) == spec_x(word) * 0x100 + spec_y(word) * 0x10 + spec_n(word),
        spec_kk(word) == spec_y(word) * 0x10 + spec_n(word),
{
    assert(word == (word / 0x1000) * 0x1000 + word % 0x1000) by (bit_vector);
    assert(word % 0x1000 == (word / 0x100 % 0x10) * 0x100 + (word / 0x10 % 0x10) * 0x10 + word
        % 0x10) by (bit_vector);
    assert(word % 0x100 == (word / 0x10 % 0x10) * 0x10 + word % 0x10) by (bit_vector);
}

/// Merging is a bijection between byte pairs and words: the bytes of a merged
/// word are the two that were merged.
pub proof fn lemma_merge_keeps_bytes(first: u8, second: u8)
    ensures
        spec_merge(first, second) / 0x100 == first,
        spec_kk(spec_merge(first, second)) == second,
{
}

} // verus!
