//! The addressable memory of the machine and its built-in font table.

use vstd::prelude::*;
use crate::opcode::{merge, spec_merge};
use crate::status::Fault;
use crate::storage::allocate_memory;

verus! {

/// Number of addressable bytes: addresses run over `0x000..=0xFFF`.
pub const MEMORY_SIZE: usize = 0x1000;

/// First address of the program region.
pub const PROGRAM_START: u16 = 0x200;

/// Number of bytes in the program region `0x200..=0xFFF`.
pub const PROGRAM_CAPACITY: usize = 0xE00;

/// Address of the first byte of the font table.
pub const FONT_BASE: u16 = 0x000;

/// Number of bytes in the font table: sixteen glyphs of five rows each.
pub const FONT_SIZE: usize = 80;

/// The glyphs of the hexadecimal digits `0` to `F`, five rows each.
pub const FONTSET: [u8; 80] = [
    0xF0, 0x90, 0x90, 0x90, 0xF0,
    0x20, 0x60, 0x20, 0x20, 0x70,
    0xF0, 0x10, 0xF0, 0x80, 0xF0,
    0xF0, 0x10, 0xF0, 0x10, 0xF0,
    0x90, 0x90, 0xF0, 0x10, 0x10,
    0xF0, 0x80, 0xF0, 0x10, 0xF0,
    0xF0, 0x80, 0xF0, 0x90, 0xF0,
    0xF0, 0x10, 0x20, 0x40, 0x40,
    0xF0, 0x90, 0xF0, 0x90, 0xF0,
    0xF0, 0x90, 0xF0, 0x10, 0xF0,
    0xF0, 0x90, 0xF0, 0x90, 0x90,
    0xE0, 0x90, 0xE0, 0x90, 0xE0,
    0xF0, 0x80, 0x80, 0x80, 0xF0,
    0xE0, 0x90, 0x90, 0x90, 0xE0,
    0xF0, 0x80, 0xF0, 0x80, 0xF0,
    0xF0, 0x80, 0xF0, 0x80, 0x80,
];

/// Memory `bytes` with the font table copied over it from `FONT_BASE` on.
pub open spec fn spec_with_font(bytes: Seq<u8>) -> Seq<u8> {
    Seq::new(
        bytes.len(),
        |a: int|
            if FONT_BASE <= a < FONT_BASE + FONT_SIZE {
                FONTSET@[a - FONT_BASE]
            } else {
                bytes[a]
            },
    )
}

/// Memory as it is right after construction: the font table at its base, zero
/// everywhere else.
pub open spec fn spec_initial_memory() -> Seq<u8> {
    spec_with_font(Seq::new(MEMORY_SIZE as nat, |a: int| 0u8))
}

/// Memory `bytes` with `program` copied over it from `PROGRAM_START` on.
pub open spec fn spec_with_program(bytes: Seq<u8>, program: Seq<u8>) -> Seq<u8> {
    Seq::new(
        bytes.len(),
        |a: int|
            if PROGRAM_START <= a < PROGRAM_START + program.len() {
                program[a - PROGRAM_START]
            } else {
                bytes[a]
            },
    )
}

/// The instruction word stored big-endian at `addr` and `addr + 1`.
pub open spec fn spec_word_at(bytes: Seq<u8>, addr: int) -> u16 {
    spec_merge(bytes[addr], bytes[addr + 1])
}

/// The 4096 bytes of the machine.
pub struct Memory {
    bytes: Vec<u8>,
}

impl View for Memory {
    type V = Seq<u8>;

    closed spec fn view(&self) -> Seq<u8> {
        self.bytes@
    }
}

impl Memory {
    /// Every memory holds exactly `MEMORY_SIZE` bytes.
    #[verifier::type_invariant]
    pub open spec fn sized(&self) -> bool {
        self@.len() == MEMORY_SIZE
    }

    /// Memory holding the font table and nothing else.
    pub fn new() -> (memory: Memory)
        ensures
            memory@ == spec_initial_memory(),
    {
        let mut memory = Memory { bytes: allocate_memory::<u8>(MEMORY_SIZE) };
        memory.set_font_system();
        memory
    }

    /// Copies the font table into the reserved region, from `FONT_BASE` on.
    fn set_font_system(&mut self)
        ensures
            final(self)@ == spec_with_font(old(self)@),
    {
        proof {
            use_type_invariant(&*self);
        }
        let mut i: usize = 0;
        while i < FONT_SIZE
            invariant
                i <= FONT_SIZE,
                self.bytes@.len() == MEMORY_SIZE,
                forall|a: int|
                    FONT_BASE <= a < FONT_BASE + i ==> self.bytes@[a] == FONTSET@[a - FONT_BASE],
                forall|a: int|
                    0 <= a < MEMORY_SIZE && !(FONT_BASE <= a < FONT_BASE + i) ==> self.bytes@[a]
                        == old(self).bytes@[a],
            decreases FONT_SIZE - i,
        {
            self.bytes[FONT_BASE as usize + i] = FONTSET[i];
            i += 1;
        }
    }

    /// The number of bytes, which is always `MEMORY_SIZE`.
    pub fn len(&self) -> (len: usize)
        ensures
            len == MEMORY_SIZE,
            len == self@.len(),
    {
        proof {
            use_type_invariant(self);
        }
        self.bytes.len()
    }

    /// Reads the byte at `addr`.
    pub fn read_byte(&self, addr: u16) -> (result: Result<u8, Fault>)
        ensures
            addr < MEMORY_SIZE ==> result == Ok::<u8, Fault>(self@[addr as int]),
            addr >= MEMORY_SIZE ==> result == Err::<u8, Fault>(Fault::MemoryOutOfBounds),
    {
        proof {
            use_type_invariant(self);
        }
        if (addr as usize) < MEMORY_SIZE {
            Ok(self.bytes[addr as usize])
        } else {
            Err(Fault::MemoryOutOfBounds)
        }
    }

    /// Writes `value` at `addr`. On a fault nothing is written.
    pub fn write_byte(&mut self, addr: u16, value: u8) -> (result: Result<(), Fault>)
        ensures
            addr < MEMORY_SIZE ==> result.is_ok() && final(self)@ == old(self)@.update(
                addr as int,
                value,
            ),
            addr >= MEMORY_SIZE ==> result == Err::<(), Fault>(Fault::MemoryOutOfBounds)
                && final(self)@ == old(self)@,
    {
        proof {
            use_type_invariant(&*self);
        }
        if (addr as usize) < MEMORY_SIZE {
            self.bytes[addr as usize] = value;
            Ok(())
        } else {
            Err(Fault::MemoryOutOfBounds)
        }
    }

    /// Reads the instruction word stored big-endian at `addr` and `addr + 1`.
    pub fn read_word(&self, addr: u16) -> (result: Result<u16, Fault>)
        ensures
            addr + 1 < MEMORY_SIZE ==> result == Ok::<u16, Fault>(spec_word_at(self@, addr as int)),
            addr + 1 >= MEMORY_SIZE ==> result == Err::<u16, Fault>(Fault::MemoryOutOfBounds),
    {
        proof {
            use_type_invariant(self);
        }
        if (addr as usize) < MEMORY_SIZE - 1 {
            let first: u8 = self.bytes[addr as usize];
            let second: u8 = self.bytes[addr as usize + 1];
            Ok(merge(first, second))
        } else {
            Err(Fault::MemoryOutOfBounds)
        }
    }

    /// Copies `program` into the program region, from `PROGRAM_START` on. A
    /// program longer than the region is refused and nothing is written.
    pub fn load(&mut self, program: &[u8]) -> (result: Result<(), Fault>)
        ensures
            program@.len() <= PROGRAM_CAPACITY ==> result.is_ok() && final(self)@
                == spec_with_program(old(self)@, program@),
            program@.len() > PROGRAM_CAPACITY ==> result == Err::<(), Fault>(
                Fault::ProgramTooLarge,
            ) && final(self)@ == old(self)@,
    {
        proof {
            use_type_invariant(&*self);
        }
        if program.len() > PROGRAM_CAPACITY {
            return Err(Fault::ProgramTooLarge);
        }
        let mut i: usize = 0;
        while i < program.len()
            invariant
                i <= program@.len() <= PROGRAM_CAPACITY,
                self.bytes@.len() == MEMORY_SIZE,
                forall|a: int|
                    PROGRAM_START <= a < PROGRAM_START + i ==> self.bytes@[a] == program@[a
                        - PROGRAM_START],
                forall|a: int|
                    0 <= a < MEMORY_SIZE && !(PROGRAM_START <= a < PROGRAM_START + i)
                        ==> self.bytes@[a] == old(self).bytes@[a],
            decreases program@.len() - i,
        {
            self.bytes[PROGRAM_START as usize + i] = program[i];
            i += 1;
        }
        Ok(())
    }
}

} // verus!
