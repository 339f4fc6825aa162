//! The register file: sixteen byte registers, the index register and the
//! program counter.

use vstd::prelude::*;
use crate::memory::PROGRAM_START;
use crate::storage::allocate_memory;

verus! {

/// Number of general registers, `V0` to `VF`.
pub const REGISTER_COUNT: usize = 16;

/// The register file as plain values.
pub struct RegisterState {
    /// The general registers, `V0` first.
    pub v: Seq<u8>,
    /// The index register `I`.
    pub index: u16,
    /// The program counter.
    pub pc: u16,
}

/// The register file right after construction: every register zero, the
/// program counter at the start of the program region.
pub open spec fn spec_initial_registers() -> RegisterState {
    RegisterState { v: Seq::new(REGISTER_COUNT as nat, |x: int| 0u8), index: 0, pc: PROGRAM_START }
}

/// The registers of the machine.
pub struct RegisterFile {
    v: Vec<u8>,
    index: u16,
    pc: u16,
}

impl View for RegisterFile {
    type V = RegisterState;

    closed spec fn view(&self) -> RegisterState {
        RegisterState { v: self.v@, index: self.index, pc: self.pc }
    }
}

impl RegisterFile {
    /// Every register file holds exactly `REGISTER_COUNT` general registers.
    #[verifier::type_invariant]
    pub open spec fn sized(&self) -> bool {
        self@.v.len() == REGISTER_COUNT
    }

    /// A register file in its initial state.
    pub fn new() -> (registers: RegisterFile)
        ensures
            registers@ == spec_initial_registers(),
    {
        let registers = RegisterFile {
            v: allocate_memory::<u8>(REGISTER_COUNT),
            index: 0x000,
            pc: PROGRAM_START,
        };
        assert(registers@.v =~= spec_initial_registers().v);
        registers
    }

    /// The number of general registers, which is always `REGISTER_COUNT`.
    pub fn len(&self) -> (len: usize)
        ensures
            len == REGISTER_COUNT,
            len == self@.v.len(),
    {
        proof {
            use_type_invariant(self);
        }
        self.v.len()
    }

    /// The value of register `Vx`.
    pub fn register(&self, x: u8) -> (value: u8)
        requires
            x < REGISTER_COUNT,
        ensures
            value == self@.v[x as int],
    {
        proof {
            use_type_invariant(self);
        }
        self.v[x as usize]
    }

    /// Sets register `Vx` and leaves every other register as it was.
    pub fn set_register(&mut self, x: u8, value: u8)
        requires
            x < REGISTER_COUNT,
        ensures
            final(self)@ == (RegisterState {
                v: old(self)@.v.update(x as int, value),
                ..old(self)@
            }),
    {
        proof {
            use_type_invariant(&*self);
        }
        self.v[x as usize] = value;
    }

    /// The index register `I`.
    pub fn index(&self) -> (index: u16)
        ensures
            index == self@.index,
    {
        self.index
    }

    /// Sets the index register `I`.
    pub fn set_index(&mut self, index: u16)
        ensures
            final(self)@ == (RegisterState { index, ..old(self)@ }),
    {
        proof {
            use_type_invariant(&*self);
        }
        self.index = index;
    }

    /// The program counter.
    pub fn program_counter(&self) -> (pc: u16)
        ensures
            pc == self@.pc,
    {
        self.pc
    }

    /// Sets the program counter.
    pub fn set_program_counter(&mut self, pc: u16)
        ensures
            final(self)@ == (RegisterState { pc, ..old(self)@ }),
    {
        proof {
            use_type_invariant(&*self);
        }
        self.pc = pc;
    }
}

} // verus!
