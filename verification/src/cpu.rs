//! The interpreter: memory, registers and call stack under one roof, and the
//! fetch–decode–execute cycle that drives them one instruction at a time.

use vstd::prelude::*;
use crate::display::{spec_blank, Display};
use crate::memory::{
    spec_initial_memory, spec_with_program, spec_word_at, Memory, MEMORY_SIZE, PROGRAM_CAPACITY,
    PROGRAM_START,
};
use crate::opcode::{decode, merge, spec_decode, spec_merge, Opcode};
use crate::registers::{RegisterFile, RegisterState, REGISTER_COUNT};
use crate::stack::{CallStack, STACK_CAPACITY};
use crate::status::{Fault, Flow, Status};

verus! {

/// Width of one instruction in bytes: what the program counter moves by after
/// an instruction that does not branch.
pub const INSTRUCTION_WIDTH: u16 = 2;

/// The interpreter as plain values.
pub struct CpuState {
    /// The bytes of memory, address `0x000` first.
    pub memory: Seq<u8>,
    /// The general registers, `V0` first.
    pub v: Seq<u8>,
    /// The index register `I`.
    pub index: u16,
    /// The program counter.
    pub pc: u16,
    /// The live return addresses, oldest first. Its length is the stack pointer.
    pub stack: Seq<u16>,
    /// The instruction word fetched last.
    pub operation_code: u16,
}

impl CpuState {
    /// The shape every interpreter has: 4096 bytes of memory, sixteen
    /// registers, at most sixteen return addresses.
    pub open spec fn wf(self) -> bool {
        &&& self.memory.len() == MEMORY_SIZE
        &&& self.v.len() == REGISTER_COUNT
        &&& self.stack.len() <= STACK_CAPACITY
    }
}

/// The interpreter right after construction.
pub open spec fn spec_initial_state() -> CpuState {
    CpuState {
        memory: spec_initial_memory(),
        v: Seq::new(REGISTER_COUNT as nat, |x: int| 0u8),
        index: 0,
        pc: PROGRAM_START,
        stack: Seq::empty(),
        operation_code: 0,
    }
}

/// Loading `program`: a program that fits is copied to the program region and
/// the program counter is set to its first byte; one that does not fit is
/// refused and nothing changes.
pub open spec fn spec_load(s: CpuState, program: Seq<u8>) -> (CpuState, Result<(), Fault>) {
    if program.len() <= PROGRAM_CAPACITY {
        (
            CpuState { memory: spec_with_program(s.memory, program), pc: PROGRAM_START, ..s },
            Ok(()),
        )
    } else {
        (s, Err(Fault::ProgramTooLarge))
    }
}

/// Fetching: the word at the program counter becomes the retained instruction
/// word; with no room for two bytes at the program counter nothing changes.
pub open spec fn spec_fetch(s: CpuState) -> (CpuState, Result<u16, Fault>) {
    if s.pc + 1 < MEMORY_SIZE {
        let word = spec_word_at(s.memory, s.pc as int);
        (CpuState { operation_code: word, ..s }, Ok(word))
    } else {
        (s, Err(Fault::MemoryOutOfBounds))
    }
}

/// Executing `opcode`: the state it leaves and what it asks of the cycle
/// driver. A fault leaves the state as it was.
pub open spec fn spec_execute(s: CpuState, opcode: Opcode) -> (CpuState, Result<Flow, Fault>) {
    match opcode {
        Opcode::ClearDisplay => (s, Ok(Flow::Next)),
        Opcode::ReturnFromSubroutine => if s.stack.len() == 0 {
            (s, Err(Fault::StackUnderflow))
        } else {
            (CpuState { pc: s.stack.last(), stack: s.stack.drop_last(), ..s }, Ok(Flow::Jumped))
        },
        Opcode::Jump { addr } => (CpuState { pc: addr, ..s }, Ok(Flow::Jumped)),
        Opcode::CallSubroutine { addr } => if s.stack.len() >= STACK_CAPACITY {
            (s, Err(Fault::StackOverflow))
        } else {
            (CpuState { pc: addr, stack: s.stack.push(s.pc), ..s }, Ok(Flow::Jumped))
        },
        Opcode::Halt => (s, Ok(Flow::Halted)),
        Opcode::Unknown { raw } => (s, Err(Fault::UnimplementedOpcode { raw })),
    }
}

/// What executing `opcode` leaves on the display surface.
pub open spec fn spec_draw(display: Seq<bool>, opcode: Opcode) -> Seq<bool> {
    if opcode == Opcode::ClearDisplay {
        spec_blank()
    } else {
        display
    }
}

/// One cycle: fetch, decode, execute, and the advance of the program counter
/// past an instruction that did not set it.
pub open spec fn spec_cycle(s: CpuState) -> (CpuState, Status) {
    let (fetched, word) = spec_fetch(s);
    match word {
        Err(fault) => (fetched, Status::Fault(fault)),
        Ok(word) => {
            let (executed, flow) = spec_execute(fetched, spec_decode(word));
            match flow {
                Ok(Flow::Next) => (
                    CpuState { pc: (executed.pc + INSTRUCTION_WIDTH) as u16, ..executed },
                    Status::Continue,
                ),
                Ok(Flow::Jumped) => (executed, Status::Continue),
                Ok(Flow::Halted) => (executed, Status::Halted),
                Err(fault) => (executed, Status::Fault(fault)),
            }
        },
    }
}

/// What one cycle leaves on the display surface.
pub open spec fn spec_cycle_draw(s: CpuState, display: Seq<bool>) -> Seq<bool> {
    match spec_fetch(s).1 {
        Err(_) => display,
        Ok(word) => spec_draw(display, spec_decode(word)),
    }
}

/// The interpreter.
pub struct MainCPU {
    operation_code: u16,
    memory: Memory,
    registers: RegisterFile,
    stack: CallStack,
}

impl View for MainCPU {
    type V = CpuState;

    closed spec fn view(&self) -> CpuState {
        CpuState {
            memory: self.memory@,
            v: self.registers@.v,
            index: self.registers@.index,
            pc: self.registers@.pc,
            stack: self.stack@,
            operation_code: self.operation_code,
        }
    }
}

impl MainCPU {
    /// An interpreter in its initial state: the font table in memory, every
    /// register zero, an empty stack, the program counter at `0x200`.
    pub fn new() -> (cpu: MainCPU)
        ensures
            cpu@ == spec_initial_state(),
            cpu@.wf(),
    {
        MainCPU {
            operation_code: 0x000,
            memory: Memory::new(),
            registers: RegisterFile::new(),
            stack: CallStack::new(),
        }
    }

    /// Installs `program` at `0x200` and points the program counter at it.
    pub fn load_program(&mut self, program: &[u8]) -> (result: Result<(), Fault>)
        ensures
            (final(self)@, result) == spec_load(old(self)@, program@),
            final(self)@.wf(),
    {
        proof {
            use_type_invariant(&self.memory);
            use_type_invariant(&self.registers);
            use_type_invariant(&self.stack);
        }
        match self.memory.load(program) {
            Ok(()) => {
                self.registers.set_program_counter(PROGRAM_START);
                proof {
                    use_type_invariant(&self.memory);
                    use_type_invariant(&self.registers);
                    use_type_invariant(&self.stack);
                }
                Ok(())
            },
            Err(fault) => Err(fault),
        }
    }

    /// Reads the instruction word at the program counter and retains it.
    pub fn fetch_operation(&mut self) -> (result: Result<u16, Fault>)
        ensures
            (final(self)@, result) == spec_fetch(old(self)@),
            final(self)@.wf(),
    {
        proof {
            use_type_invariant(&self.memory);
            use_type_invariant(&self.registers);
            use_type_invariant(&self.stack);
        }
        match self.memory.read_word(self.registers.program_counter()) {
            Ok(word) => {
                self.operation_code = word;
                Ok(word)
            },
            Err(fault) => Err(fault),
        }
    }

    /// Decodes the retained instruction word and executes it.
    pub fn decode_operation(&mut self, display: &mut Display) -> (result: Result<Flow, Fault>)
        ensures
            (final(self)@, result) == spec_execute(
                old(self)@,
                spec_decode(old(self)@.operation_code),
            ),
            final(display)@ == spec_draw(old(display)@, spec_decode(old(self)@.operation_code)),
            final(self)@.wf(),
    {
        let opcode = decode(self.operation_code);
        self.execute(opcode, display)
    }

    /// Executes `opcode` through the handler that belongs to it.
    pub fn execute(&mut self, opcode: Opcode, display: &mut Display) -> (result: Result<
        Flow,
        Fault,
    >)
        ensures
            (final(self)@, result) == spec_execute(old(self)@, opcode),
            final(display)@ == spec_draw(old(display)@, opcode),
            final(self)@.wf(),
    {
        proof {
            use_type_invariant(&self.memory);
            use_type_invariant(&self.registers);
            use_type_invariant(&self.stack);
        }
        match opcode {
            Opcode::ClearDisplay => Ok(self.clean_display(display)),
            Opcode::ReturnFromSubroutine => self.return_from_subroutine(),
            Opcode::Jump { addr } => Ok(self.jp_to_addr(addr)),
            Opcode::CallSubroutine { addr } => self.call_subroutine(addr),
            Opcode::Halt => Ok(Flow::Halted),
            Opcode::Unknown { raw } => Err(Fault::UnimplementedOpcode { raw }),
        }
    }

    /// Runs one fetch–decode–execute step and reports how it ended.
    pub fn emulate(&mut self, display: &mut Display) -> (status: Status)
        ensures
            (final(self)@, status) == spec_cycle(old(self)@),
            final(display)@ == spec_cycle_draw(old(self)@, old(display)@),
            final(self)@.wf(),
    {
        match self.fetch_operation() {
            Err(fault) => Status::Fault(fault),
            Ok(_) => match self.decode_operation(display) {
                Ok(Flow::Next) => {
                    let pc: u16 = self.registers.program_counter();
                    self.registers.set_program_counter(pc + INSTRUCTION_WIDTH);
                    proof {
                        use_type_invariant(&self.memory);
                        use_type_invariant(&self.registers);
                        use_type_invariant(&self.stack);
                    }
                    Status::Continue
                },
                Ok(Flow::Jumped) => Status::Continue,
                Ok(Flow::Halted) => Status::Halted,
                Err(fault) => Status::Fault(fault),
            },
        }
    }

    /// Joins two bytes, high byte first, into one instruction word.
    pub fn merge_opcode(&self, first: u8, second: u8) -> (word: u16)
        ensures
            word == spec_merge(first, second),
    {
        merge(first, second)
    }

    /// The memory of the interpreter.
    pub fn memory(&self) -> (memory: &Memory)
        ensures
            memory@ == self@.memory,
    {
        &self.memory
    }

    /// The register file of the interpreter.
    pub fn registers(&self) -> (registers: &RegisterFile)
        ensures
            registers@ == (RegisterState { v: self@.v, index: self@.index, pc: self@.pc }),
    {
        &self.registers
    }

    /// The call stack of the interpreter.
    pub fn stack(&self) -> (stack: &CallStack)
        ensures
            stack@ == self@.stack,
    {
        &self.stack
    }

    /// The program counter.
    pub fn program_counter(&self) -> (pc: u16)
        ensures
            pc == self@.pc,
    {
        self.registers.program_counter()
    }

    /// The index register `I`.
    pub fn index(&self) -> (index: u16)
        ensures
            index == self@.index,
    {
        self.registers.index()
    }

    /// The stack pointer: the number of return addresses on the stack.
    pub fn stack_pointer(&self) -> (pointer: usize)
        ensures
            pointer == self@.stack.len(),
    {
        self.stack.pointer()
    }

    /// The instruction word fetched last.
    pub fn operation_code(&self) -> (word: u16)
        ensures
            word == self@.operation_code,
    {
        self.operation_code
    }

    /// Blanks the display surface.
    fn clean_display(&mut self, display: &mut Display) -> (flow: Flow)
        ensures
            flow == Flow::Next,
            final(self)@ == old(self)@,
            final(display)@ == spec_blank(),
    {
        display.clear();
        Flow::Next
    }

    /// Resumes at the return address on top of the stack.
    fn return_from_subroutine(&mut self) -> (result: Result<Flow, Fault>)
        ensures
            (final(self)@, result) == spec_execute(old(self)@, Opcode::ReturnFromSubroutine),
    {
        match self.stack.pop() {
            Ok(addr) => {
                self.registers.set_program_counter(addr);
                Ok(Flow::Jumped)
            },
            Err(fault) => Err(fault),
        }
    }

    /// Continues at `addr`.
    fn jp_to_addr(&mut self, addr: u16) -> (flow: Flow)
        ensures
            flow == Flow::Jumped,
            final(self)@ == (CpuState { pc: addr, ..old(self)@ }),
    {
        self.registers.set_program_counter(addr);
        Flow::Jumped
    }

    /// Pushes the program counter and continues at `addr`.
    fn call_subroutine(&mut self, addr: u16) -> (result: Result<Flow, Fault>)
        ensures
            (final(self)@, result) == spec_execute(old(self)@, Opcode::CallSubroutine { addr }),
    {
        proof {
            use_type_invariant(&self.stack);
        }
        match self.stack.push(self.registers.program_counter()) {
            Ok(()) => {
                self.registers.set_program_counter(addr);
                Ok(Flow::Jumped)
            },
            Err(fault) => Err(fault),
        }
    }
}

} // verus!
