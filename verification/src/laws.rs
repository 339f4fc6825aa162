//! Laws of the interpreter: what holds of every state, every program and
//! every run, stated over the model that the contracts use.

use vstd::prelude::*;
use crate::cpu::{
    spec_cycle, spec_cycle_draw, spec_execute, spec_fetch, spec_initial_state, spec_load,
    CpuState,
};
use crate::memory::{
    spec_word_at, FONTSET, FONT_BASE, FONT_SIZE, MEMORY_SIZE, PROGRAM_CAPACITY, PROGRAM_START,
};
use crate::opcode::{spec_decode, spec_merge, Opcode};
use crate::stack::STACK_CAPACITY;
use crate::status::{Fault, Flow, Status};

verus! {

/// A new interpreter has 4096 bytes of memory, sixteen registers that hold
/// zero, an empty stack, the program counter at `0x200` and the index
/// register at zero. Its memory holds the font table from `FONT_BASE` on and
/// zero everywhere else.
pub proof fn lemma_initial_state()
    ensures
        spec_initial_state().wf(),
        spec_initial_state().memory.len() == 4096,
        spec_initial_state().v.len() == 16,
        forall|x: int| 0 <= x < 16 ==> spec_initial_state().v[x] == 0,
        spec_initial_state().stack.len() == 0,
        spec_initial_state().pc == 0x200,
        spec_initial_state().index == 0,
        forall|i: int|
            0 <= i < FONT_SIZE ==> spec_initial_state().memory[FONT_BASE + i] == FONTSET@[i],
        forall|a: int|
            FONT_BASE + FONT_SIZE <= a < MEMORY_SIZE ==> spec_initial_state().memory[a] == 0,
{
}

/// Loading, fetching, executing and a whole cycle keep the shape of the
/// interpreter: memory stays 4096 bytes long, the registers stay sixteen, and
/// the stack pointer never passes the capacity of the stack.
pub proof fn lemma_steps_keep_well_formed(s: CpuState, program: Seq<u8>, opcode: Opcode)
    requires
        s.wf(),
    ensures
        spec_load(s, program).0.wf(),
        spec_fetch(s).0.wf(),
        spec_execute(s, opcode).0.wf(),
        spec_cycle(s).0.wf(),
{
}

/// A cycle that ends in a fault has changed nothing but the retained
/// instruction word: memory, registers, program counter, stack and display
/// are as they were.
pub proof fn lemma_fault_changes_nothing(s: CpuState, display: Seq<bool>)
    requires
        s.wf(),
        spec_cycle(s).1 is Fault,
    ensures
        spec_cycle(s).0 == (CpuState { operation_code: spec_cycle(s).0.operation_code, ..s }),
        spec_cycle_draw(s, display) == display,
{
}

/// A halt instruction ends the cycle with `Halted` and moves nothing: the
/// next cycle fetches the same instruction again.
pub proof fn lemma_halt_is_terminal(s: CpuState)
    requires
        s.wf(),
        spec_cycle(s).1 == Status::Halted,
    ensures
        spec_cycle(s).0.pc == s.pc,
        spec_cycle(spec_cycle(s).0) == spec_cycle(s),
{
}

/// A return on an empty stack ends the cycle with `StackUnderflow`: the
/// program counter and the stack stay as they were.
pub proof fn lemma_return_on_empty_stack_underflows(s: CpuState)
    requires
        s.wf(),
        s.stack.len() == 0,
        spec_fetch(s).1 == Ok::<u16, Fault>(0x00EE),
    ensures
        spec_cycle(s) == (
            CpuState { operation_code: 0x00EE, ..s },
            Status::Fault(Fault::StackUnderflow),
        ),
{
}

/// A word that decodes to no known instruction ends the cycle with
/// `UnimplementedOpcode`, which carries the word as it was fetched; the cycle
/// never passes over it with `Continue`.
pub proof fn lemma_unknown_word_faults(s: CpuState, word: u16)
    requires
        s.wf(),
        spec_fetch(s).1 == Ok::<u16, Fault>(word),
        spec_decode(word) is Unknown,
    ensures
        spec_cycle(s) == (
            CpuState { operation_code: word, ..s },
            Status::Fault(Fault::UnimplementedOpcode { raw: word }),
        ),
{
}

/// Loading a program never touches the reserved region below `0x200`, so the
/// font table survives every load.
pub proof fn lemma_load_keeps_reserved_region(s: CpuState, program: Seq<u8>, addr: int)
    requires
        s.wf(),
        0 <= addr < PROGRAM_START,
    ensures
        spec_load(s, program).0.memory[addr] == s.memory[addr],
{
}

/// Round trip of a program through memory: once `program` is loaded, the
/// instruction word at offset `k` of the program region is the big-endian
/// merge of the program's bytes `k` and `k + 1`, and a fetch with the program
/// counter there yields it.
pub proof fn lemma_load_then_fetch(s: CpuState, program: Seq<u8>, k: int)
    requires
        s.wf(),
        program.len() <= PROGRAM_CAPACITY,
        0 <= k,
        k + 1 < program.len(),
    ensures
        spec_load(s, program).1.is_ok(),
        spec_word_at(spec_load(s, program).0.memory, PROGRAM_START + k) == spec_merge(
            program[k],
            program[k + 1],
        ),
        spec_fetch(CpuState { pc: (PROGRAM_START + k) as u16, ..spec_load(s, program).0 }).1
            == Ok::<u16, Fault>(spec_merge(program[k], program[k + 1])),
{
}

/// Round trip of four bytes: with `[b0, b1, b2, b3]` loaded, the instruction
/// words at `0x200` and `0x202` are `(b0 << 8) | b1` and `(b2 << 8) | b3`.
pub proof fn lemma_load_four_bytes(s: CpuState, b0: u8, b1: u8, b2: u8, b3: u8)
    requires
        s.wf(),
    ensures
        ({
            let loaded = spec_load(s, seq![b0, b1, b2, b3]).0;
            &&& spec_word_at(loaded.memory, 0x200) == (b0 as u16) << 8 | (b1 as u16)
            &&& spec_word_at(loaded.memory, 0x202) == (b2 as u16) << 8 | (b3 as u16)
            &&& spec_fetch(loaded).1 == Ok::<u16, Fault>((b0 as u16) << 8 | (b1 as u16))
        }),
{
    let program = seq![b0, b1, b2, b3];
    lemma_load_then_fetch(s, program, 0);
    lemma_load_then_fetch(s, program, 2);
    assert(((b0 as u16) << 8 | (b1 as u16)) == (b0 as u16) * 0x100 + (b1 as u16)) by (bit_vector);
    assert(((b2 as u16) << 8 | (b3 as u16)) == (b2 as u16) * 0x100 + (b3 as u16)) by (bit_vector);
}

/// The state after a call to each of `targets` in turn.
pub open spec fn spec_after_calls(s: CpuState, targets: Seq<u16>) -> CpuState
    decreases targets.len(),
{
    if targets.len() == 0 {
        s
    } else {
        spec_execute(
            spec_after_calls(s, targets.drop_last()),
            Opcode::CallSubroutine { addr: targets.last() },
        ).0
    }
}

/// Calls without a return stack up: while there is room, every call succeeds
/// and the stack pointer has moved up by the number of calls.
pub proof fn lemma_calls_stack_up(s: CpuState, targets: Seq<u16>)
    requires
        s.wf(),
        s.stack.len() + targets.len() <= STACK_CAPACITY,
    ensures
        spec_after_calls(s, targets).wf(),
        spec_after_calls(s, targets).stack.len() == s.stack.len() + targets.len(),
        targets.len() > 0 ==> spec_execute(
            spec_after_calls(s, targets.drop_last()),
            Opcode::CallSubroutine { addr: targets.last() },
        ).1 == Ok::<Flow, Fault>(Flow::Jumped),
    decreases targets.len(),
{
    if targets.len() > 0 {
        lemma_calls_stack_up(s, targets.drop_last());
    }
}

/// The call after the one that filled the stack overflows: from an empty
/// stack that is the seventeenth. It leaves the state as it was.
pub proof fn lemma_call_on_full_stack_overflows(s: CpuState, targets: Seq<u16>, addr: u16)
    requires
        s.wf(),
        s.stack.len() + targets.len() == STACK_CAPACITY,
    ensures
        spec_execute(spec_after_calls(s, targets), Opcode::CallSubroutine { addr }) == (
            spec_after_calls(s, targets),
            Err::<Flow, Fault>(Fault::StackOverflow),
        ),
{
    lemma_calls_stack_up(s, targets);
}

/// A return undoes a call: after a call that succeeded, a return restores
/// the program counter and the stack that the call found.
pub proof fn lemma_return_undoes_call(s: CpuState, addr: u16)
    requires
        s.wf(),
        s.stack.len() < STACK_CAPACITY,
    ensures
        spec_execute(
            spec_execute(s, Opcode::CallSubroutine { addr }).0,
            Opcode::ReturnFromSubroutine,
        ) == (s, Ok::<Flow, Fault>(Flow::Jumped)),
{
    let called = spec_execute(s, Opcode::CallSubroutine { addr }).0;
    assert(called.stack.drop_last() =~= s.stack);
}

} // verus!
