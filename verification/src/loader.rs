//! The program loader: it validates a byte sequence, copies it to the fixed
//! origin and points the reset vector at it.

use vstd::prelude::*;
use crate::error::{ExecutionError, LoadError};
use crate::execution::{run_from, stepped, Step, OPCODE_BRK};
use crate::memory::{with_word, word_at, AddressSpace, MEMORY_SIZE};
use crate::registers::Registers;

verus! {

/// Address at which programs are installed and at which execution starts.
pub const PROGRAM_ORIGIN: u16 = 0x8000;

/// Address of the reset vector: the little-endian word at `0xFFFC` and
/// `0xFFFD` holds the address at which execution starts after a reset.
pub const RESET_VECTOR: u16 = 0xFFFC;

/// Number of bytes between the origin and the top of the address space: a
/// longer program does not fit.
pub const MAX_PROGRAM_LENGTH: usize = 0x8000;

/// What the loader says of `program`: it must hold at least one byte and end
/// with the halt opcode.
pub open spec fn validated(program: Seq<u8>) -> Result<(), LoadError> {
    if program.len() == 0 {
        Err(LoadError::EmptyProgram)
    } else if program.last() != OPCODE_BRK {
        Err(LoadError::MissingTerminator)
    } else {
        Ok(())
    }
}

/// `memory` with `program` copied to `origin` and the addresses after it;
/// every other byte stays.
pub open spec fn installed(memory: Seq<u8>, origin: int, program: Seq<u8>) -> Seq<u8> {
    Seq::new(
        memory.len(),
        |i: int|
            if origin <= i < origin + program.len() {
                program[i - origin]
            } else {
                memory[i]
            },
    )
}

/// `memory` after a successful load of `program`: the program stands at the
/// origin, and the reset vector, written last, points at the origin. A
/// program long enough to reach the vector has those two bytes overwritten.
pub open spec fn loaded_image(memory: Seq<u8>, program: Seq<u8>) -> Seq<u8> {
    with_word(
        installed(memory, PROGRAM_ORIGIN as int, program),
        RESET_VECTOR as int,
        PROGRAM_ORIGIN,
    )
}

/// Checks that `program` can be loaded.
pub fn validate_program(program: &[u8]) -> (result: Result<(), LoadError>)
    ensures
        result == validated(program@),
{
    let program_length: usize = program.len();
    if program_length == 0 {
        return Err(LoadError::EmptyProgram);
    }
    let last_byte: u8 = program[program_length - 1];
    if last_byte != OPCODE_BRK {
        return Err(LoadError::MissingTerminator);
    }
    Ok(())
}

/// Validates `program` and installs it in `memory`. A program that is
/// refused leaves the memory as it was.
pub fn load_program(memory: &mut AddressSpace, program: &[u8]) -> (result: Result<(), LoadError>)
    requires
        program@.len() <= MAX_PROGRAM_LENGTH,
    ensures
        result == validated(program@),
        result is Ok ==> final(memory)@ == loaded_image(old(memory)@, program@),
        result is Ok ==> word_at(final(memory)@, RESET_VECTOR as int) == PROGRAM_ORIGIN,
        result is Err ==> *final(memory) == *old(memory),
{
    match validate_program(program) {
        Err(error) => {
            return Err(error);
        },
        Ok(()) => {},
    }
    proof {
        memory.lemma_size();
    }
    let mut copied: usize = 0;
    while copied < program.len()
        invariant
            copied <= program@.len() <= MAX_PROGRAM_LENGTH,
            memory@.len() == MEMORY_SIZE,
            memory@ == installed(old(memory)@, PROGRAM_ORIGIN as int, program@.take(copied as int)),
        decreases program@.len() - copied,
    {
        let address: u16 = (PROGRAM_ORIGIN as usize + copied) as u16;
        memory.write_byte(address, program[copied]);
        copied = copied + 1;
    }
    assert(program@.take(copied as int) == program@);
    memory.write_u16(RESET_VECTOR, PROGRAM_ORIGIN);
    Ok(())
}

/// Memory that holds the reset vector of a loaded program cannot be run off
/// its end: a run from any address up to the vector's high byte halts or
/// meets an unimplemented opcode. The vector's low byte `0x00` is BRK, its
/// high byte `0x80` selects no instruction, and no instruction is long
/// enough to step over both.
pub proof fn lemma_reset_vector_stops_runs(code: Seq<u8>, registers: Registers)
    requires
        code.len() == MEMORY_SIZE,
        word_at(code, RESET_VECTOR as int) == PROGRAM_ORIGIN,
        registers.program_counter <= RESET_VECTOR + 1,
    ensures
        run_from(code, registers).result != Err::<(), ExecutionError>(
            ExecutionError::FetchOutOfBounds,
        ),
    decreases RESET_VECTOR + 1 - registers.program_counter,
{
    assert(code[RESET_VECTOR as int] == 0x00 && code[RESET_VECTOR + 1] == 0x80);
    match stepped(code, registers) {
        Step::Running(next) => {
            lemma_reset_vector_stops_runs(code, next);
        },
        _ => {},
    }
}

/// A loaded program cannot be run off the end of the address space, whatever
/// the memory held before the load and wherever below the top of the reset
/// vector the run starts.
pub proof fn lemma_loaded_program_stops(memory: Seq<u8>, program: Seq<u8>, registers: Registers)
    requires
        memory.len() == MEMORY_SIZE,
        registers.program_counter <= RESET_VECTOR + 1,
    ensures
        run_from(loaded_image(memory, program), registers).result != Err::<(), ExecutionError>(
            ExecutionError::FetchOutOfBounds,
        ),
{
    lemma_reset_vector_stops_runs(loaded_image(memory, program), registers);
}

} // verus!
