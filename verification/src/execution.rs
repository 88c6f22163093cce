//! The fetch-decode-execute loop, over any byte sequence that holds code.
//!
//! The program counter is 16 bits wide and always points one past the last
//! byte fetched. A byte can therefore be fetched only where the counter can
//! step over it: inside the code and below `0xFFFF`.

use vstd::prelude::*;
use crate::error::ExecutionError;
use crate::registers::Registers;

verus! {

/// Opcode of BRK, which halts the processor.
pub const OPCODE_BRK: u8 = 0x00;

/// Opcode of LDA with an immediate operand.
pub const OPCODE_LDA_IMMEDIATE: u8 = 0xA9;

/// Opcode of TAX.
pub const OPCODE_TAX: u8 = 0xAA;

/// Opcode of INX.
pub const OPCODE_INX: u8 = 0xE8;

/// The instructions that the processor implements.
#[derive(Clone, Copy, Debug, PartialEq, Eq, Structural)]
pub enum Instruction {
    /// Halt.
    Brk,
    /// Load the accumulator from the byte that follows the opcode.
    LdaImmediate,
    /// Copy the accumulator to X.
    Tax,
    /// Increment X.
    Inx,
}

/// The instruction that `opcode` selects, if it selects one.
pub open spec fn decoded(opcode: u8) -> Option<Instruction> {
    if opcode == OPCODE_BRK {
        Some(Instruction::Brk)
    } else if opcode == OPCODE_LDA_IMMEDIATE {
        Some(Instruction::LdaImmediate)
    } else if opcode == OPCODE_TAX {
        Some(Instruction::Tax)
    } else if opcode == OPCODE_INX {
        Some(Instruction::Inx)
    } else {
        None
    }
}

/// Decodes one opcode.
pub fn decode(opcode: u8) -> (instruction: Option<Instruction>)
    ensures
        instruction == decoded(opcode),
{
    match opcode {
        OPCODE_BRK => Some(Instruction::Brk),
        OPCODE_LDA_IMMEDIATE => Some(Instruction::LdaImmediate),
        OPCODE_TAX => Some(Instruction::Tax),
        OPCODE_INX => Some(Instruction::Inx),
        _ => None,
    }
}

/// The byte under the program counter together with the registers after the
/// counter has stepped over it, or `None` where no byte can be fetched.
pub open spec fn fetched(code: Seq<u8>, registers: Registers) -> Option<(u8, Registers)> {
    if registers.program_counter < code.len() && registers.program_counter < u16::MAX {
        Some(
            (
                code[registers.program_counter as int],
                registers.at((registers.program_counter + 1) as u16),
            ),
        )
    } else {
        None
    }
}

/// Fetches the byte under the program counter and advances the counter.
/// Where no byte can be fetched the registers stay as they are.
pub fn fetch(code: &[u8], registers: &mut Registers) -> (byte: Option<u8>)
    ensures
        match fetched(code@, *old(registers)) {
            Some((value, advanced)) => byte == Some(value) && *final(registers) == advanced,
            None => byte.is_none() && *final(registers) == *old(registers),
        },
{
    let index: usize = registers.program_counter as usize;
    if index < code.len() && registers.program_counter < u16::MAX {
        let value: u8 = code[index];
        registers.program_counter = registers.program_counter + 1;
        Some(value)
    } else {
        None
    }
}

/// Where the processor stands after one cycle.
#[derive(Clone, Copy, Debug, PartialEq, Eq, Structural)]
pub enum Step {
    /// An instruction was executed and the next cycle starts from here.
    Running(Registers),
    /// BRK was executed.
    Halted(Registers),
    /// The cycle could not be completed.
    Failed(Registers, ExecutionError),
}

/// One cycle: fetch an opcode, decode it, execute the instruction.
pub open spec fn stepped(code: Seq<u8>, registers: Registers) -> Step {
    match fetched(code, registers) {
        None => Step::Failed(registers, ExecutionError::FetchOutOfBounds),
        Some((opcode, at_operand)) => match decoded(opcode) {
            None => Step::Failed(at_operand, ExecutionError::UnimplementedOpcode(opcode)),
            Some(Instruction::Brk) => Step::Halted(at_operand),
            Some(Instruction::Tax) => Step::Running(at_operand.after_tax()),
            Some(Instruction::Inx) => Step::Running(at_operand.after_inx()),
            Some(Instruction::LdaImmediate) => match fetched(code, at_operand) {
                None => Step::Failed(at_operand, ExecutionError::FetchOutOfBounds),
                Some((operand, at_next)) => Step::Running(at_next.after_lda(operand)),
            },
        },
    }
}

/// Runs one cycle on `code`.
pub fn step(code: &[u8], registers: Registers) -> (next: Step)
    ensures
        next == stepped(code@, registers),
{
    let mut registers = registers;
    let opcode: u8 = match fetch(code, &mut registers) {
        Some(opcode) => opcode,
        None => {
            return Step::Failed(registers, ExecutionError::FetchOutOfBounds);
        },
    };
    match decode(opcode) {
        None => Step::Failed(registers, ExecutionError::UnimplementedOpcode(opcode)),
        Some(Instruction::Brk) => Step::Halted(registers),
        Some(Instruction::Tax) => {
            registers.tax();
            Step::Running(registers)
        },
        Some(Instruction::Inx) => {
            registers.inx();
            Step::Running(registers)
        },
        Some(Instruction::LdaImmediate) => match fetch(code, &mut registers) {
            None => Step::Failed(registers, ExecutionError::FetchOutOfBounds),
            Some(operand) => {
                registers.lda(operand);
                Step::Running(registers)
            },
        },
    }
}

/// How a run ended.
#[derive(Clone, Copy, Debug, PartialEq, Eq)]
pub struct Outcome {
    /// The registers as the last cycle left them.
    pub registers: Registers,
    /// `Ok` after a halt, else what stopped the run.
    pub result: Result<(), ExecutionError>,
}

/// Every cycle that goes on moves the program counter up.
pub proof fn lemma_running_advances(code: Seq<u8>, registers: Registers)
    ensures
        stepped(code, registers) matches Step::Running(next) ==> registers.program_counter
            < next.program_counter,
{
}

/// The run that starts from `registers`: cycle after cycle until the
/// processor halts or a cycle fails.
pub open spec fn run_from(code: Seq<u8>, registers: Registers) -> Outcome
    decreases u16::MAX - registers.program_counter,
{
    match stepped(code, registers) {
        Step::Running(next) => run_from(code, next),
        Step::Halted(last) => Outcome { registers: last, result: Ok(()) },
        Step::Failed(last, error) => Outcome { registers: last, result: Err(error) },
    }
}

/// Where a run stops. The program counter never moves down. After a halt
/// it is one past a BRK, and after `UnimplementedOpcode` one past the opcode
/// that the error reports; after `FetchOutOfBounds` it stands where nothing
/// can be fetched.
pub proof fn lemma_run_stops_behind_last_fetch(code: Seq<u8>, registers: Registers)
    ensures
        ({
            let outcome = run_from(code, registers);
            let last = outcome.registers.program_counter - 1;
            &&& registers.program_counter <= outcome.registers.program_counter
            &&& outcome.result is Ok ==> registers.program_counter <= last < code.len()
                && code[last] == OPCODE_BRK
            &&& outcome.result matches Err(ExecutionError::UnimplementedOpcode(opcode))
                ==> registers.program_counter <= last < code.len() && code[last] == opcode
                && decoded(opcode) is None
            &&& outcome.result == Err::<(), ExecutionError>(ExecutionError::FetchOutOfBounds)
                ==> fetched(code, outcome.registers) is None
        }),
    decreases u16::MAX - registers.program_counter,
{
    match stepped(code, registers) {
        Step::Running(next) => {
            lemma_run_stops_behind_last_fetch(code, next);
        },
        _ => {},
    }
}

/// Executes `code` from `start` until the processor halts or a cycle fails.
pub fn execute(code: &[u8], start: Registers) -> (outcome: Outcome)
    ensures
        outcome == run_from(code@, start),
{
    let mut registers = start;
    loop
        invariant
            run_from(code@, registers) == run_from(code@, start),
        decreases u16::MAX - registers.program_counter,
    {
        proof {
            lemma_running_advances(code@, registers);
        }
        match step(code, registers) {
            Step::Running(next) => {
                registers = next;
            },
            Step::Halted(last) => {
                return Outcome { registers: last, result: Ok(()) };
            },
            Step::Failed(last, error) => {
                return Outcome { registers: last, result: Err(error) };
            },
        }
    }
}

} // verus!
