//! The ways in which loading or executing a program can fail.

use vstd::prelude::*;
use vstd::std_specs::convert::FromSpecImpl;

verus! {

/// A byte sequence that the loader refuses.
#[derive(Clone, Copy, Debug, PartialEq, Eq, Structural)]
pub enum LoadError {
    /// The sequence holds no byte at all.
    EmptyProgram,
    /// The last byte of the sequence is not the halt opcode.
    MissingTerminator,
}

/// An execution that stopped without reaching a halt instruction.
#[derive(Clone, Copy, Debug, PartialEq, Eq, Structural)]
pub enum ExecutionError {
    /// The decode step met this byte, which selects no instruction.
    UnimplementedOpcode(u8),
    /// An opcode or an operand was due at a place where none can be fetched:
    /// past the end of the code, or at its byte `0xFFFF`, which the 16-bit
    /// program counter cannot step over.
    FetchOutOfBounds,
}

/// Failure of a load followed by a run.
#[derive(Clone, Copy, Debug, PartialEq, Eq, Structural)]
pub enum EmulationError {
    /// The program was refused before anything was executed.
    Load(LoadError),
    /// The program was accepted and its execution failed.
    Execution(ExecutionError),
}

impl From<LoadError> for EmulationError {
    fn from(error: LoadError) -> (wrapped: EmulationError) {
        EmulationError::Load(error)
    }
}

impl FromSpecImpl<LoadError> for EmulationError {
    open spec fn obeys_from_spec() -> bool {
        true
    }

    open spec fn from_spec(error: LoadError) -> EmulationError {
        EmulationError::Load(error)
    }
}

impl From<ExecutionError> for EmulationError {
    fn from(error: ExecutionError) -> (wrapped: EmulationError) {
        EmulationError::Execution(error)
    }
}

impl FromSpecImpl<ExecutionError> for EmulationError {
    open spec fn obeys_from_spec() -> bool {
        true
    }

    open spec fn from_spec(error: ExecutionError) -> EmulationError {
        EmulationError::Execution(error)
    }
}

/// The result of a run as `Cpu::load_and_run` and `Cpu::interpret` report
/// it: a failure is wrapped in `EmulationError::Execution`.
pub open spec fn emulation_result(result: Result<(), ExecutionError>) -> Result<
    (),
    EmulationError,
> {
    match result {
        Ok(()) => Ok(()),
        Err(e) => Err(EmulationError::Execution(e)),
    }
}

} // verus!
