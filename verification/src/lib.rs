//! The execution core of a small 8-bit processor: a flat 64 KiB address
//! space, two general registers with a status register, a program loader and
//! a fetch-decode-execute loop over a four-instruction set.
//!
//! Every function carries a contract over a mathematical model of the
//! machine: memory is a `Seq<u8>`, a run is the recursive function
//! [`execution::run_from`].

pub mod cpu;
pub mod error;
pub mod execution;
pub mod flags;
pub mod loader;
pub mod memory;
pub mod registers;

pub use cpu::Cpu;
pub use error::{EmulationError, ExecutionError, LoadError};
pub use execution::{decode, execute, fetch, step, Instruction, Outcome, Step};
pub use flags::{update_zero_and_negative_flags, NEGATIVE_FLAG, ZERO_FLAG};
pub use loader::{load_program, validate_program, MAX_PROGRAM_LENGTH, PROGRAM_ORIGIN, RESET_VECTOR};
pub use memory::{AddressSpace, MEMORY_SIZE};
pub use registers::Registers;
