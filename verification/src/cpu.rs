//! The processor: registers and memory, and the operations that load, reset
//! and run it.

use vstd::prelude::*;
use crate::error::{emulation_result, EmulationError, ExecutionError, LoadError};
use crate::execution::{execute, lemma_run_stops_behind_last_fetch, run_from, Outcome};
use crate::loader::{
    lemma_loaded_program_stops,
    load_program,
    loaded_image,
    validated,
    MAX_PROGRAM_LENGTH,
    PROGRAM_ORIGIN,
    RESET_VECTOR,
};
use crate::memory::{word_at, AddressSpace, MEMORY_SIZE};
use crate::registers::Registers;

verus! {

/// An 8-bit processor with its memory.
#[derive(Debug, PartialEq, Eq)]
pub struct Cpu {
    /// The accumulator.
    pub register_a: u8,
    /// The index register X.
    pub register_x: u8,
    /// The flags: bit 1 is the zero flag, bit 7 the negative flag.
    pub status: u8,
    /// Address of the next byte to fetch.
    pub program_counter: u16,
    /// The address space that this processor owns.
    pub memory: AddressSpace,
}

impl Clone for Cpu {
    fn clone(&self) -> (copy: Self)
        ensures
            copy == *self,
    {
        Cpu {
            register_a: self.register_a,
            register_x: self.register_x,
            status: self.status,
            program_counter: self.program_counter,
            memory: self.memory.clone(),
        }
    }
}

impl Cpu {
    /// The register file of this processor.
    pub open spec fn spec_registers(&self) -> Registers {
        Registers {
            register_a: self.register_a,
            register_x: self.register_x,
            status: self.status,
            program_counter: self.program_counter,
        }
    }

    /// A processor with every register and every byte of memory at zero.
    pub fn new() -> (cpu: Cpu)
        ensures
            cpu.registers() == Registers::zeroed(),
            cpu.memory@ == Seq::new(MEMORY_SIZE as nat, |i: int| 0u8),
    {
        Cpu {
            register_a: 0,
            register_x: 0,
            status: 0,
            program_counter: 0,
            memory: AddressSpace::new(),
        }
    }

    /// The register file of this processor.
    #[verifier::when_used_as_spec(spec_registers)]
    pub fn registers(&self) -> (registers: Registers)
        ensures
            registers == self.registers(),
    {
        Registers {
            register_a: self.register_a,
            register_x: self.register_x,
            status: self.status,
            program_counter: self.program_counter,
        }
    }

    /// Replaces the register file and leaves the memory alone.
    pub fn set_registers(&mut self, registers: Registers)
        ensures
            final(self).registers() == registers,
            final(self).memory == old(self).memory,
    {
        self.register_a = registers.register_a;
        self.register_x = registers.register_x;
        self.status = registers.status;
        self.program_counter = registers.program_counter;
    }

    /// Validates `program` and installs it at the origin, with the reset
    /// vector pointing at it. The registers are not touched, and a program
    /// that is refused changes nothing.
    pub fn load(&mut self, program: &[u8]) -> (result: Result<(), LoadError>)
        requires
            program@.len() <= MAX_PROGRAM_LENGTH,
        ensures
            result == validated(program@),
            final(self).registers() == old(self).registers(),
            result is Ok ==> final(self).memory@ == loaded_image(old(self).memory@, program@),
            result is Ok ==> word_at(final(self).memory@, RESET_VECTOR as int) == PROGRAM_ORIGIN,
            result is Err ==> *final(self) == *old(self),
    {
        load_program(&mut self.memory, program)
    }

    /// Zeroes A, X and the status register and reloads the program counter
    /// from the reset vector.
    pub fn reset(&mut self)
        ensures
            final(self).registers() == Registers::zeroed().at(
                word_at(old(self).memory@, RESET_VECTOR as int),
            ),
            final(self).memory == old(self).memory,
    {
        self.register_a = 0;
        self.register_x = 0;
        self.status = 0;
        self.program_counter = self.memory.read_u16(RESET_VECTOR);
    }

    /// Runs the code in memory from the program counter until BRK halts the
    /// processor or a cycle fails. After `UnimplementedOpcode` the program
    /// counter is one past the address at which the opcode was fetched.
    pub fn run(&mut self) -> (result: Result<(), ExecutionError>)
        ensures
            result == run_from(old(self).memory@, old(self).registers()).result,
            final(self).registers() == run_from(old(self).memory@, old(self).registers()).registers,
            final(self).memory == old(self).memory,
            result matches Err(ExecutionError::UnimplementedOpcode(opcode)) ==> 0
                < final(self).program_counter && old(self).memory@[final(self).program_counter
                - 1] == opcode,
    {
        proof {
            lemma_run_stops_behind_last_fetch(self.memory@, self.registers());
        }
        let outcome: Outcome = execute(self.memory.as_slice(), self.registers());
        self.set_registers(outcome.registers);
        outcome.result
    }

    /// Loads `program`, resets the processor and runs it. A program that is
    /// refused changes nothing and nothing is executed. A program that was
    /// loaded never fails with `FetchOutOfBounds`: the reset vector stops
    /// every run before the top of the address space. After
    /// `UnimplementedOpcode` the program counter is one past the address at
    /// which the opcode was fetched.
    pub fn load_and_run(&mut self, program: &[u8]) -> (result: Result<(), EmulationError>)
        requires
            program@.len() <= MAX_PROGRAM_LENGTH,
        ensures
            match validated(program@) {
                Err(error) => result == Err::<(), EmulationError>(EmulationError::Load(error))
                    && *final(self) == *old(self),
                Ok(()) => {
                    let image = loaded_image(old(self).memory@, program@);
                    let outcome = run_from(image, Registers::zeroed().at(PROGRAM_ORIGIN));
                    &&& final(self).memory@ == image
                    &&& final(self).registers() == outcome.registers
                    &&& result == emulation_result(outcome.result)
                    &&& result != Err::<(), EmulationError>(
                        EmulationError::Execution(ExecutionError::FetchOutOfBounds),
                    )
                    &&& result matches Err(
                        EmulationError::Execution(ExecutionError::UnimplementedOpcode(opcode)),
                    ) ==> 0 < final(self).program_counter && image[final(self).program_counter
                        - 1] == opcode
                },
            },
    {
        match self.load(program) {
            Err(error) => {
                return Err(EmulationError::Load(error));
            },
            Ok(()) => {},
        }
        self.reset();
        proof {
            old(self).memory.lemma_size();
            lemma_loaded_program_stops(old(self).memory@, program@, self.registers());
        }
        match self.run() {
            Ok(()) => Ok(()),
            Err(error) => Err(EmulationError::Execution(error)),
        }
    }

    /// Loads `program` and runs it from the origin with A, X and the status
    /// register as they are: only the program counter is reloaded from the
    /// reset vector. A program that is refused changes nothing and nothing
    /// is executed. A program that was loaded never fails with
    /// `FetchOutOfBounds`, and after `UnimplementedOpcode` the program
    /// counter is one past the address at which the opcode was fetched.
    pub fn interpret(&mut self, program: Vec<u8>) -> (result: Result<(), EmulationError>)
        requires
            program@.len() <= MAX_PROGRAM_LENGTH,
        ensures
            match validated(program@) {
                Err(error) => result == Err::<(), EmulationError>(EmulationError::Load(error))
                    && *final(self) == *old(self),
                Ok(()) => {
                    let image = loaded_image(old(self).memory@, program@);
                    let outcome = run_from(image, old(self).registers().at(PROGRAM_ORIGIN));
                    &&& final(self).memory@ == image
                    &&& final(self).registers() == outcome.registers
                    &&& result == emulation_result(outcome.result)
                    &&& result != Err::<(), EmulationError>(
                        EmulationError::Execution(ExecutionError::FetchOutOfBounds),
                    )
                    &&& result matches Err(
                        EmulationError::Execution(ExecutionError::UnimplementedOpcode(opcode)),
                    ) ==> 0 < final(self).program_counter && image[final(self).program_counter
                        - 1] == opcode
                },
            },
    {
        match self.load(program.as_slice()) {
            Err(error) => {
                return Err(EmulationError::Load(error));
            },
            Ok(()) => {},
        }
        self.program_counter = self.memory.read_u16(RESET_VECTOR);
        proof {
            old(self).memory.lemma_size();
            lemma_loaded_program_stops(old(self).memory@, program@, self.registers());
        }
        match self.run() {
            Ok(()) => Ok(()),
            Err(error) => Err(EmulationError::Execution(error)),
        }
    }
}

} // verus!
