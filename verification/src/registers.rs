//! The processor's visible state and what each instruction does to it.

use vstd::prelude::*;
use crate::flags::{update_zero_and_negative_flags, updated_status};

verus! {

/// The register file: two general registers, the status register and the
/// program counter.
#[derive(Clone, Copy, Debug, PartialEq, Eq, Structural)]
pub struct Registers {
    /// The accumulator.
    pub register_a: u8,
    /// The index register X.
    pub register_x: u8,
    /// The flags: bit 1 is the zero flag, bit 7 the negative flag.
    pub status: u8,
    /// Where the next byte is fetched.
    pub program_counter: u16,
}

impl Registers {
    /// The registers as they are when a processor is created.
    pub open spec fn zeroed() -> Registers {
        Registers { register_a: 0, register_x: 0, status: 0, program_counter: 0 }
    }

    /// The registers with the program counter moved to `address`.
    pub open spec fn at(self, address: u16) -> Registers {
        Registers { program_counter: address, ..self }
    }

    /// LDA: `value` goes to the accumulator and sets the flags.
    pub open spec fn after_lda(self, value: u8) -> Registers {
        Registers { register_a: value, status: updated_status(self.status, value), ..self }
    }

    /// TAX: the accumulator is copied to X and sets the flags.
    pub open spec fn after_tax(self) -> Registers {
        Registers {
            register_x: self.register_a,
            status: updated_status(self.status, self.register_a),
            ..self
        }
    }

    /// The value of X after INX: one more, and 0 after `0xFF`.
    pub open spec fn incremented_x(self) -> u8 {
        ((self.register_x + 1) % 0x100) as u8
    }

    /// INX: X goes up by one, wrapping at 8 bits, and sets the flags.
    pub open spec fn after_inx(self) -> Registers {
        Registers {
            register_x: self.incremented_x(),
            status: updated_status(self.status, self.incremented_x()),
            ..self
        }
    }

    /// Executes LDA with the operand `value`.
    pub fn lda(&mut self, value: u8)
        ensures
            *final(self) == old(self).after_lda(value),
    {
        self.register_a = value;
        self.status = update_zero_and_negative_flags(self.status, self.register_a);
    }

    /// Executes TAX.
    pub fn tax(&mut self)
        ensures
            *final(self) == old(self).after_tax(),
    {
        self.register_x = self.register_a;
        self.status = update_zero_and_negative_flags(self.status, self.register_x);
    }

    /// Executes INX.
    pub fn inx(&mut self)
        ensures
            *final(self) == old(self).after_inx(),
    {
        self.register_x = self.register_x.wrapping_add(1);
        self.status = update_zero_and_negative_flags(self.status, self.register_x);
    }
}

} // verus!
