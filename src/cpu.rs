use vstd::prelude::*;
use crate::flags_register::FlagsRegister;
use crate::instruction::{ArithmeticTarget, Instruction};
use crate::registers::Registers;

verus! {

/// The 8-bit sum of `a` and `value`, wrapping past 255.
pub open spec fn add_result(a: u8, value: u8) -> u8 {
    ((a + value) % 256) as u8
}

/// The flags that adding `value` to `a` leaves.
pub open spec fn add_flags(a: u8, value: u8) -> FlagsRegister {
    FlagsRegister {
        zero: add_result(a, value) == 0,
        subtract: false,
        half_carry: (a % 16) + (value % 16) > 15,
        carry: a + value > 255,
    }
}

/// The register file after `instruction` runs on `regs`.
pub open spec fn execute_spec(regs: Registers, instruction: Instruction) -> Registers {
    match instruction {
        Instruction::ADD(target) => match target {
            ArithmeticTarget::C => Registers {
                a: add_result(regs.a, regs.c),
                f: add_flags(regs.a, regs.c),
                ..regs
            },
            _ => regs,
        },
    }
}

/// The execution engine: it owns the register file.
pub struct CPU {
    pub registers: Registers,
}

impl CPU {
    /// Runs one decoded instruction. Combinations of opcode and operand
    /// selector that are not wired yet leave the registers unchanged.
    pub fn execute(&mut self, instruction: Instruction)
        ensures
            final(self).registers == execute_spec(old(self).registers, instruction),
    {
        match instruction {
            Instruction::ADD(target) => {
                match target {
                    ArithmeticTarget::C => {
                        let value = self.registers.c;
                        let new_value = self.add(value);
                        self.registers.a = new_value;
                    },
                    _ => {},
                }
            },
        }
    }

    /// Adds `value` to `A` and sets the flags accordingly. The sum is
    /// returned, not stored: `A` keeps its value.
    pub fn add(&mut self, value: u8) -> (r: u8)
        ensures
            r == add_result(old(self).registers.a, value),
            final(self).registers == (Registers {
                f: add_flags(old(self).registers.a, value),
                ..old(self).registers
            }),
    {
        let a = self.registers.a;
        let new_value = a.wrapping_add(value);
        let did_overflow = (a as u16) + (value as u16) > 0xFF;
        self.registers.f.zero = new_value == 0;
        self.registers.f.subtract = false;
        self.registers.f.carry = did_overflow;
        // A carry out of bit 3 into bit 4: the lower nibbles alone sum past 0xF.
        assert(a & 0xF == a % 16 && value & 0xF == value % 16) by (bit_vector);
        self.registers.f.half_carry = (a & 0xF) + (value & 0xF) > 0xF;
        new_value
    }
}

} // verus!
