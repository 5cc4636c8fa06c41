use vstd::prelude::*;

verus! {

/// The register that supplies the second operand of an arithmetic instruction.
#[derive(Copy, Clone, Debug, PartialEq, Eq, Structural)]
pub enum ArithmeticTarget {
    A,
    B,
    C,
    D,
    E,
    H,
    L,
}

/// A decoded instruction: an opcode and its operand selector.
#[derive(Copy, Clone, Debug, PartialEq, Eq, Structural)]
pub enum Instruction {
    /// Add the selected register to the accumulator.
    ADD(ArithmeticTarget),
}

} // verus!
