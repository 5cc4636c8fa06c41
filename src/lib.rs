//! Execution core of a Sharp LR35902 (Game Boy) CPU: the status flags, the
//! register file with its paired 16-bit views, decoded instructions and the
//! engine that executes them.

pub mod cpu;
pub mod flags_register;
pub mod instruction;
pub mod registers;
