//! The program's accounts and the rules of each instruction.

pub mod program;
