//! A CHIP-8 virtual machine core: the architectural state of the machine and
//! the fetch, decode and execute engine that advances it one instruction per
//! tick. Every function is verified against a mathematical model of the
//! machine.

pub mod alu;
pub mod error;
pub mod font;
pub mod instruction;
pub mod interpreter;
pub mod keypad;
pub mod laws;
pub mod machine;
pub mod screen;
pub mod timer;
