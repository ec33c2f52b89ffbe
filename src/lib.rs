//! An assembler, preprocessor and bytecode virtual machine for a small
//! register-based instruction set.

pub mod ast;
pub mod bytecode;
pub mod compiler;
pub mod float;
pub mod flags;
pub mod immediate;
pub mod lexer;
pub mod memory;
pub mod opcode;
pub mod parser;
pub mod platform;
pub mod preprocessor;
pub mod register;
pub mod span;
pub mod token;
pub mod vm;
