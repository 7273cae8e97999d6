//! A small register-based virtual machine, its bytecode format and a
//! textual assembler for it.

pub mod assembler;
pub mod instruction;
pub mod repl;
pub mod text;
pub mod theorems;
pub mod vm;
