//! Execution core of a small stack-based bytecode interpreter: a chunk of
//! instructions with a constant pool, a disassembler that renders a chunk as
//! text, and a virtual machine that executes a chunk against a value stack.

pub mod chunk;
pub mod text;
pub mod value;
pub mod vm;
