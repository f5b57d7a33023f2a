//! A minimal just-in-time compiler: it collects the functions of a parsed
//! module, validates names and the entry-point marker, generates x86-64
//! move/return sequences for trailing integer literals, and manages the
//! page-aligned memory image the generated bytes are loaded into.
//!
//! An external parser owns lexing and grammar; this crate consumes the
//! module shape modeled in [`ast`] and produces a flat byte buffer
//! ([`compiler`]) that a memory image ([`jit_memory`]) holds for execution.

pub mod ast;
pub mod codegen;
pub mod compiler;
pub mod jit_memory;

pub use compiler::compile;
pub use jit_memory::JitMemory;
