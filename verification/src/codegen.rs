//! Architecture-specific instruction tables.

pub mod x64;
