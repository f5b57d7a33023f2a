//! The shape of a parsed module, as the compiler consumes it.
//!
//! An external parser owns lexing and grammar; the compiler only reads the
//! pieces modeled here: which items are functions, their names, attributes,
//! parameters, return-type annotations, and whether each body statement is a
//! trailing integer literal.

use vstd::prelude::*;

verus! {

/// A possibly-qualified identifier path, as it appears in an attribute or a
/// return-type annotation: `start`, `u64`, `::std::fmt::Display`, ...
#[derive(Debug, Clone)]
pub struct IdentPath {
    /// Whether the path starts with a leading `::`.
    pub leading_colon: bool,
    /// The path's segment identifiers, in order.
    pub segments: Vec<String>,
}

/// A declared return-type annotation. Only an unqualified path whose first
/// segment is one of `u8`/`u16`/`u32`/`u64` constrains code generation; every
/// other type is carried as `Other`.
#[derive(Debug, Clone)]
pub enum TypeAnn {
    Path(IdentPath),
    Other,
}

/// The width/signedness suffix of an integer literal, if any.
#[derive(Debug, Copy, Clone, PartialEq, Eq, Structural)]
pub enum IntSuffix {
    Unsuffixed,
    I8,
    I16,
    I32,
    I64,
    U8,
    U16,
    U32,
    U64,
    /// A suffix the code generator does not handle (`usize`, `isize`, ...).
    Unsupported,
}

/// A bare integer-literal expression: its unsigned value and its suffix.
#[derive(Debug, Copy, Clone, PartialEq, Eq, Structural)]
pub struct IntLiteral {
    pub value: u64,
    pub suffix: IntSuffix,
}

/// A body statement, reduced to what code generation distinguishes: a bare
/// integer-literal expression, or anything else.
#[derive(Debug, Copy, Clone, PartialEq, Eq, Structural)]
pub enum Stmt {
    IntExpr(IntLiteral),
    Other,
}

/// A function declaration of the module: name, attributes, parameter names,
/// optional return-type annotation, and body statements.
#[derive(Debug, Clone)]
pub struct FnDef {
    pub name: String,
    pub attrs: Vec<IdentPath>,
    pub params: Vec<String>,
    pub return_type: Option<TypeAnn>,
    pub statements: Vec<Stmt>,
}

/// A top-level item: a function declaration, or any other item, which the
/// compiler ignores.
#[derive(Debug, Clone)]
pub enum ModItem {
    Function(FnDef),
    Other,
}

/// A parsed module: the ordered sequence of its top-level items.
#[derive(Debug, Clone)]
pub struct Module {
    pub items: Vec<ModItem>,
}

} // verus!
