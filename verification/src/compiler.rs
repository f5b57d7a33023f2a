//! The compiler core: function collection, return-type inference and
//! validation, instruction selection, and assembly of the entry function
//! into one flat byte buffer.

use crate::ast::{FnDef, IdentPath, IntLiteral, IntSuffix, Module, ModItem, Stmt, TypeAnn};
use vstd::prelude::*;
use vstd::string::StringExecFns;

verus! {

/// The label assigned to each accepted function of a module, in scan order.
/// Labels are scoped to one compilation: the first accepted function gets
/// label `0`, the next `1`, and so on, so a label doubles as the index into
/// the compilation's function table.
#[derive(Debug, Copy, Clone, PartialEq, Eq, Structural)]
pub struct GlobalLabel(pub usize);

/// The assembled instruction bytes of a compilation.
#[derive(Debug)]
pub struct AssemblyBuf {
    pub instructions: Vec<u8>,
}

/// Failure to place an instruction buffer into an allocated memory image.
#[derive(Debug, Copy, Clone, PartialEq, Eq, Structural)]
pub enum AllocationError {
    /// Instructions are too big to fit in the allocated JIT memory
    InstructionBufTooLarge,
}

/// A byte offset into the assembled buffer.
#[derive(Debug, Copy, Clone, PartialEq, Eq, Structural)]
pub struct AssemblyOffset(pub usize);

/// An integer literal's width and signedness, or the unknown-size case used
/// during inference.
#[derive(Debug, Copy, Clone, PartialEq, Eq, Structural)]
pub enum StaticIntLiteral {
    I8,
    I16,
    I32,
    I64,
    U8,
    U16,
    U32,
    U64,
    UnknownSize(u64),
}

/// A float literal's width.
#[derive(Debug, Copy, Clone, PartialEq, Eq, Structural)]
pub enum StaticFloatLiteral {
    F64,
    F32,
}

/// A fixed-lane vector literal's lane count.
#[derive(Debug, Copy, Clone, PartialEq, Eq, Structural)]
pub enum StaticVecLiteral {
    Vec2,
    Vec3,
    Vec4,
}

/// A function's return kind. Only the unsigned-integer kinds have a defined
/// code-generation mapping; the others are representable but generate no
/// bytes.
#[derive(Debug, Copy, Clone, PartialEq, Eq, Structural)]
pub enum Ret {
    Str,
    ByteStr,
    Byte,
    Char,
    Int(StaticIntLiteral),
    Float(StaticFloatLiteral),
    Bool,
    Vec(StaticVecLiteral),
    Void,
}

impl Default for Ret {
    /// A function without a return-type annotation returns `Void`.
    fn default() -> (r: Self)
        ensures
            r == Ret::Void,
    {
        Ret::Void
    }
}

/// An instruction's opcode prefix: one byte, or two.
#[derive(Debug, Copy, Clone, PartialEq, Eq)]
pub enum Instruction {
    OneComponent(u8),
    TwoComponent((u8, u8)),
}

/// The opcode that moves an immediate of kind `r` into the return register,
/// if that kind has one.
pub open spec fn spec_optimal_register_return(r: Ret) -> Option<Instruction> {
    match r {
        Ret::Int(i) => match i {
            StaticIntLiteral::I8 | StaticIntLiteral::U8 => Some(
                Instruction::OneComponent(0xB0),
            ),
            StaticIntLiteral::I16 | StaticIntLiteral::U16 => Some(
                Instruction::TwoComponent((0x66, 0xB8)),
            ),
            StaticIntLiteral::I32 | StaticIntLiteral::U32 => Some(
                Instruction::OneComponent(0xB8),
            ),
            StaticIntLiteral::I64 | StaticIntLiteral::U64 => Some(
                Instruction::TwoComponent((0x48, 0xB8)),
            ),
            _ => None,
        },
        _ => None,
    }
}

impl Ret {
    /// Selects the move-into-return-register opcode for this return kind:
    /// 8-bit kinds use the one-byte `mov al` opcode, 16-bit kinds the
    /// operand-size-override pair `66 B8`, 32-bit kinds the one-byte
    /// `mov eax` opcode, and 64-bit kinds the REX pair `48 B8`. Every other
    /// kind selects nothing.
    pub fn get_optimal_register_return(&self) -> (r: Option<Instruction>)
        ensures
            r == spec_optimal_register_return(*self),
    {
        match *self {
            Ret::Int(i) => match i {
                // mov al [0x04]
                StaticIntLiteral::I8 | StaticIntLiteral::U8 => Some(
                    Instruction::OneComponent(0xB0),
                ),
                // mov ax [0x04, 0x00]
                StaticIntLiteral::I16 | StaticIntLiteral::U16 => Some(
                    Instruction::TwoComponent((0x66, 0xB8)),
                ),
                // mov eax [0x04, 0x00, 0x00, 0x00]
                StaticIntLiteral::I32 | StaticIntLiteral::U32 => Some(
                    Instruction::OneComponent(0xB8),
                ),
                // movabs rax [0x04, 0x00, 0x00, 0x00, 0x00, 0x00, 0x00, 0x00]
                StaticIntLiteral::I64 | StaticIntLiteral::U64 => Some(
                    Instruction::TwoComponent((0x48, 0xB8)),
                ),
                _ => None,
            },
            _ => None,
        }
    }
}

/// The smallest of `U8`/`U16`/`U32`/`U64` whose range contains `actual`,
/// under the strict upper bounds `0xFF`, `0xFFFF`, `0xFFFFFFFF`: a boundary
/// value itself falls into the next-larger bucket.
pub open spec fn spec_minimal_size(actual: u64) -> StaticIntLiteral {
    if actual < 0xff {
        StaticIntLiteral::U8
    } else if actual < 0xffff {
        StaticIntLiteral::U16
    } else if actual < 0xffffffff {
        StaticIntLiteral::U32
    } else {
        StaticIntLiteral::U64
    }
}

/// Classifies `actual` by its minimal representable width.
pub fn determine_minimal_size(actual: u64) -> (r: StaticIntLiteral)
    ensures
        r == spec_minimal_size(actual),
{
    if actual < 0xff {
        StaticIntLiteral::U8
    } else if actual < 0xffff {
        StaticIntLiteral::U16
    } else if actual < 0xffffffff {
        StaticIntLiteral::U32
    } else {
        StaticIntLiteral::U64
    }
}

/// Failure of the size-fit rule: the literal's value exceeds the declared
/// type's range.
#[derive(Debug, Copy, Clone, PartialEq, Eq, Structural)]
pub enum TryMatchError {
    /// The numeric value doesn't fit in the declared return type.
    ReturnValueDoesntFit(u64),
}

/// The size-fit rule: an unsuffixed literal of value `actual` fits a declared
/// unsigned kind `expected` iff `expected` is `U64`, or `expected`'s width is
/// at least the literal's minimal width. On a fit the inferred kind is the
/// declared kind itself.
pub open spec fn spec_try_match(actual: u64, expected: StaticIntLiteral) -> Result<
    Ret,
    TryMatchError,
> {
    let minimal_size = spec_minimal_size(actual);
    match expected {
        StaticIntLiteral::U64 => Ok(Ret::Int(expected)),
        StaticIntLiteral::U32 => if minimal_size == StaticIntLiteral::U32 || minimal_size
            == StaticIntLiteral::U16 || minimal_size == StaticIntLiteral::U8 {
            Ok(Ret::Int(expected))
        } else {
            Err(TryMatchError::ReturnValueDoesntFit(actual))
        },
        StaticIntLiteral::U16 => if minimal_size == StaticIntLiteral::U16 || minimal_size
            == StaticIntLiteral::U8 {
            Ok(Ret::Int(expected))
        } else {
            Err(TryMatchError::ReturnValueDoesntFit(actual))
        },
        StaticIntLiteral::U8 => if minimal_size == StaticIntLiteral::U8 {
            Ok(Ret::Int(expected))
        } else {
            Err(TryMatchError::ReturnValueDoesntFit(actual))
        },
        _ => Err(TryMatchError::ReturnValueDoesntFit(actual)),
    }
}

/// Applies the size-fit rule to an unsuffixed literal's value against the
/// declared unsigned kind.
pub fn try_match_u64_value(actual: u64, expected: &StaticIntLiteral) -> (r: Result<
    Ret,
    TryMatchError,
>)
    ensures
        r == spec_try_match(actual, *expected),
{
    let minimal_size = determine_minimal_size(actual);
    match *expected {
        StaticIntLiteral::U64 => Ok(Ret::Int(*expected)),
        StaticIntLiteral::U32 => match minimal_size {
            StaticIntLiteral::U32 | StaticIntLiteral::U16 | StaticIntLiteral::U8 => Ok(
                Ret::Int(*expected),
            ),
            _ => Err(TryMatchError::ReturnValueDoesntFit(actual)),
        },
        StaticIntLiteral::U16 => match minimal_size {
            StaticIntLiteral::U16 | StaticIntLiteral::U8 => Ok(Ret::Int(*expected)),
            _ => Err(TryMatchError::ReturnValueDoesntFit(actual)),
        },
        StaticIntLiteral::U8 => match minimal_size {
            StaticIntLiteral::U8 => Ok(Ret::Int(*expected)),
            _ => Err(TryMatchError::ReturnValueDoesntFit(actual)),
        },
        _ => Err(TryMatchError::ReturnValueDoesntFit(actual)),
    }
}

/// A function's name, as declared in the module.
#[derive(Debug, PartialEq, Eq, Hash)]
pub struct FnName(pub String);

impl Clone for FnName {
    fn clone(&self) -> (r: Self)
        ensures
            r == *self,
    {
        FnName(self.0.clone())
    }
}

impl FnName {
    /// The name's display form, `fn <name>`, as it appears in error values.
    pub fn display_string(&self) -> (r: String)
        ensures
            r@ == "fn "@ + self.0@,
    {
        let mut s = String::from_str("fn ");
        s.append(self.0.as_str());
        s
    }
}

/// The display form of a function name, `fn <name>`.
pub open spec fn spec_fn_display(name: Seq<char>) -> Seq<char> {
    "fn "@ + name
}

/// A collected function: its declaration's parts, and the memory offset it
/// resolves to once assembled (absent before assembly).
#[derive(Debug, Clone)]
pub struct Function {
    pub name: FnName,
    pub arguments: Vec<String>,
    pub statements: Vec<Stmt>,
    pub return_type: Option<TypeAnn>,
    pub memory_location: Option<AssemblyOffset>,
}

/// Where a function lives: still known by name only, or resolved to a byte
/// offset into the assembled buffer.
#[derive(Debug, Clone)]
pub enum FnLocation {
    MemoryOffset(AssemblyOffset),
    UnresolvedFnName(FnName),
}

/// Failure of a whole compilation.
#[derive(Debug, Clone, PartialEq)]
pub enum AssembleError {
    /// Mismatch between the body of the function and the return type
    FunctionError(AssembleFunctionError),
    NoEntryFunction,
    MultipleEntryPoints,
    FunctionDeclaredMultipleTimes(String),
}

/// Failure to assemble one function.
#[derive(Debug, Clone, PartialEq)]
pub enum AssembleFunctionError {
    ReturnTypeMismatch(String),
    GetReturnTypeError(GetReturnTypeInnerError),
}

/// Failure of return-type inference over a function body.
#[derive(Debug, Copy, Clone, PartialEq, Eq, Structural)]
pub enum GetReturnTypeInnerError {
    TryMatchValueError(TryMatchError),
    EmptyFunction,
    UnexpectedExpressionType,
}

impl From<AssembleFunctionError> for AssembleError {
    fn from(e: AssembleFunctionError) -> (r: Self) {
        AssembleError::FunctionError(e)
    }
}

impl vstd::std_specs::convert::FromSpecImpl<AssembleFunctionError> for AssembleError {
    open spec fn obeys_from_spec() -> bool {
        true
    }

    open spec fn from_spec(e: AssembleFunctionError) -> Self {
        AssembleError::FunctionError(e)
    }
}

impl From<GetReturnTypeInnerError> for AssembleFunctionError {
    fn from(e: GetReturnTypeInnerError) -> (r: Self) {
        AssembleFunctionError::GetReturnTypeError(e)
    }
}

impl vstd::std_specs::convert::FromSpecImpl<GetReturnTypeInnerError> for AssembleFunctionError {
    open spec fn obeys_from_spec() -> bool {
        true
    }

    open spec fn from_spec(e: GetReturnTypeInnerError) -> Self {
        AssembleFunctionError::GetReturnTypeError(e)
    }
}

impl From<TryMatchError> for GetReturnTypeInnerError {
    fn from(e: TryMatchError) -> (r: Self) {
        GetReturnTypeInnerError::TryMatchValueError(e)
    }
}

impl vstd::std_specs::convert::FromSpecImpl<TryMatchError> for GetReturnTypeInnerError {
    open spec fn obeys_from_spec() -> bool {
        true
    }

    open spec fn from_spec(e: TryMatchError) -> Self {
        GetReturnTypeInnerError::TryMatchValueError(e)
    }
}

/// Whether an identifier (held as a `String`) spells out `expected`.
fn ident_matches(ident: &String, expected: &str) -> (r: bool)
    ensures
        r == (ident@ == expected@),
{
    let e: String = expected.to_owned();
    *ident == e
}

/// Whether the path's first segment is the identifier `expected`.
pub open spec fn spec_has_first_segment(path: IdentPath, expected: Seq<char>) -> bool {
    path.segments@.len() > 0 && path.segments@[0]@ == expected
}

/// Whether `path`'s first segment is the identifier `expected`.
fn has_first_segment(path: &IdentPath, expected: &str) -> (r: bool)
    ensures
        r == spec_has_first_segment(*path, expected@),
{
    if path.segments.len() > 0 {
        ident_matches(&path.segments[0], expected)
    } else {
        false
    }
}

/// The path's first segment, if the path has any segment at all.
fn get_first_segment(path: &IdentPath) -> (r: Option<&String>)
    ensures
        match r {
            Some(s) => path.segments@.len() > 0 && s == &path.segments@[0],
            None => path.segments@.len() == 0,
        },
{
    if path.segments.len() > 0 {
        Some(&path.segments[0])
    } else {
        None
    }
}

/// Whether the function carries the entry-point marker: an attribute whose
/// path has no leading `::` and whose first segment is the literal
/// identifier `start`.
pub open spec fn spec_is_start(f: FnDef) -> bool {
    exists|i: int|
        0 <= i < f.attrs@.len() && !f.attrs@[i].leading_colon && spec_has_first_segment(
            f.attrs@[i],
            "start"@,
        )
}

/// Decides whether `f` is marked as the entry point.
fn is_start_label(f: &FnDef) -> (r: bool)
    ensures
        r == spec_is_start(*f),
{
    let mut i: usize = 0;
    while i < f.attrs.len()
        invariant
            0 <= i <= f.attrs@.len(),
            forall|j: int|
                0 <= j < i ==> !(!f.attrs@[j].leading_colon && spec_has_first_segment(
                    f.attrs@[j],
                    "start"@,
                )),
        decreases f.attrs@.len() - i,
    {
        let attr = &f.attrs[i];
        if !attr.leading_colon && has_first_segment(attr, "start") {
            return true;
        }
        i = i + 1;
    }
    false
}

/// The return kind declared by a function's type annotation: only the
/// unqualified names `u8`/`u16`/`u32`/`u64` constrain it; a qualified path,
/// another name, a non-path type, or no annotation yields no constraint.
pub open spec fn spec_outer_ret(t: Option<TypeAnn>) -> Option<Ret> {
    match t {
        Some(TypeAnn::Path(p)) => if p.leading_colon {
            None
        } else if p.segments@.len() == 0 {
            None
        } else if p.segments@[0]@ == "u8"@ {
            Some(Ret::Int(StaticIntLiteral::U8))
        } else if p.segments@[0]@ == "u16"@ {
            Some(Ret::Int(StaticIntLiteral::U16))
        } else if p.segments@[0]@ == "u32"@ {
            Some(Ret::Int(StaticIntLiteral::U32))
        } else if p.segments@[0]@ == "u64"@ {
            Some(Ret::Int(StaticIntLiteral::U64))
        } else {
            None
        },
        _ => None,
    }
}

/// Extracts the declared ("outer") return kind from a type annotation.
fn get_return_type_outer(return_type: &Option<TypeAnn>) -> (r: Option<Ret>)
    ensures
        r == spec_outer_ret(*return_type),
{
    match return_type {
        Some(TypeAnn::Path(p)) => {
            if p.leading_colon {
                return None;
            }
            match get_first_segment(p) {
                Some(seg) => {
                    if ident_matches(seg, "u8") {
                        Some(Ret::Int(StaticIntLiteral::U8))
                    } else if ident_matches(seg, "u16") {
                        Some(Ret::Int(StaticIntLiteral::U16))
                    } else if ident_matches(seg, "u32") {
                        Some(Ret::Int(StaticIntLiteral::U32))
                    } else if ident_matches(seg, "u64") {
                        Some(Ret::Int(StaticIntLiteral::U64))
                    } else {
                        None
                    }
                },
                None => None,
            }
        },
        _ => None,
    }
}

/// The return kind inferred ("inner") from a function body against the
/// expected kind: the body must end in a bare integer-literal expression. A
/// suffixed literal's kind is its suffix's kind, independent of the expected
/// kind; an unsuffixed literal goes through the size-fit rule.
pub open spec fn spec_inner_ret(stmts: Seq<Stmt>, expected: Ret) -> Result<
    Ret,
    GetReturnTypeInnerError,
> {
    if stmts.len() == 0 {
        Err(GetReturnTypeInnerError::EmptyFunction)
    } else {
        match expected {
            Ret::Int(exp) => match stmts.last() {
                Stmt::IntExpr(lit) => match lit.suffix {
                    IntSuffix::Unsuffixed => match spec_try_match(lit.value, exp) {
                        Ok(r) => Ok(r),
                        Err(e) => Err(GetReturnTypeInnerError::TryMatchValueError(e)),
                    },
                    IntSuffix::I8 => Ok(Ret::Int(StaticIntLiteral::I8)),
                    IntSuffix::I16 => Ok(Ret::Int(StaticIntLiteral::I16)),
                    IntSuffix::I32 => Ok(Ret::Int(StaticIntLiteral::I32)),
                    IntSuffix::I64 => Ok(Ret::Int(StaticIntLiteral::I64)),
                    IntSuffix::U8 => Ok(Ret::Int(StaticIntLiteral::U8)),
                    IntSuffix::U16 => Ok(Ret::Int(StaticIntLiteral::U16)),
                    IntSuffix::U32 => Ok(Ret::Int(StaticIntLiteral::U32)),
                    IntSuffix::U64 => Ok(Ret::Int(StaticIntLiteral::U64)),
                    IntSuffix::Unsupported => Err(
                        GetReturnTypeInnerError::UnexpectedExpressionType,
                    ),
                },
                Stmt::Other => Err(GetReturnTypeInnerError::UnexpectedExpressionType),
            },
            _ => Err(GetReturnTypeInnerError::UnexpectedExpressionType),
        }
    }
}

/// Infers and validates the body's return kind against the expected kind.
fn get_return_type_inner(statements: &Vec<Stmt>, expected_type: Ret) -> (r: Result<
    Ret,
    GetReturnTypeInnerError,
>)
    ensures
        r == spec_inner_ret(statements@, expected_type),
{
    if statements.len() == 0 {
        return Err(GetReturnTypeInnerError::EmptyFunction);
    }
    let last_statement = &statements[statements.len() - 1];
    match expected_type {
        Ret::Int(expected) => {
            let lit = match last_statement {
                Stmt::IntExpr(lit) => lit,
                _ => {
                    return Err(GetReturnTypeInnerError::UnexpectedExpressionType);
                },
            };
            match lit.suffix {
                IntSuffix::Unsuffixed => match try_match_u64_value(lit.value, &expected) {
                    Ok(r) => Ok(r),
                    Err(e) => Err(GetReturnTypeInnerError::TryMatchValueError(e)),
                },
                IntSuffix::I8 => Ok(Ret::Int(StaticIntLiteral::I8)),
                IntSuffix::I16 => Ok(Ret::Int(StaticIntLiteral::I16)),
                IntSuffix::I32 => Ok(Ret::Int(StaticIntLiteral::I32)),
                IntSuffix::I64 => Ok(Ret::Int(StaticIntLiteral::I64)),
                IntSuffix::U8 => Ok(Ret::Int(StaticIntLiteral::U8)),
                IntSuffix::U16 => Ok(Ret::Int(StaticIntLiteral::U16)),
                IntSuffix::U32 => Ok(Ret::Int(StaticIntLiteral::U32)),
                IntSuffix::U64 => Ok(Ret::Int(StaticIntLiteral::U64)),
                IntSuffix::Unsupported => Err(GetReturnTypeInnerError::UnexpectedExpressionType),
            }
        },
        _ => Err(GetReturnTypeInnerError::UnexpectedExpressionType),
    }
}

/// The little-endian byte sequence of a 16-bit value.
pub open spec fn spec_le_bytes_u16(x: u16) -> Seq<u8> {
    seq![(x & 0xff) as u8, ((x >> 8) & 0xff) as u8]
}

/// The little-endian byte sequence of a 32-bit value.
pub open spec fn spec_le_bytes_u32(x: u32) -> Seq<u8> {
    seq![
        (x & 0xff) as u8,
        ((x >> 8) & 0xff) as u8,
        ((x >> 16) & 0xff) as u8,
        ((x >> 24) & 0xff) as u8,
    ]
}

/// The little-endian byte sequence of a 64-bit value.
pub open spec fn spec_le_bytes_u64(x: u64) -> Seq<u8> {
    seq![
        (x & 0xff) as u8,
        ((x >> 8) & 0xff) as u8,
        ((x >> 16) & 0xff) as u8,
        ((x >> 24) & 0xff) as u8,
        ((x >> 32) & 0xff) as u8,
        ((x >> 40) & 0xff) as u8,
        ((x >> 48) & 0xff) as u8,
        ((x >> 56) & 0xff) as u8,
    ]
}

/// Encodes a 32-bit immediate little-endian: least-significant byte first.
pub fn transform_u32_to_array_of_u8_le(x: u32) -> (r: [u8; 4])
    ensures
        r@ == spec_le_bytes_u32(x),
{
    let b1: u8 = ((x >> 24) & 0xff) as u8;
    let b2: u8 = ((x >> 16) & 0xff) as u8;
    let b3: u8 = ((x >> 8) & 0xff) as u8;
    let b4: u8 = (x & 0xff) as u8;
    let r = [b4, b3, b2, b1];
    proof {
        assert(r@ =~= spec_le_bytes_u32(x));
    }
    r
}

/// Encodes a 16-bit immediate little-endian: least-significant byte first.
pub fn transform_u16_to_array_of_u8_le(x: u16) -> (r: [u8; 2])
    ensures
        r@ == spec_le_bytes_u16(x),
{
    let b1: u8 = ((x >> 8) & 0xff) as u8;
    let b2: u8 = (x & 0xff) as u8;
    let r = [b2, b1];
    proof {
        assert(r@ =~= spec_le_bytes_u16(x));
    }
    r
}

/// Encodes a 64-bit immediate little-endian: least-significant byte first,
/// most-significant byte last.
pub fn transform_u64_to_array_of_u8_le(x: u64) -> (r: [u8; 8])
    ensures
        r@ == spec_le_bytes_u64(x),
{
    let b1: u8 = ((x >> 56) & 0xff) as u8;
    let b2: u8 = ((x >> 48) & 0xff) as u8;
    let b3: u8 = ((x >> 40) & 0xff) as u8;
    let b4: u8 = ((x >> 32) & 0xff) as u8;
    let b5: u8 = ((x >> 24) & 0xff) as u8;
    let b6: u8 = ((x >> 16) & 0xff) as u8;
    let b7: u8 = ((x >> 8) & 0xff) as u8;
    let b8: u8 = (x & 0xff) as u8;
    let r = [b8, b7, b6, b5, b4, b3, b2, b1];
    proof {
        assert(r@ =~= spec_le_bytes_u64(x));
    }
    r
}

/// The fixed function prologue: `push rbp; mov rbp, rsp`.
pub open spec fn spec_prologue() -> Seq<u8> {
    seq![0x55u8, 0x48u8, 0x89u8, 0xE5u8]
}

/// The fixed function epilogue: `pop rbp; ret`.
pub open spec fn spec_epilogue() -> Seq<u8> {
    seq![0x5Du8, 0xC3u8]
}

/// The bytes one body statement contributes under the validated return kind
/// `return_type`: nothing unless the statement is an integer literal whose
/// kind selects an opcode; otherwise the opcode followed by the
/// width-matched little-endian immediate. A 64-bit return kind whose literal
/// already fits in 32 bits or fewer is narrowed to the cheaper 32-bit move.
pub open spec fn spec_stmt_bytes(stmt: Stmt, return_type: Ret) -> Seq<u8> {
    match stmt {
        Stmt::IntExpr(lit) => {
            let min_size = spec_minimal_size(lit.value);
            let optimal = if return_type == Ret::Int(StaticIntLiteral::U64) && (min_size
                == StaticIntLiteral::U32 || min_size == StaticIntLiteral::U16 || min_size
                == StaticIntLiteral::U8) {
                Ret::Int(StaticIntLiteral::U32)
            } else {
                return_type
            };
            match spec_optimal_register_return(optimal) {
                Some(instr) => {
                    let opcode = match instr {
                        Instruction::OneComponent(a) => seq![a],
                        Instruction::TwoComponent((a, b)) => seq![a, b],
                    };
                    let immediate = match optimal {
                        Ret::Int(i) => match i {
                            StaticIntLiteral::U64 => spec_le_bytes_u64(lit.value),
                            StaticIntLiteral::U32 => spec_le_bytes_u32(lit.value as u32),
                            StaticIntLiteral::U16 => spec_le_bytes_u16(lit.value as u16),
                            StaticIntLiteral::U8 => seq![lit.value as u8],
                            _ => Seq::empty(),
                        },
                        _ => Seq::empty(),
                    };
                    opcode + immediate
                },
                None => Seq::empty(),
            }
        },
        Stmt::Other => Seq::empty(),
    }
}

/// The concatenated bytes of a whole statement sequence.
pub open spec fn spec_stmts_bytes(stmts: Seq<Stmt>, return_type: Ret) -> Seq<u8>
    decreases stmts.len(),
{
    if stmts.len() == 0 {
        Seq::empty()
    } else {
        spec_stmts_bytes(stmts.drop_last(), return_type) + spec_stmt_bytes(
            stmts.last(),
            return_type,
        )
    }
}

/// Appends every byte of `src` to `dst`, in order.
fn push_all(dst: &mut Vec<u8>, src: &[u8])
    ensures
        final(dst)@ == old(dst)@ + src@,
{
    let mut idx: usize = 0;
    while idx < src.len()
        invariant
            0 <= idx <= src@.len(),
            dst@ == old(dst)@ + src@.take(idx as int),
        decreases src@.len() - idx,
    {
        dst.push(src[idx]);
        proof {
            assert(old(dst)@ + src@.take(idx as int) + seq![src@[idx as int]] =~= old(dst)@
                + src@.take(idx as int + 1));
        }
        idx = idx + 1;
    }
    proof {
        assert(src@.take(src@.len() as int) =~= src@);
    }
}

/// Emits the body bytes of a function under its validated return kind: one
/// move-immediate per integer-literal statement, nothing for any other
/// statement or for a return kind without an instruction mapping.
fn assemble_statements(stmts: &Vec<Stmt>, return_type: Ret, fn_map: &Vec<Function>) -> (r: Option<
    Vec<u8>,
>)
    ensures
        r matches Some(v) && v@ == spec_stmts_bytes(stmts@, return_type),
{
    let mut assembly_vec: Vec<u8> = Vec::new();
    let mut i: usize = 0;
    while i < stmts.len()
        invariant
            0 <= i <= stmts@.len(),
            assembly_vec@ == spec_stmts_bytes(stmts@.take(i as int), return_type),
        decreases stmts@.len() - i,
    {
        let stmt = &stmts[i];
        match stmt {
            Stmt::IntExpr(lit) => {
                let val = lit.value;
                let min_size = determine_minimal_size(val);
                let mut optimal_return_size = return_type;
                // Width-narrowing: a 64-bit return whose literal fits in 32
                // bits or fewer takes the cheaper 32-bit-register move.
                if return_type == Ret::Int(StaticIntLiteral::U64) {
                    if min_size == StaticIntLiteral::U32 || min_size == StaticIntLiteral::U16
                        || min_size == StaticIntLiteral::U8 {
                        optimal_return_size = Ret::Int(StaticIntLiteral::U32);
                    }
                }
                let asm_instr = optimal_return_size.get_optimal_register_return();
                match asm_instr {
                    Some(instr) => {
                        match instr {
                            Instruction::OneComponent(a) => {
                                assembly_vec.push(a);
                            },
                            Instruction::TwoComponent((a, b)) => {
                                assembly_vec.push(a);
                                assembly_vec.push(b);
                            },
                        }
                        match optimal_return_size {
                            Ret::Int(ik) => match ik {
                                StaticIntLiteral::U64 => {
                                    let arr = transform_u64_to_array_of_u8_le(val);
                                    push_all(&mut assembly_vec, arr.as_slice());
                                },
                                StaticIntLiteral::U32 => {
                                    let arr = transform_u32_to_array_of_u8_le(val as u32);
                                    push_all(&mut assembly_vec, arr.as_slice());
                                },
                                StaticIntLiteral::U16 => {
                                    let arr = transform_u16_to_array_of_u8_le(val as u16);
                                    push_all(&mut assembly_vec, arr.as_slice());
                                },
                                StaticIntLiteral::U8 => {
                                    assembly_vec.push(val as u8);
                                },
                                _ => {},
                            },
                            _ => {},
                        }
                    },
                    None => {},
                }
            },
            Stmt::Other => {},
        }
        proof {
            assert(stmts@.take(i as int + 1).drop_last() =~= stmts@.take(i as int));
            assert(stmts@.take(i as int + 1).last() == stmts@[i as int]);
        }
        i = i + 1;
    }
    proof {
        assert(stmts@.take(stmts@.len() as int) =~= stmts@);
    }
    Some(assembly_vec)
}

/// How assembling one function comes out: its framed bytes, a mismatch
/// between declared and inferred return kinds, or an inference failure.
pub ghost enum FnAsmOutcome {
    Bytes(Seq<u8>),
    TypeMismatch,
    InnerError(GetReturnTypeInnerError),
}

/// The outcome of assembling `f`: the declared kind (defaulting to `Void`)
/// must equal the kind inferred from the body, and the emitted body bytes
/// are framed by the fixed prologue and epilogue.
pub open spec fn spec_assemble_function(f: Function) -> FnAsmOutcome {
    let outer = match spec_outer_ret(f.return_type) {
        Some(r) => r,
        None => Ret::Void,
    };
    match spec_inner_ret(f.statements@, outer) {
        Err(e) => FnAsmOutcome::InnerError(e),
        Ok(inner) => if outer != inner {
            FnAsmOutcome::TypeMismatch
        } else {
            FnAsmOutcome::Bytes(
                spec_prologue() + spec_stmts_bytes(f.statements@, outer) + spec_epilogue(),
            )
        },
    }
}

/// Assembles the function at `fn_location` in the table: validates its
/// return kind, emits its body, and frames it with the fixed prologue and
/// epilogue. The offset map is carried for future cross-function reference
/// resolution; no inter-function calls are emitted yet.
fn assemble_function(
    fn_location: GlobalLabel,
    fn_map: &Vec<Function>,
    fn_offset_map: &Vec<FnLocation>,
) -> (r: Result<Vec<u8>, AssembleFunctionError>)
    requires
        fn_location.0 < fn_map@.len(),
    ensures
        match spec_assemble_function(fn_map@[fn_location.0 as int]) {
            FnAsmOutcome::Bytes(b) => r matches Ok(v) && v@ == b,
            FnAsmOutcome::TypeMismatch => r matches Err(AssembleFunctionError::ReturnTypeMismatch(s))
                && s@ == spec_fn_display(fn_map@[fn_location.0 as int].name.0@),
            FnAsmOutcome::InnerError(e) => r == Err::<Vec<u8>, _>(
                AssembleFunctionError::GetReturnTypeError(e),
            ),
        },
{
    let entry = &fn_map[fn_location.0];

    let return_type_outer = match get_return_type_outer(&entry.return_type) {
        Some(r) => r,
        None => Ret::default(),
    };
    let return_type_inner = match get_return_type_inner(&entry.statements, return_type_outer) {
        Ok(t) => t,
        Err(e) => {
            return Err(AssembleFunctionError::GetReturnTypeError(e));
        },
    };

    if return_type_outer != return_type_inner {
        return Err(AssembleFunctionError::ReturnTypeMismatch(entry.name.display_string()));
    }

    let mut assembly = match assemble_statements(&entry.statements, return_type_outer, fn_map) {
        Some(i) => i,
        None => {
            return Err(AssembleFunctionError::ReturnTypeMismatch(entry.name.display_string()));
        },
    };

    let mut instructions: Vec<u8> = Vec::new();
    // prologue: push rbp; mov rbp, rsp
    instructions.push(0x55);
    instructions.push(0x48);
    instructions.push(0x89);
    instructions.push(0xE5);
    instructions.append(&mut assembly);
    // epilogue: pop rbp; ret
    instructions.push(0x5D);
    instructions.push(0xC3);
    proof {
        assert(instructions@ =~= spec_prologue() + spec_stmts_bytes(
            fn_map@[fn_location.0 as int].statements@,
            return_type_outer,
        ) + spec_epilogue());
    }
    Ok(instructions)
}

/// The module's function declarations, in scan order: its labels run
/// `0, 1, ...` over this sequence.
pub open spec fn spec_fn_defs(items: Seq<ModItem>) -> Seq<FnDef>
    decreases items.len(),
{
    if items.len() == 0 {
        Seq::empty()
    } else {
        let rest = spec_fn_defs(items.drop_last());
        match items.last() {
            ModItem::Function(f) => rest.push(f),
            ModItem::Other => rest,
        }
    }
}

/// The table entry a declaration is collected as: no memory offset is
/// resolved yet.
pub open spec fn spec_fn_of(d: FnDef) -> Function {
    Function {
        name: FnName(d.name),
        arguments: d.params,
        statements: d.statements,
        return_type: d.return_type,
        memory_location: None,
    }
}

/// Whether the declaration at `j` repeats the name of an earlier one.
pub open spec fn spec_dup_at(fns: Seq<FnDef>, j: int) -> bool {
    exists|i: int| 0 <= i < j && fns[i].name@ == fns[j].name@
}

/// Whether the declaration at `j` is an entry-point marker after an earlier
/// one was already seen.
pub open spec fn spec_second_start_at(fns: Seq<FnDef>, j: int) -> bool {
    spec_is_start(fns[j]) && exists|i: int| 0 <= i < j && spec_is_start(fns[i])
}

/// Whether collection stops at declaration `j`: a repeated name, or a second
/// entry-point marker. A repeated name is checked first.
pub open spec fn spec_fail_at(fns: Seq<FnDef>, j: int) -> bool {
    spec_dup_at(fns, j) || spec_second_start_at(fns, j)
}

/// The first declaration index at or after `j` where collection stops, if
/// any.
pub open spec fn spec_first_fail_from(fns: Seq<FnDef>, j: int) -> Option<int>
    decreases fns.len() - j
        when 0 <= j <= fns.len()
{
    if j >= fns.len() {
        None
    } else if spec_fail_at(fns, j) {
        Some(j)
    } else {
        spec_first_fail_from(fns, j + 1)
    }
}

/// The first entry-point-marked declaration at or after `j`, if any.
pub open spec fn spec_first_start_from(fns: Seq<FnDef>, j: int) -> Option<int>
    decreases fns.len() - j
        when 0 <= j <= fns.len()
{
    if j >= fns.len() {
        None
    } else if spec_is_start(fns[j]) {
        Some(j)
    } else {
        spec_first_start_from(fns, j + 1)
    }
}

/// How a whole compilation comes out.
pub ghost enum CompileOutcome {
    /// The entry function's framed bytes.
    Bytes(Seq<u8>),
    /// A second declaration reused this display name.
    DuplicateName(Seq<char>),
    MultipleEntries,
    NoEntry,
    /// The entry function's declared and inferred return kinds disagree.
    TypeMismatch(Seq<char>),
    /// Return-kind inference failed over the entry function's body.
    InnerError(GetReturnTypeInnerError),
}

/// The outcome of compiling `module`: collection scans the declarations in
/// order and stops at the first repeated name or second entry marker; with
/// exactly one marked entry the result is that function's assembly outcome.
pub open spec fn spec_compile(module: Module) -> CompileOutcome {
    let fns = spec_fn_defs(module.items@);
    match spec_first_fail_from(fns, 0) {
        Some(j) => if spec_dup_at(fns, j) {
            CompileOutcome::DuplicateName(spec_fn_display(fns[j].name@))
        } else {
            CompileOutcome::MultipleEntries
        },
        None => match spec_first_start_from(fns, 0) {
            None => CompileOutcome::NoEntry,
            Some(e) => match spec_assemble_function(spec_fn_of(fns[e])) {
                FnAsmOutcome::Bytes(b) => CompileOutcome::Bytes(b),
                FnAsmOutcome::TypeMismatch => CompileOutcome::TypeMismatch(
                    spec_fn_display(fns[e].name@),
                ),
                FnAsmOutcome::InnerError(e2) => CompileOutcome::InnerError(e2),
            },
        },
    }
}

proof fn lemma_fn_defs_step(items: Seq<ModItem>, i: int)
    requires
        0 <= i < items.len(),
    ensures
        spec_fn_defs(items.take(i + 1)) == match items[i] {
            ModItem::Function(f) => spec_fn_defs(items.take(i)).push(f),
            ModItem::Other => spec_fn_defs(items.take(i)),
        },
{
    assert(items.take(i + 1).drop_last() =~= items.take(i));
    assert(items.take(i + 1).last() == items[i]);
}

proof fn lemma_fn_defs_prefix(items: Seq<ModItem>, i: int)
    requires
        0 <= i <= items.len(),
    ensures
        spec_fn_defs(items.take(i)).is_prefix_of(spec_fn_defs(items)),
    decreases items.len() - i,
{
    if i == items.len() {
        assert(items.take(i) =~= items);
    } else {
        lemma_fn_defs_step(items, i);
        lemma_fn_defs_prefix(items, i + 1);
        let a = spec_fn_defs(items.take(i));
        let b = spec_fn_defs(items.take(i + 1));
        let c = spec_fn_defs(items);
        assert(a.is_prefix_of(b));
        assert(a =~= c.subrange(0, a.len() as int));
    }
}

proof fn lemma_first_fail_some_from(fns: Seq<FnDef>, k: int, j: int)
    requires
        0 <= k <= j < fns.len(),
        spec_fail_at(fns, j),
        forall|m: int| k <= m < j ==> !spec_fail_at(fns, m),
    ensures
        spec_first_fail_from(fns, k) == Some(j),
    decreases j - k,
{
    if k < j {
        lemma_first_fail_some_from(fns, k + 1, j);
    }
}

proof fn lemma_first_fail_none_from(fns: Seq<FnDef>, k: int)
    requires
        0 <= k <= fns.len(),
        forall|m: int| k <= m < fns.len() ==> !spec_fail_at(fns, m),
    ensures
        spec_first_fail_from(fns, k) == None::<int>,
    decreases fns.len() - k,
{
    if k < fns.len() {
        lemma_first_fail_none_from(fns, k + 1);
    }
}

proof fn lemma_first_start_some_from(fns: Seq<FnDef>, k: int, j: int)
    requires
        0 <= k <= j < fns.len(),
        spec_is_start(fns[j]),
        forall|m: int| k <= m < j ==> !spec_is_start(fns[m]),
    ensures
        spec_first_start_from(fns, k) == Some(j),
    decreases j - k,
{
    if k < j {
        lemma_first_start_some_from(fns, k + 1, j);
    }
}

proof fn lemma_first_start_none_from(fns: Seq<FnDef>, k: int)
    requires
        0 <= k <= fns.len(),
        forall|m: int| k <= m < fns.len() ==> !spec_is_start(fns[m]),
    ensures
        spec_first_start_from(fns, k) == None::<int>,
    decreases fns.len() - k,
{
    if k < fns.len() {
        lemma_first_start_none_from(fns, k + 1);
    }
}

proof fn lemma_first_fail_char(fns: Seq<FnDef>, k: int)
    requires
        0 <= k <= fns.len(),
    ensures
        match spec_first_fail_from(fns, k) {
            Some(j) => k <= j < fns.len() && spec_fail_at(fns, j) && forall|m: int|
                k <= m < j ==> !spec_fail_at(fns, m),
            None => forall|m: int| k <= m < fns.len() ==> !spec_fail_at(fns, m),
        },
    decreases fns.len() - k,
{
    if k < fns.len() && !spec_fail_at(fns, k) {
        lemma_first_fail_char(fns, k + 1);
    }
}

/// With pairwise-distinct names and exactly one entry-marked function, whose
/// own assembly succeeds, compilation succeeds, and the resulting buffer is
/// non-empty: the fixed prologue, then the entry function's body bytes, then
/// the fixed epilogue.
pub proof fn lemma_compile_succeeds(module: Module, fns: Seq<FnDef>, e: int)
    requires
        fns == spec_fn_defs(module.items@),
        forall|i: int, j: int| 0 <= i < j < fns.len() ==> fns[i].name@ != fns[j].name@,
        0 <= e < fns.len(),
        spec_is_start(fns[e]),
        forall|j: int| 0 <= j < fns.len() && j != e ==> !spec_is_start(fns[j]),
        spec_assemble_function(spec_fn_of(fns[e])) matches FnAsmOutcome::Bytes(_),
    ensures
        spec_compile(module) matches CompileOutcome::Bytes(b) && spec_assemble_function(
            spec_fn_of(fns[e]),
        ) == FnAsmOutcome::Bytes(b) && b.len() >= 6 && b.take(4) == spec_prologue() && b.skip(
            b.len() - 2,
        ) == spec_epilogue(),
{
    assert forall|j: int| 0 <= j < fns.len() implies !spec_fail_at(fns, j) by {
        assert(!spec_dup_at(fns, j));
        if spec_second_start_at(fns, j) {
            let i = choose|i: int| 0 <= i < j && spec_is_start(fns[i]);
            assert(i == e && j == e);
        }
    }
    lemma_first_fail_none_from(fns, 0);
    lemma_first_start_some_from(fns, 0, e);
    let b = spec_assemble_function(spec_fn_of(fns[e]))->Bytes_0;
    assert(b.take(4) =~= spec_prologue());
    assert(b.skip(b.len() - 2) =~= spec_epilogue());
}

/// With pairwise-distinct names and no entry-marked function at all,
/// compilation fails with the no-entry kind.
pub proof fn lemma_compile_no_entry(module: Module, fns: Seq<FnDef>)
    requires
        fns == spec_fn_defs(module.items@),
        forall|i: int, j: int| 0 <= i < j < fns.len() ==> fns[i].name@ != fns[j].name@,
        forall|j: int| 0 <= j < fns.len() ==> !spec_is_start(fns[j]),
    ensures
        spec_compile(module) == CompileOutcome::NoEntry,
{
    assert forall|j: int| 0 <= j < fns.len() implies !spec_fail_at(fns, j) by {
        assert(!spec_dup_at(fns, j));
    }
    lemma_first_fail_none_from(fns, 0);
    lemma_first_start_none_from(fns, 0);
}

/// With pairwise-distinct names and two (or more) entry-marked functions,
/// compilation fails with the multiple-entries kind.
pub proof fn lemma_compile_multiple_entries(module: Module, fns: Seq<FnDef>, e1: int, e2: int)
    requires
        fns == spec_fn_defs(module.items@),
        forall|i: int, j: int| 0 <= i < j < fns.len() ==> fns[i].name@ != fns[j].name@,
        0 <= e1 < e2 < fns.len(),
        spec_is_start(fns[e1]),
        spec_is_start(fns[e2]),
    ensures
        spec_compile(module) == CompileOutcome::MultipleEntries,
{
    assert(spec_second_start_at(fns, e2));
    lemma_first_fail_char(fns, 0);
    match spec_first_fail_from(fns, 0) {
        Some(j) => {
            assert(!spec_dup_at(fns, j));
        },
        None => {
            assert(!spec_fail_at(fns, e2));
        },
    }
}

/// With two functions sharing a name — `d` being the first declaration that
/// repeats an earlier name — and no second entry marker before it,
/// compilation fails with the declared-multiple-times kind, naming the
/// duplicate: collection stops there and registers nothing after it.
pub proof fn lemma_compile_duplicate_name(module: Module, fns: Seq<FnDef>, d: int)
    requires
        fns == spec_fn_defs(module.items@),
        0 <= d < fns.len(),
        spec_dup_at(fns, d),
        forall|j: int| 0 <= j < d ==> !spec_dup_at(fns, j),
        forall|j: int| 0 <= j < d ==> !spec_second_start_at(fns, j),
    ensures
        spec_compile(module) == CompileOutcome::DuplicateName(spec_fn_display(fns[d].name@)),
{
    lemma_first_fail_some_from(fns, 0, d);
}

/// A function declared with an unqualified `u8`/`u16`/`u32`/`u64` annotation
/// whose body ends in an unsuffixed integer literal that fits the declared
/// kind under the size-fit rule assembles successfully, into at least the
/// six bytes of the fixed prologue and epilogue.
pub proof fn lemma_assemble_fit(f: Function, k: StaticIntLiteral, lit: IntLiteral)
    requires
        spec_outer_ret(f.return_type) == Some(Ret::Int(k)),
        f.statements@.len() > 0,
        f.statements@.last() == Stmt::IntExpr(lit),
        lit.suffix == IntSuffix::Unsuffixed,
        spec_try_match(lit.value, k) matches Ok(_),
    ensures
        spec_assemble_function(f) matches FnAsmOutcome::Bytes(b) && b.len() >= 6,
{
}

/// Minimal-width classification is exact at the documented boundaries:
/// values `0..0xFE` classify `U8`, `0xFF..0xFFFE` classify `U16`,
/// `0xFFFF..0xFFFFFFFE` classify `U32`, and everything above classifies
/// `U64`: a boundary value itself falls into the next-larger bucket.
pub proof fn lemma_minimal_size_boundaries(v: u64)
    ensures
        spec_minimal_size(v) == StaticIntLiteral::U8 <==> v < 0xff,
        spec_minimal_size(v) == StaticIntLiteral::U16 <==> 0xff <= v < 0xffff,
        spec_minimal_size(v) == StaticIntLiteral::U32 <==> 0xffff <= v < 0xffffffff,
        spec_minimal_size(v) == StaticIntLiteral::U64 <==> v >= 0xffffffff,
{
}

/// A function with an empty body never assembles: inference fails with the
/// empty-function kind, whatever its declared return type.
pub proof fn lemma_assemble_empty_function(f: Function)
    requires
        f.statements@.len() == 0,
    ensures
        spec_assemble_function(f) == FnAsmOutcome::InnerError(
            GetReturnTypeInnerError::EmptyFunction,
        ),
{
}

/// A function whose last statement is not a bare integer literal never
/// assembles: inference fails with the unexpected-expression kind, whatever
/// its declared return type.
pub proof fn lemma_assemble_not_literal(f: Function)
    requires
        f.statements@.len() > 0,
        f.statements@.last() matches Stmt::Other,
    ensures
        spec_assemble_function(f) == FnAsmOutcome::InnerError(
            GetReturnTypeInnerError::UnexpectedExpressionType,
        ),
{
}

/// Whether the table already holds a function of this name.
fn table_contains_name(table: &Vec<Function>, name: &String) -> (r: bool)
    ensures
        r == exists|m: int| 0 <= m < table@.len() && table@[m].name.0@ == name@,
{
    let mut j: usize = 0;
    while j < table.len()
        invariant
            0 <= j <= table@.len(),
            forall|m: int| 0 <= m < j ==> table@[m].name.0@ != name@,
        decreases table@.len() - j,
    {
        let entry = &table[j];
        if ident_matches_string(&entry.name.0, name) {
            return true;
        }
        j = j + 1;
    }
    false
}

/// Whether two identifiers (held as `String`s) are the same.
fn ident_matches_string(a: &String, b: &String) -> (r: bool)
    ensures
        r == (a@ == b@),
{
    *a == *b
}

/// Compiles a parsed module: collects its functions in scan order under
/// fresh labels, validating that names are unique and exactly one function
/// carries the entry-point marker, then assembles the entry function into
/// one flat byte buffer. Collection stops at the first repeated name or
/// second entry marker; with no marked entry at all the compilation fails.
#[verifier::loop_isolation(false)]
pub fn compile(module: Module) -> (r: Result<AssemblyBuf, AssembleError>)
    ensures
        match spec_compile(module) {
            CompileOutcome::Bytes(b) => r matches Ok(buf) && buf.instructions@ == b,
            CompileOutcome::DuplicateName(n) => r matches Err(
                AssembleError::FunctionDeclaredMultipleTimes(s),
            ) && s@ == n,
            CompileOutcome::MultipleEntries => r == Err::<AssemblyBuf, AssembleError>(
                AssembleError::MultipleEntryPoints,
            ),
            CompileOutcome::NoEntry => r == Err::<AssemblyBuf, AssembleError>(
                AssembleError::NoEntryFunction,
            ),
            CompileOutcome::TypeMismatch(n) => r matches Err(
                AssembleError::FunctionError(AssembleFunctionError::ReturnTypeMismatch(s)),
            ) && s@ == n,
            CompileOutcome::InnerError(e) => r == Err::<AssemblyBuf, AssembleError>(
                AssembleError::FunctionError(AssembleFunctionError::GetReturnTypeError(e)),
            ),
        },
{
    let ghost all_items: Seq<ModItem> = module.items@;
    let ghost fns: Seq<FnDef> = spec_fn_defs(all_items);
    let ghost n: int = all_items.len() as int;

    // Reverse the items so each can be taken by value, in source order.
    let mut items = module.items;
    let mut rev: Vec<ModItem> = Vec::new();
    while items.len() > 0
        invariant
            items@ == all_items.take(items@.len() as int),
            rev@.len() + items@.len() == n,
            n == all_items.len(),
            forall|k: int| 0 <= k < rev@.len() ==> rev@[k] == all_items[n - 1 - k],
        decreases items@.len(),
    {
        let it = items.pop().unwrap();
        proof {
            assert(all_items.take(items@.len() as int) =~= all_items.take(
                items@.len() as int + 1,
            ).drop_last());
        }
        rev.push(it);
    }

    let mut entry_fn: Option<GlobalLabel> = None;
    let mut module_functions: Vec<Function> = Vec::new();
    let ghost mut i: int = 0;

    while rev.len() > 0
        invariant
            i == n - rev@.len(),
            0 <= i <= n,
            n == all_items.len(),
            fns == spec_fn_defs(all_items),
            forall|k: int| 0 <= k < rev@.len() ==> rev@[k] == all_items[n - 1 - k],
            spec_fn_defs(all_items.take(i)) == fns.take(module_functions@.len() as int),
            module_functions@.len() <= fns.len(),
            forall|j: int|
                0 <= j < module_functions@.len() ==> module_functions@[j] == spec_fn_of(fns[j]),
            forall|j: int| 0 <= j < module_functions@.len() ==> !spec_fail_at(fns, j),
            match entry_fn {
                Some(l) => l.0 < module_functions@.len() && spec_is_start(fns[l.0 as int]) && (
                forall|j: int| 0 <= j < l.0 ==> !spec_is_start(fns[j])),
                None => forall|j: int|
                    0 <= j < module_functions@.len() ==> !spec_is_start(fns[j]),
            },
        decreases rev@.len(),
    {
        let item = rev.pop().unwrap();
        proof {
            assert(item == all_items[i]);
        }
        match item {
            ModItem::Function(f) => {
                let ghost k = module_functions@.len() as int;
                proof {
                    lemma_fn_defs_step(all_items, i);
                    lemma_fn_defs_prefix(all_items, i + 1);
                    let p = spec_fn_defs(all_items.take(i + 1));
                    assert(p == fns.take(k).push(f));
                    assert(p.is_prefix_of(fns));
                    assert(k < fns.len());
                    assert(p[k] == f);
                    assert(p =~= fns.subrange(0, p.len() as int));
                    assert(fns[k] == f);
                    assert(fns.take(k).push(f) =~= fns.take(k + 1));
                }
                if table_contains_name(&module_functions, &f.name) {
                    proof {
                        let m = choose|m: int|
                            0 <= m < module_functions@.len() && module_functions@[m].name.0@
                                == f.name@;
                        assert(fns[m].name@ == fns[k].name@);
                        assert(spec_dup_at(fns, k));
                        lemma_first_fail_some_from(fns, 0, k);
                    }
                    return Err(
                        AssembleError::FunctionDeclaredMultipleTimes(
                            FnName(f.name).display_string(),
                        ),
                    );
                }
                proof {
                    assert(!spec_dup_at(fns, k)) by {
                        if spec_dup_at(fns, k) {
                            let m = choose|m: int| 0 <= m < k && fns[m].name@ == fns[k].name@;
                            assert(module_functions@[m].name.0@ == f.name@);
                        }
                    }
                }
                let is_start = is_start_label(&f);
                let FnDef { name, attrs, params, return_type, statements } = f;
                let result_fn = Function {
                    name: FnName(name),
                    arguments: params,
                    statements: statements,
                    return_type: return_type,
                    memory_location: None,
                };
                proof {
                    assert(result_fn == spec_fn_of(fns[k]));
                }
                module_functions.push(result_fn);
                if is_start {
                    if entry_fn.is_some() {
                        proof {
                            assert(spec_second_start_at(fns, k));
                            lemma_first_fail_some_from(fns, 0, k);
                        }
                        return Err(AssembleError::MultipleEntryPoints);
                    } else {
                        entry_fn = Some(GlobalLabel(module_functions.len() - 1));
                    }
                }
                proof {
                    i = i + 1;
                }
            },
            ModItem::Other => {
                proof {
                    lemma_fn_defs_step(all_items, i);
                    i = i + 1;
                }
            },
        }
    }
    proof {
        assert(all_items.take(n) =~= all_items);
        assert(fns.take(module_functions@.len() as int) == fns);
        assert(module_functions@.len() == fns.len());
        lemma_first_fail_none_from(fns, 0);
    }

    let entry_function = match entry_fn {
        Some(l) => l,
        None => {
            proof {
                lemma_first_start_none_from(fns, 0);
            }
            return Err(AssembleError::NoEntryFunction);
        },
    };
    proof {
        lemma_first_start_some_from(fns, 0, entry_function.0 as int);
    }

    // Forward-reference bookkeeping: every collected function starts as an
    // unresolved symbolic location; offsets are resolved once inter-function
    // calls are emitted.
    let mut fn_offset_map: Vec<FnLocation> = Vec::new();
    let mut t: usize = 0;
    while t < module_functions.len()
        invariant
            0 <= t <= module_functions@.len(),
            fn_offset_map@.len() == t,
            forall|m: int|
                0 <= m < t ==> fn_offset_map@[m] == FnLocation::UnresolvedFnName(
                    module_functions@[m].name,
                ),
        decreases module_functions@.len() - t,
    {
        let loc = FnLocation::UnresolvedFnName(module_functions[t].name.clone());
        fn_offset_map.push(loc);
        t = t + 1;
    }

    let assembly = match assemble_function(entry_function, &module_functions, &fn_offset_map) {
        Ok(a) => a,
        Err(e) => {
            return Err(AssembleError::FunctionError(e));
        },
    };

    Ok(AssemblyBuf { instructions: assembly })
}

} // verus!
