use gsr_jit::ast::{FnDef, IdentPath, IntLiteral, IntSuffix, ModItem, Module, Stmt, TypeAnn};
use gsr_jit::compile;
use gsr_jit::compiler::{
    AssembleError, AssembleFunctionError, GetReturnTypeInnerError, TryMatchError,
};

fn path(name: &str) -> IdentPath {
    IdentPath {
        leading_colon: false,
        segments: vec![name.to_string()],
    }
}

fn int_stmt(value: u64, suffix: IntSuffix) -> Stmt {
    Stmt::IntExpr(IntLiteral { value, suffix })
}

fn func(name: &str, entry: bool, return_type: Option<TypeAnn>, statements: Vec<Stmt>) -> ModItem {
    ModItem::Function(FnDef {
        name: name.to_string(),
        attrs: if entry { vec![path("start")] } else { vec![] },
        params: vec![],
        return_type,
        statements,
    })
}

fn module(items: Vec<ModItem>) -> Module {
    Module { items }
}

fn u64_ann() -> Option<TypeAnn> {
    Some(TypeAnn::Path(path("u64")))
}

fn u8_ann() -> Option<TypeAnn> {
    Some(TypeAnn::Path(path("u8")))
}

#[test]
fn entry_u64_literal_four_round_trip() {
    // One entry function, no parameters, declared `u64`, body `4`. The
    // literal's minimal width is U8, so the 64-bit return is narrowed to the
    // 32-bit-register move: one-byte opcode 0xB8 with a 4-byte immediate,
    // framed by the fixed prologue and epilogue.
    let m = module(vec![func(
        "main",
        true,
        u64_ann(),
        vec![int_stmt(4, IntSuffix::Unsuffixed)],
    )]);
    let buf = compile(m).expect("compilation should succeed");
    assert_eq!(
        buf.instructions,
        vec![0x55, 0x48, 0x89, 0xE5, 0xB8, 0x04, 0x00, 0x00, 0x00, 0x5D, 0xC3]
    );
}

#[test]
fn entry_u8_literal_four() {
    let m = module(vec![func(
        "main",
        true,
        u8_ann(),
        vec![int_stmt(4, IntSuffix::Unsuffixed)],
    )]);
    let buf = compile(m).expect("compilation should succeed");
    assert_eq!(
        buf.instructions,
        vec![0x55, 0x48, 0x89, 0xE5, 0xB0, 0x04, 0x5D, 0xC3]
    );
}

#[test]
fn entry_u16_literal() {
    let m = module(vec![func(
        "main",
        true,
        Some(TypeAnn::Path(path("u16"))),
        vec![int_stmt(0x1234, IntSuffix::Unsuffixed)],
    )]);
    let buf = compile(m).expect("compilation should succeed");
    assert_eq!(
        buf.instructions,
        vec![0x55, 0x48, 0x89, 0xE5, 0x66, 0xB8, 0x34, 0x12, 0x5D, 0xC3]
    );
}

#[test]
fn entry_u64_wide_literal_keeps_movabs() {
    // 0x1_0000_0000 has minimal width U64, so no narrowing happens: REX
    // prefix pair 0x48 0xB8 with a full 8-byte little-endian immediate.
    let m = module(vec![func(
        "main",
        true,
        u64_ann(),
        vec![int_stmt(0x1_0000_0000, IntSuffix::Unsuffixed)],
    )]);
    let buf = compile(m).expect("compilation should succeed");
    assert_eq!(
        buf.instructions,
        vec![
            0x55, 0x48, 0x89, 0xE5, 0x48, 0xB8, 0x00, 0x00, 0x00, 0x00, 0x01, 0x00, 0x00, 0x00,
            0x5D, 0xC3
        ]
    );
}

#[test]
fn every_integer_literal_statement_is_emitted() {
    let m = module(vec![func(
        "main",
        true,
        u8_ann(),
        vec![
            int_stmt(1, IntSuffix::Unsuffixed),
            int_stmt(2, IntSuffix::Unsuffixed),
        ],
    )]);
    let buf = compile(m).expect("compilation should succeed");
    assert_eq!(
        buf.instructions,
        vec![0x55, 0x48, 0x89, 0xE5, 0xB0, 0x01, 0xB0, 0x02, 0x5D, 0xC3]
    );
}

#[test]
fn non_function_items_are_ignored() {
    let m = module(vec![
        ModItem::Other,
        func("main", true, u8_ann(), vec![int_stmt(7, IntSuffix::Unsuffixed)]),
        ModItem::Other,
    ]);
    let buf = compile(m).expect("compilation should succeed");
    assert_eq!(
        buf.instructions,
        vec![0x55, 0x48, 0x89, 0xE5, 0xB0, 0x07, 0x5D, 0xC3]
    );
}

#[test]
fn entry_need_not_be_first() {
    let m = module(vec![
        func("helper", false, u8_ann(), vec![int_stmt(1, IntSuffix::Unsuffixed)]),
        func("main", true, u8_ann(), vec![int_stmt(9, IntSuffix::Unsuffixed)]),
    ]);
    let buf = compile(m).expect("compilation should succeed");
    assert_eq!(
        buf.instructions,
        vec![0x55, 0x48, 0x89, 0xE5, 0xB0, 0x09, 0x5D, 0xC3]
    );
}

#[test]
fn zero_entries_fails_no_entry() {
    let m = module(vec![func(
        "main",
        false,
        u8_ann(),
        vec![int_stmt(4, IntSuffix::Unsuffixed)],
    )]);
    assert_eq!(compile(m).unwrap_err(), AssembleError::NoEntryFunction);
}

#[test]
fn empty_module_fails_no_entry() {
    assert_eq!(
        compile(module(vec![])).unwrap_err(),
        AssembleError::NoEntryFunction
    );
}

#[test]
fn two_entries_fails_multiple_entry_points() {
    let m = module(vec![
        func("a", true, u8_ann(), vec![int_stmt(1, IntSuffix::Unsuffixed)]),
        func("b", true, u8_ann(), vec![int_stmt(2, IntSuffix::Unsuffixed)]),
    ]);
    assert_eq!(compile(m).unwrap_err(), AssembleError::MultipleEntryPoints);
}

#[test]
fn duplicate_name_fails_declared_multiple_times() {
    let m = module(vec![
        func("twice", true, u8_ann(), vec![int_stmt(1, IntSuffix::Unsuffixed)]),
        func("twice", false, u8_ann(), vec![int_stmt(2, IntSuffix::Unsuffixed)]),
    ]);
    assert_eq!(
        compile(m).unwrap_err(),
        AssembleError::FunctionDeclaredMultipleTimes("fn twice".to_string())
    );
}

#[test]
fn duplicate_before_second_entry_wins() {
    // The duplicate at the second declaration is hit before the second entry
    // marker at the third: collection stops at the duplicate.
    let m = module(vec![
        func("a", true, u8_ann(), vec![int_stmt(1, IntSuffix::Unsuffixed)]),
        func("a", false, u8_ann(), vec![int_stmt(2, IntSuffix::Unsuffixed)]),
        func("b", true, u8_ann(), vec![int_stmt(3, IntSuffix::Unsuffixed)]),
    ]);
    assert_eq!(
        compile(m).unwrap_err(),
        AssembleError::FunctionDeclaredMultipleTimes("fn a".to_string())
    );
}

#[test]
fn duplicate_is_reported_even_when_it_carries_a_second_entry_marker() {
    // On one and the same declaration the name is checked before the marker.
    let m = module(vec![
        func("a", true, u8_ann(), vec![int_stmt(1, IntSuffix::Unsuffixed)]),
        func("a", true, u8_ann(), vec![int_stmt(2, IntSuffix::Unsuffixed)]),
    ]);
    assert_eq!(
        compile(m).unwrap_err(),
        AssembleError::FunctionDeclaredMultipleTimes("fn a".to_string())
    );
}

#[test]
fn empty_body_fails_empty_function() {
    let m = module(vec![func("main", true, u8_ann(), vec![])]);
    assert_eq!(
        compile(m).unwrap_err(),
        AssembleError::FunctionError(AssembleFunctionError::GetReturnTypeError(
            GetReturnTypeInnerError::EmptyFunction
        ))
    );
}

#[test]
fn non_literal_last_statement_fails_unexpected_expression() {
    let m = module(vec![func("main", true, u8_ann(), vec![Stmt::Other])]);
    assert_eq!(
        compile(m).unwrap_err(),
        AssembleError::FunctionError(AssembleFunctionError::GetReturnTypeError(
            GetReturnTypeInnerError::UnexpectedExpressionType
        ))
    );
}

#[test]
fn no_annotation_fails_unexpected_expression() {
    // Without an annotation the expected kind is Void, which inference does
    // not accept a literal body for.
    let m = module(vec![func(
        "main",
        true,
        None,
        vec![int_stmt(4, IntSuffix::Unsuffixed)],
    )]);
    assert_eq!(
        compile(m).unwrap_err(),
        AssembleError::FunctionError(AssembleFunctionError::GetReturnTypeError(
            GetReturnTypeInnerError::UnexpectedExpressionType
        ))
    );
}

#[test]
fn oversized_literal_fails_return_value_doesnt_fit() {
    // 0xFF has minimal width U16 under the strict boundary, so it does not
    // fit a declared u8.
    let m = module(vec![func(
        "main",
        true,
        u8_ann(),
        vec![int_stmt(0xFF, IntSuffix::Unsuffixed)],
    )]);
    assert_eq!(
        compile(m).unwrap_err(),
        AssembleError::FunctionError(AssembleFunctionError::GetReturnTypeError(
            GetReturnTypeInnerError::TryMatchValueError(TryMatchError::ReturnValueDoesntFit(0xFF))
        ))
    );
}

#[test]
fn suffix_mismatch_fails_return_type_mismatch() {
    // A u16-suffixed literal infers U16 regardless of the declared u8.
    let m = module(vec![func(
        "main",
        true,
        u8_ann(),
        vec![int_stmt(4, IntSuffix::U16)],
    )]);
    assert_eq!(
        compile(m).unwrap_err(),
        AssembleError::FunctionError(AssembleFunctionError::ReturnTypeMismatch(
            "fn main".to_string()
        ))
    );
}

#[test]
fn qualified_return_path_is_no_constraint() {
    // A leading `::` disqualifies the annotation, leaving Void, which the
    // literal body then mismatches at inference.
    let m = module(vec![func(
        "main",
        true,
        Some(TypeAnn::Path(IdentPath {
            leading_colon: true,
            segments: vec!["u8".to_string()],
        })),
        vec![int_stmt(4, IntSuffix::Unsuffixed)],
    )]);
    assert_eq!(
        compile(m).unwrap_err(),
        AssembleError::FunctionError(AssembleFunctionError::GetReturnTypeError(
            GetReturnTypeInnerError::UnexpectedExpressionType
        ))
    );
}

#[test]
fn qualified_start_attribute_is_no_marker() {
    let m = module(vec![ModItem::Function(FnDef {
        name: "main".to_string(),
        attrs: vec![IdentPath {
            leading_colon: true,
            segments: vec!["start".to_string()],
        }],
        params: vec![],
        return_type: u8_ann(),
        statements: vec![int_stmt(4, IntSuffix::Unsuffixed)],
    })]);
    assert_eq!(compile(m).unwrap_err(), AssembleError::NoEntryFunction);
}
