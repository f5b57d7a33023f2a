use gsr_jit::compiler::{
    determine_minimal_size, transform_u16_to_array_of_u8_le, transform_u32_to_array_of_u8_le,
    transform_u64_to_array_of_u8_le, try_match_u64_value, Instruction, Ret, StaticIntLiteral,
    TryMatchError,
};

#[test]
fn minimal_size_boundaries_are_strict() {
    assert_eq!(determine_minimal_size(0), StaticIntLiteral::U8);
    assert_eq!(determine_minimal_size(0xFE), StaticIntLiteral::U8);
    assert_eq!(determine_minimal_size(0xFF), StaticIntLiteral::U16);
    assert_eq!(determine_minimal_size(0xFFFE), StaticIntLiteral::U16);
    assert_eq!(determine_minimal_size(0xFFFF), StaticIntLiteral::U32);
    assert_eq!(determine_minimal_size(0xFFFF_FFFE), StaticIntLiteral::U32);
    assert_eq!(determine_minimal_size(0xFFFF_FFFF), StaticIntLiteral::U64);
    assert_eq!(determine_minimal_size(u64::MAX), StaticIntLiteral::U64);
}

#[test]
fn size_fit_rule_accepts_and_rejects() {
    assert_eq!(
        try_match_u64_value(4, &StaticIntLiteral::U8),
        Ok(Ret::Int(StaticIntLiteral::U8))
    );
    assert_eq!(
        try_match_u64_value(0xFF, &StaticIntLiteral::U8),
        Err(TryMatchError::ReturnValueDoesntFit(0xFF))
    );
    assert_eq!(
        try_match_u64_value(0xFF, &StaticIntLiteral::U16),
        Ok(Ret::Int(StaticIntLiteral::U16))
    );
    assert_eq!(
        try_match_u64_value(0xFFFF, &StaticIntLiteral::U16),
        Err(TryMatchError::ReturnValueDoesntFit(0xFFFF))
    );
    assert_eq!(
        try_match_u64_value(0xFFFF, &StaticIntLiteral::U32),
        Ok(Ret::Int(StaticIntLiteral::U32))
    );
    assert_eq!(
        try_match_u64_value(0xFFFF_FFFF, &StaticIntLiteral::U32),
        Err(TryMatchError::ReturnValueDoesntFit(0xFFFF_FFFF))
    );
    // U64 accepts everything.
    assert_eq!(
        try_match_u64_value(u64::MAX, &StaticIntLiteral::U64),
        Ok(Ret::Int(StaticIntLiteral::U64))
    );
    // A signed expected kind never fits an unsuffixed literal.
    assert_eq!(
        try_match_u64_value(1, &StaticIntLiteral::I32),
        Err(TryMatchError::ReturnValueDoesntFit(1))
    );
}

#[test]
fn opcode_selection_by_width() {
    assert_eq!(
        Ret::Int(StaticIntLiteral::U8).get_optimal_register_return(),
        Some(Instruction::OneComponent(0xB0))
    );
    assert_eq!(
        Ret::Int(StaticIntLiteral::U16).get_optimal_register_return(),
        Some(Instruction::TwoComponent((0x66, 0xB8)))
    );
    assert_eq!(
        Ret::Int(StaticIntLiteral::U32).get_optimal_register_return(),
        Some(Instruction::OneComponent(0xB8))
    );
    assert_eq!(
        Ret::Int(StaticIntLiteral::U64).get_optimal_register_return(),
        Some(Instruction::TwoComponent((0x48, 0xB8)))
    );
    assert_eq!(Ret::Bool.get_optimal_register_return(), None);
    assert_eq!(Ret::Void.get_optimal_register_return(), None);
    assert_eq!(
        Ret::Int(StaticIntLiteral::UnknownSize(7)).get_optimal_register_return(),
        None
    );
}

#[test]
fn little_endian_transforms_are_exact() {
    assert_eq!(transform_u16_to_array_of_u8_le(0x1234), [0x34, 0x12]);
    assert_eq!(
        transform_u32_to_array_of_u8_le(0xDEAD_BEEF),
        [0xEF, 0xBE, 0xAD, 0xDE]
    );
    assert_eq!(
        transform_u64_to_array_of_u8_le(0x0123_4567_89AB_CDEF),
        [0xEF, 0xCD, 0xAB, 0x89, 0x67, 0x45, 0x23, 0x01]
    );
    assert_eq!(transform_u64_to_array_of_u8_le(0), [0; 8]);
}
