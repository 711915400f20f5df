use rustrait::decoder::ProstPlanDecoder;
use rustrait::error::{DecodeError, MissingField, TypeKind};
use rustrait::message::TypeMessage;
use rustrait::types::{
    nullability, nullability_under, NullabilityReading, Type, NULLABILITY_NULLABLE,
    NULLABILITY_REQUIRED, NULLABILITY_UNSPECIFIED,
};

#[test]
fn nullability_codes_have_their_wire_values() {
    assert_eq!(NULLABILITY_UNSPECIFIED, 0);
    assert_eq!(NULLABILITY_NULLABLE, 1);
    assert_eq!(NULLABILITY_REQUIRED, 2);
}

#[test]
fn nullability_of_the_nullable_code_is_false() {
    assert_eq!(nullability(1), Ok(false));
}

#[test]
fn nullability_of_the_required_code_is_true() {
    assert_eq!(nullability(2), Ok(true));
}

#[test]
fn nullability_refuses_the_unspecified_code() {
    assert_eq!(nullability(0), Err(DecodeError::InvalidNullability(0)));
}

#[test]
fn nullability_refuses_undefined_codes() {
    assert_eq!(nullability(3), Err(DecodeError::InvalidNullability(3)));
    assert_eq!(nullability(-1), Err(DecodeError::InvalidNullability(-1)));
    assert_eq!(
        nullability(i32::MAX),
        Err(DecodeError::InvalidNullability(i32::MAX))
    );
    assert_eq!(
        nullability(i32::MIN),
        Err(DecodeError::InvalidNullability(i32::MIN))
    );
}

#[test]
fn nullability_under_the_default_reading_agrees_with_nullability() {
    for code in [-2, -1, 0, 1, 2, 3, 4, 100] {
        assert_eq!(
            nullability_under(code, NullabilityReading::RequiredIsTrue),
            nullability(code)
        );
    }
}

#[test]
fn nullability_under_the_other_reading_is_the_opposite() {
    let reading = NullabilityReading::NullableIsTrue;
    assert_eq!(nullability_under(1, reading), Ok(true));
    assert_eq!(nullability_under(2, reading), Ok(false));
    assert_eq!(
        nullability_under(0, reading),
        Err(DecodeError::InvalidNullability(0))
    );
    assert_eq!(
        nullability_under(7, reading),
        Err(DecodeError::InvalidNullability(7))
    );
}

#[test]
fn each_modelled_type_kind_decodes_with_its_nullability() {
    let reading = NullabilityReading::RequiredIsTrue;
    assert_eq!(
        Type::from_message(&TypeMessage::I32 { nullability: 2 }, reading),
        Ok(Type::I32 { nullable: true })
    );
    assert_eq!(
        Type::from_message(&TypeMessage::I64 { nullability: 1 }, reading),
        Ok(Type::I64 { nullable: false })
    );
    assert_eq!(
        Type::from_message(&TypeMessage::Fp64 { nullability: 2 }, reading),
        Ok(Type::FP64 { nullable: true })
    );
    assert_eq!(
        Type::from_message(&TypeMessage::String { nullability: 1 }, reading),
        Ok(Type::String { nullable: false })
    );
}

#[test]
fn a_type_decodes_under_the_reading_it_is_given() {
    let reading = NullabilityReading::NullableIsTrue;
    assert_eq!(
        Type::from_message(&TypeMessage::I32 { nullability: 2 }, reading),
        Ok(Type::I32 { nullable: false })
    );
    assert_eq!(
        Type::from_message(&TypeMessage::String { nullability: 1 }, reading),
        Ok(Type::String { nullable: true })
    );
}

#[test]
fn a_type_with_an_invalid_nullability_is_refused() {
    let reading = NullabilityReading::RequiredIsTrue;
    assert_eq!(
        Type::from_message(&TypeMessage::I32 { nullability: 0 }, reading),
        Err(DecodeError::InvalidNullability(0))
    );
    assert_eq!(
        Type::from_message(&TypeMessage::I64 { nullability: 3 }, reading),
        Err(DecodeError::InvalidNullability(3))
    );
    assert_eq!(
        Type::from_message(&TypeMessage::Fp64 { nullability: -5 }, reading),
        Err(DecodeError::InvalidNullability(-5))
    );
    assert_eq!(
        Type::from_message(&TypeMessage::String { nullability: 9 }, reading),
        Err(DecodeError::InvalidNullability(9))
    );
}

#[test]
fn a_type_without_a_kind_is_malformed() {
    assert_eq!(
        Type::from_message(&TypeMessage::Unset, NullabilityReading::RequiredIsTrue),
        Err(DecodeError::MalformedPlan(MissingField::TypeKind))
    );
}

#[test]
fn an_unmodelled_type_kind_is_refused_by_name() {
    for kind in [
        TypeKind::Bool,
        TypeKind::I8,
        TypeKind::I16,
        TypeKind::Fp32,
        TypeKind::Binary,
        TypeKind::Decimal,
        TypeKind::Struct,
        TypeKind::List,
        TypeKind::MapType,
        TypeKind::UserDefined,
    ] {
        assert_eq!(
            Type::from_message(
                &TypeMessage::Unsupported(kind),
                NullabilityReading::RequiredIsTrue
            ),
            Err(DecodeError::UnsupportedType(kind))
        );
    }
}

#[test]
fn the_decoder_decodes_types_under_its_own_reading() {
    let default = ProstPlanDecoder::new();
    assert_eq!(
        default.decode_type(&TypeMessage::I64 { nullability: 2 }),
        Ok(Type::I64 { nullable: true })
    );
    let other = ProstPlanDecoder::with_reading(NullabilityReading::NullableIsTrue);
    assert_eq!(
        other.decode_type(&TypeMessage::I64 { nullability: 2 }),
        Ok(Type::I64 { nullable: false })
    );
}

#[test]
fn a_list_of_types_stops_at_its_first_failure() {
    let decoder = ProstPlanDecoder::new();
    let types = vec![
        TypeMessage::I32 { nullability: 2 },
        TypeMessage::Unsupported(TypeKind::Decimal),
        TypeMessage::I64 { nullability: 0 },
    ];
    assert_eq!(
        decoder.decode_types(&types),
        Err(DecodeError::UnsupportedType(TypeKind::Decimal))
    );
    let types = vec![
        TypeMessage::I32 { nullability: 2 },
        TypeMessage::I64 { nullability: 0 },
        TypeMessage::Unsupported(TypeKind::Decimal),
    ];
    assert_eq!(
        decoder.decode_types(&types),
        Err(DecodeError::InvalidNullability(0))
    );
}

#[test]
fn an_empty_list_of_types_decodes_to_an_empty_list() {
    let decoder = ProstPlanDecoder::new();
    assert_eq!(decoder.decode_types(&Vec::new()), Ok(Vec::new()));
}
