use rustrait::decoder::ProstPlanDecoder;
use rustrait::error::{DecodeError, ExpressionKind, FieldReferenceKind, MissingField, TypeKind};
use rustrait::message::{
    ExpressionMessage, ExtensionFunctionMessage, ExtensionMessage, ExtensionUriMessage,
    FieldReferenceMessage, FunctionArgumentMessage, LiteralMessage, LiteralValueMessage,
    PlanMessage, ReferenceMessage, ReferenceRootMessage, ScalarFunctionMessage, SegmentMessage,
    TypeMessage,
};
use rustrait::plans::expressions::field_reference::FieldReference;
use rustrait::plans::expressions::literal::{Literal, I64};
use rustrait::plans::expressions::scalar_function::ScalarFunctionInvocation;
use rustrait::plans::expressions::{Expression, Function, FunctionArgument, FunctionSignature, URI};
use rustrait::types::{NullabilityReading, Type};

fn decoder_with_add() -> ProstPlanDecoder {
    let plan = PlanMessage {
        extension_uris: vec![ExtensionUriMessage {
            extension_uri_anchor: 1,
            uri: "u1".to_string(),
        }],
        extensions: vec![ExtensionMessage::ExtensionFunction(
            ExtensionFunctionMessage {
                extension_uri_reference: 1,
                function_anchor: 7,
                name: "add".to_string(),
            },
        )],
        relations: Vec::new(),
    };
    let mut decoder = ProstPlanDecoder::new();
    assert_eq!(decoder.gather_extensions(&plan), Ok(()));
    decoder
}

fn add() -> Function {
    Function {
        signature: FunctionSignature("add".to_string()),
        extension: URI("u1".to_string()),
    }
}

fn literal(value: i64) -> ExpressionMessage {
    ExpressionMessage::Literal(LiteralMessage {
        nullable: false,
        value: LiteralValueMessage::I64(value),
    })
}

fn field(field: i32) -> ExpressionMessage {
    ExpressionMessage::Selection(FieldReferenceMessage {
        root: ReferenceRootMessage::RootReference,
        reference: ReferenceMessage::Direct(SegmentMessage::StructField {
            field,
            has_child: false,
        }),
    })
}

fn call(reference: u32, arguments: Vec<FunctionArgumentMessage>) -> ExpressionMessage {
    ExpressionMessage::ScalarFunction(ScalarFunctionMessage {
        function_reference: reference,
        arguments,
        output_type: Some(TypeMessage::I64 { nullability: 2 }),
    })
}

fn decoded_literal(value: i64) -> Expression {
    Expression::Literal(Literal::I64(I64 {
        value,
        nullable: false,
    }))
}

#[test]
fn a_literal_expression_decodes_to_its_literal() {
    let decoder = ProstPlanDecoder::new();
    assert_eq!(decoder.decode_expression(&literal(42)), Ok(decoded_literal(42)));
}

#[test]
fn a_selection_decodes_to_its_field_reference() {
    let decoder = ProstPlanDecoder::new();
    assert_eq!(
        decoder.decode_expression(&field(2)),
        Ok(Expression::FieldReference(FieldReference { field: 2 }))
    );
}

#[test]
fn an_expression_without_a_type_is_malformed() {
    let decoder = ProstPlanDecoder::new();
    assert_eq!(
        decoder.decode_expression(&ExpressionMessage::Unset),
        Err(DecodeError::MalformedPlan(MissingField::RexType))
    );
}

#[test]
fn an_unmodelled_expression_type_is_refused_by_name() {
    let decoder = ProstPlanDecoder::new();
    for kind in [
        ExpressionKind::WindowFunction,
        ExpressionKind::IfThen,
        ExpressionKind::SwitchExpression,
        ExpressionKind::SingularOrList,
        ExpressionKind::MultiOrList,
        ExpressionKind::Cast,
        ExpressionKind::Subquery,
        ExpressionKind::Nested,
        ExpressionKind::Enum,
    ] {
        assert_eq!(
            decoder.decode_expression(&ExpressionMessage::Unsupported(kind)),
            Err(DecodeError::UnsupportedExpressionType(kind))
        );
    }
}

#[test]
fn a_registered_anchor_yields_exactly_its_function() {
    let decoder = decoder_with_add();
    let outcome = decoder.decode_expression(&call(7, Vec::new()));
    assert_eq!(
        outcome,
        Ok(Expression::ScalarFunction(ScalarFunctionInvocation {
            function: add(),
            args: Vec::new(),
            output_type: Type::I64 { nullable: true },
        }))
    );
}

#[test]
fn an_unregistered_anchor_is_an_unresolved_function_reference() {
    let decoder = decoder_with_add();
    assert_eq!(
        decoder.decode_expression(&call(99, Vec::new())),
        Err(DecodeError::UnresolvedFunctionReference(99))
    );
}

#[test]
fn arguments_keep_their_order_and_kinds() {
    let decoder = decoder_with_add();
    let message = call(
        7,
        vec![
            FunctionArgumentMessage::Value(field(0)),
            FunctionArgumentMessage::Enum("SILENT".to_string()),
            FunctionArgumentMessage::Type(TypeMessage::Fp64 { nullability: 1 }),
            FunctionArgumentMessage::Value(literal(5)),
        ],
    );
    assert_eq!(
        decoder.decode_expression(&message),
        Ok(Expression::ScalarFunction(ScalarFunctionInvocation {
            function: add(),
            args: vec![
                FunctionArgument::Value(Expression::FieldReference(FieldReference { field: 0 })),
                FunctionArgument::Enum("SILENT".to_string()),
                FunctionArgument::Type(Type::FP64 { nullable: false }),
                FunctionArgument::Value(decoded_literal(5)),
            ],
            output_type: Type::I64 { nullable: true },
        }))
    );
}

#[test]
fn nested_invocations_decode_inside_out() {
    let decoder = decoder_with_add();
    let inner = call(
        7,
        vec![
            FunctionArgumentMessage::Value(literal(1)),
            FunctionArgumentMessage::Value(literal(2)),
        ],
    );
    let message = call(
        7,
        vec![
            FunctionArgumentMessage::Value(inner),
            FunctionArgumentMessage::Value(call(7, Vec::new())),
            FunctionArgumentMessage::Value(literal(3)),
        ],
    );
    let decoded_inner = Expression::ScalarFunction(ScalarFunctionInvocation {
        function: add(),
        args: vec![
            FunctionArgument::Value(decoded_literal(1)),
            FunctionArgument::Value(decoded_literal(2)),
        ],
        output_type: Type::I64 { nullable: true },
    });
    let decoded_empty = Expression::ScalarFunction(ScalarFunctionInvocation {
        function: add(),
        args: Vec::new(),
        output_type: Type::I64 { nullable: true },
    });
    assert_eq!(
        decoder.decode_expression(&message),
        Ok(Expression::ScalarFunction(ScalarFunctionInvocation {
            function: add(),
            args: vec![
                FunctionArgument::Value(decoded_inner),
                FunctionArgument::Value(decoded_empty),
                FunctionArgument::Value(decoded_literal(3)),
            ],
            output_type: Type::I64 { nullable: true },
        }))
    );
}

#[test]
fn an_argument_failure_comes_before_an_unresolved_function() {
    let decoder = decoder_with_add();
    let message = call(
        99,
        vec![
            FunctionArgumentMessage::Value(literal(1)),
            FunctionArgumentMessage::Unset,
        ],
    );
    assert_eq!(
        decoder.decode_expression(&message),
        Err(DecodeError::MalformedPlan(MissingField::ArgType))
    );
}

#[test]
fn the_first_failing_argument_is_the_one_reported() {
    let decoder = decoder_with_add();
    let message = call(
        7,
        vec![
            FunctionArgumentMessage::Value(literal(1)),
            FunctionArgumentMessage::Type(TypeMessage::Unsupported(TypeKind::Decimal)),
            FunctionArgumentMessage::Value(ExpressionMessage::Unset),
        ],
    );
    assert_eq!(
        decoder.decode_expression(&message),
        Err(DecodeError::UnsupportedType(TypeKind::Decimal))
    );
}

#[test]
fn a_failure_deep_inside_an_argument_fails_the_whole_expression() {
    let decoder = decoder_with_add();
    let bad = ExpressionMessage::Selection(FieldReferenceMessage {
        root: ReferenceRootMessage::RootReference,
        reference: ReferenceMessage::Masked,
    });
    let message = call(
        7,
        vec![
            FunctionArgumentMessage::Value(literal(1)),
            FunctionArgumentMessage::Value(call(
                7,
                vec![FunctionArgumentMessage::Value(call(
                    7,
                    vec![FunctionArgumentMessage::Value(bad)],
                ))],
            )),
            FunctionArgumentMessage::Value(call(99, Vec::new())),
        ],
    );
    assert_eq!(
        decoder.decode_expression(&message),
        Err(DecodeError::UnsupportedFieldReference(
            FieldReferenceKind::MaskedReference
        ))
    );
}

#[test]
fn an_unresolved_function_comes_before_the_output_type() {
    let decoder = decoder_with_add();
    let message = ExpressionMessage::ScalarFunction(ScalarFunctionMessage {
        function_reference: 99,
        arguments: Vec::new(),
        output_type: None,
    });
    assert_eq!(
        decoder.decode_expression(&message),
        Err(DecodeError::UnresolvedFunctionReference(99))
    );
}

#[test]
fn an_invocation_without_an_output_type_is_malformed() {
    let decoder = decoder_with_add();
    let message = ExpressionMessage::ScalarFunction(ScalarFunctionMessage {
        function_reference: 7,
        arguments: Vec::new(),
        output_type: None,
    });
    assert_eq!(
        decoder.decode_expression(&message),
        Err(DecodeError::MalformedPlan(MissingField::OutputType))
    );
}

#[test]
fn an_invocation_with_an_unmodelled_output_type_is_refused() {
    let decoder = decoder_with_add();
    let message = ExpressionMessage::ScalarFunction(ScalarFunctionMessage {
        function_reference: 7,
        arguments: Vec::new(),
        output_type: Some(TypeMessage::Unsupported(TypeKind::Bool)),
    });
    assert_eq!(
        decoder.decode_expression(&message),
        Err(DecodeError::UnsupportedType(TypeKind::Bool))
    );
}

#[test]
fn the_output_type_is_decoded_under_the_decoder_reading() {
    let plan = PlanMessage {
        extension_uris: vec![ExtensionUriMessage {
            extension_uri_anchor: 1,
            uri: "u1".to_string(),
        }],
        extensions: vec![ExtensionMessage::ExtensionFunction(
            ExtensionFunctionMessage {
                extension_uri_reference: 1,
                function_anchor: 7,
                name: "add".to_string(),
            },
        )],
        relations: Vec::new(),
    };
    let mut decoder = ProstPlanDecoder::with_reading(NullabilityReading::NullableIsTrue);
    assert_eq!(decoder.gather_extensions(&plan), Ok(()));
    assert_eq!(
        decoder.decode_expression(&call(7, Vec::new())),
        Ok(Expression::ScalarFunction(ScalarFunctionInvocation {
            function: add(),
            args: Vec::new(),
            output_type: Type::I64 { nullable: false },
        }))
    );
}

#[test]
fn each_kind_of_argument_decodes_on_its_own() {
    let decoder = decoder_with_add();
    assert_eq!(
        decoder.decode_function_argument(&FunctionArgumentMessage::Enum("ERROR".to_string())),
        Ok(FunctionArgument::Enum("ERROR".to_string()))
    );
    assert_eq!(
        decoder.decode_function_argument(&FunctionArgumentMessage::Type(TypeMessage::I32 {
            nullability: 2
        })),
        Ok(FunctionArgument::Type(Type::I32 { nullable: true }))
    );
    assert_eq!(
        decoder.decode_function_argument(&FunctionArgumentMessage::Value(literal(8))),
        Ok(FunctionArgument::Value(decoded_literal(8)))
    );
    assert_eq!(
        decoder.decode_function_argument(&FunctionArgumentMessage::Unset),
        Err(DecodeError::MalformedPlan(MissingField::ArgType))
    );
    assert_eq!(
        decoder.decode_function_argument(&FunctionArgumentMessage::Value(call(99, Vec::new()))),
        Err(DecodeError::UnresolvedFunctionReference(99))
    );
}

#[test]
fn a_list_of_expressions_keeps_its_order() {
    let decoder = ProstPlanDecoder::new();
    assert_eq!(
        decoder.decode_expressions(&vec![literal(3), field(1), literal(2)]),
        Ok(vec![
            decoded_literal(3),
            Expression::FieldReference(FieldReference { field: 1 }),
            decoded_literal(2),
        ])
    );
    assert_eq!(decoder.decode_expressions(&Vec::new()), Ok(Vec::new()));
}

#[test]
fn a_list_of_expressions_stops_at_its_first_failure() {
    let decoder = ProstPlanDecoder::new();
    assert_eq!(
        decoder.decode_expressions(&vec![
            literal(3),
            ExpressionMessage::Unsupported(ExpressionKind::Cast),
            ExpressionMessage::Unset,
        ]),
        Err(DecodeError::UnsupportedExpressionType(ExpressionKind::Cast))
    );
}

#[test]
fn a_very_deep_expression_decodes_without_deep_calls() {
    let depth: usize = 200_000;
    let decoder = decoder_with_add();
    let mut message = literal(1);
    for _ in 0..depth {
        message = call(
            7,
            vec![
                FunctionArgumentMessage::Enum("x".to_string()),
                FunctionArgumentMessage::Value(message),
            ],
        );
    }
    let outcome = decoder.decode_expression(&message);
    let decoded = match outcome {
        Ok(decoded) => decoded,
        Err(e) => panic!("the deep expression was refused: {:?}", e),
    };
    let mut levels: usize = 0;
    let mut current = &decoded;
    loop {
        match current {
            Expression::ScalarFunction(invocation) => {
                assert_eq!(invocation.args.len(), 2);
                match &invocation.args[1] {
                    FunctionArgument::Value(inner) => {
                        current = inner;
                    }
                    _ => panic!("the second argument is not a value"),
                }
                levels += 1;
            }
            Expression::Literal(found) => {
                assert_eq!(
                    *found,
                    Literal::I64(I64 {
                        value: 1,
                        nullable: false
                    })
                );
                break;
            }
            _ => panic!("an expression of another kind came out"),
        }
    }
    assert_eq!(levels, depth);
    std::mem::forget(decoded);
    std::mem::forget(message);
}
