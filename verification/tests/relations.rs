use rustrait::decoder::{decode_prost_plan, ProstPlanDecoder};
use rustrait::error::{DecodeError, ExpressionKind, MissingField, RelationKind, TypeKind};
use rustrait::message::{
    ExpressionMessage, ExtensionFunctionMessage, ExtensionMessage, ExtensionUriMessage,
    FieldReferenceMessage, FunctionArgumentMessage, LiteralMessage, LiteralValueMessage,
    NamedStructMessage, PlanMessage, PlanRelMessage, ProjectMessage, ReadMessage,
    ReferenceMessage, ReferenceRootMessage, RelMessage, ScalarFunctionMessage, SegmentMessage,
    TypeMessage,
};
use rustrait::plans::expressions::field_reference::FieldReference;
use rustrait::plans::expressions::literal::{Literal, I64};
use rustrait::plans::expressions::scalar_function::ScalarFunctionInvocation;
use rustrait::plans::expressions::{Expression, Function, FunctionArgument, FunctionSignature, URI};
use rustrait::plans::{Plan, Project, Read, Rel};
use rustrait::types::{NamedStruct, NullabilityReading, Type};

fn schema() -> NamedStructMessage {
    NamedStructMessage {
        names: vec!["a".to_string(), "b".to_string(), "c".to_string()],
        types: Some(vec![
            TypeMessage::I64 { nullability: 2 },
            TypeMessage::Fp64 { nullability: 1 },
            TypeMessage::String { nullability: 2 },
        ]),
    }
}

fn read() -> RelMessage {
    RelMessage::Read(ReadMessage {
        base_schema: Some(schema()),
    })
}

fn decoded_schema() -> NamedStruct {
    NamedStruct {
        names: vec!["a".to_string(), "b".to_string(), "c".to_string()],
        types: vec![
            Type::I64 { nullable: true },
            Type::FP64 { nullable: false },
            Type::String { nullable: true },
        ],
    }
}

fn decoded_read() -> Rel {
    Rel::Read(Read {
        base_schema: decoded_schema(),
    })
}

fn field(field: i32) -> ExpressionMessage {
    ExpressionMessage::Selection(FieldReferenceMessage {
        root: ReferenceRootMessage::RootReference,
        reference: ReferenceMessage::Direct(SegmentMessage::StructField {
            field,
            has_child: false,
        }),
    })
}

fn literal(value: i64) -> ExpressionMessage {
    ExpressionMessage::Literal(LiteralMessage {
        nullable: false,
        value: LiteralValueMessage::I64(value),
    })
}

fn project(input: RelMessage, expressions: Vec<ExpressionMessage>) -> RelMessage {
    RelMessage::Project(ProjectMessage {
        input: Some(Box::new(input)),
        expressions,
    })
}

fn plan_of(rel: RelMessage) -> PlanMessage {
    PlanMessage {
        extension_uris: Vec::new(),
        extensions: Vec::new(),
        relations: vec![PlanRelMessage::Rel(rel)],
    }
}

#[test]
fn a_read_keeps_order_names_kinds_and_nullability() {
    let decoder = ProstPlanDecoder::new();
    assert_eq!(decoder.decode_relation(&read()), Ok(decoded_read()));
}

#[test]
fn a_read_under_the_other_reading_flips_every_nullability() {
    let decoder = ProstPlanDecoder::with_reading(NullabilityReading::NullableIsTrue);
    assert_eq!(
        decoder.decode_relation(&read()),
        Ok(Rel::Read(Read {
            base_schema: NamedStruct {
                names: vec!["a".to_string(), "b".to_string(), "c".to_string()],
                types: vec![
                    Type::I64 { nullable: false },
                    Type::FP64 { nullable: true },
                    Type::String { nullable: false },
                ],
            },
        }))
    );
}

#[test]
fn a_named_struct_may_have_more_names_than_types() {
    let decoder = ProstPlanDecoder::new();
    let message = NamedStructMessage {
        names: vec!["a".to_string(), "b".to_string()],
        types: Some(vec![TypeMessage::I32 { nullability: 1 }]),
    };
    assert_eq!(
        decoder.decode_named_struct(&message),
        Ok(NamedStruct {
            names: vec!["a".to_string(), "b".to_string()],
            types: vec![Type::I32 { nullable: false }],
        })
    );
}

#[test]
fn an_empty_named_struct_decodes_to_an_empty_schema() {
    let decoder = ProstPlanDecoder::new();
    let message = NamedStructMessage {
        names: Vec::new(),
        types: Some(Vec::new()),
    };
    assert_eq!(
        decoder.decode_named_struct(&message),
        Ok(NamedStruct {
            names: Vec::new(),
            types: Vec::new(),
        })
    );
}

#[test]
fn a_named_struct_without_types_is_malformed() {
    let decoder = ProstPlanDecoder::new();
    let message = NamedStructMessage {
        names: vec!["a".to_string()],
        types: None,
    };
    assert_eq!(
        decoder.decode_named_struct(&message),
        Err(DecodeError::MalformedPlan(MissingField::SchemaStruct))
    );
}

#[test]
fn a_named_struct_fails_as_its_first_failing_type() {
    let decoder = ProstPlanDecoder::new();
    let message = NamedStructMessage {
        names: vec!["a".to_string(), "b".to_string(), "c".to_string()],
        types: Some(vec![
            TypeMessage::I32 { nullability: 1 },
            TypeMessage::Unset,
            TypeMessage::Unsupported(TypeKind::Uuid),
        ]),
    };
    assert_eq!(
        decoder.decode_named_struct(&message),
        Err(DecodeError::MalformedPlan(MissingField::TypeKind))
    );
}

#[test]
fn a_read_without_a_base_schema_is_malformed() {
    let decoder = ProstPlanDecoder::new();
    assert_eq!(
        decoder.decode_read(&ReadMessage { base_schema: None }),
        Err(DecodeError::MalformedPlan(MissingField::BaseSchema))
    );
    assert_eq!(
        decoder.decode_read(&ReadMessage {
            base_schema: Some(schema())
        }),
        Ok(Read {
            base_schema: decoded_schema()
        })
    );
}

#[test]
fn a_project_over_a_read_keeps_input_and_expression_order() {
    let decoder = ProstPlanDecoder::new();
    let message = project(read(), vec![field(0), literal(42)]);
    assert_eq!(
        decoder.decode_relation(&message),
        Ok(Rel::Project(Project {
            input: Box::new(decoded_read()),
            expressions: vec![
                Expression::FieldReference(FieldReference { field: 0 }),
                Expression::Literal(Literal::I64(I64 {
                    value: 42,
                    nullable: false
                })),
            ],
        }))
    );
}

#[test]
fn decode_project_agrees_with_decode_relation() {
    let decoder = ProstPlanDecoder::new();
    let message = ProjectMessage {
        input: Some(Box::new(project(read(), vec![field(1)]))),
        expressions: vec![literal(7), field(0)],
    };
    let through_project = decoder.decode_project(&message);
    let through_relation = decoder.decode_relation(&RelMessage::Project(ProjectMessage {
        input: Some(Box::new(project(read(), vec![field(1)]))),
        expressions: vec![literal(7), field(0)],
    }));
    assert_eq!(through_project.map(Rel::Project), through_relation);
}

#[test]
fn stacked_projects_decode_from_the_leaf_up() {
    let decoder = ProstPlanDecoder::new();
    let message = project(
        project(project(read(), vec![field(0)]), vec![field(1), field(2)]),
        Vec::new(),
    );
    let innermost = Rel::Project(Project {
        input: Box::new(decoded_read()),
        expressions: vec![Expression::FieldReference(FieldReference { field: 0 })],
    });
    let middle = Rel::Project(Project {
        input: Box::new(innermost),
        expressions: vec![
            Expression::FieldReference(FieldReference { field: 1 }),
            Expression::FieldReference(FieldReference { field: 2 }),
        ],
    });
    assert_eq!(
        decoder.decode_relation(&message),
        Ok(Rel::Project(Project {
            input: Box::new(middle),
            expressions: Vec::new(),
        }))
    );
}

#[test]
fn a_project_without_an_input_is_malformed() {
    let decoder = ProstPlanDecoder::new();
    let message = ProjectMessage {
        input: None,
        expressions: vec![ExpressionMessage::Unset],
    };
    assert_eq!(
        decoder.decode_project(&message),
        Err(DecodeError::MalformedPlan(MissingField::ProjectInput))
    );
    assert_eq!(
        decoder.decode_relation(&RelMessage::Project(ProjectMessage {
            input: None,
            expressions: Vec::new(),
        })),
        Err(DecodeError::MalformedPlan(MissingField::ProjectInput))
    );
}

#[test]
fn an_input_failure_comes_before_an_expression_failure() {
    let decoder = ProstPlanDecoder::new();
    let message = project(
        RelMessage::Unsupported(RelationKind::Sort),
        vec![ExpressionMessage::Unset],
    );
    assert_eq!(
        decoder.decode_relation(&message),
        Err(DecodeError::UnsupportedRelationType(RelationKind::Sort))
    );
}

#[test]
fn inner_expressions_fail_before_outer_ones() {
    let decoder = ProstPlanDecoder::new();
    let message = project(
        project(
            read(),
            vec![ExpressionMessage::Unsupported(ExpressionKind::Cast)],
        ),
        vec![ExpressionMessage::Unset],
    );
    assert_eq!(
        decoder.decode_relation(&message),
        Err(DecodeError::UnsupportedExpressionType(ExpressionKind::Cast))
    );
}

#[test]
fn an_expression_failure_fails_the_project() {
    let decoder = ProstPlanDecoder::new();
    let message = project(read(), vec![field(0), ExpressionMessage::Unset, literal(1)]);
    assert_eq!(
        decoder.decode_relation(&message),
        Err(DecodeError::MalformedPlan(MissingField::RexType))
    );
}

#[test]
fn a_relation_without_a_type_is_malformed() {
    let decoder = ProstPlanDecoder::new();
    assert_eq!(
        decoder.decode_relation(&RelMessage::Unset),
        Err(DecodeError::MalformedPlan(MissingField::RelType))
    );
}

#[test]
fn every_unmodelled_relation_type_is_refused_by_name() {
    let decoder = ProstPlanDecoder::new();
    for kind in [
        RelationKind::Filter,
        RelationKind::Fetch,
        RelationKind::Aggregate,
        RelationKind::Sort,
        RelationKind::Join,
        RelationKind::LateralJoin,
        RelationKind::SetOperation,
        RelationKind::ExtensionSingle,
        RelationKind::ExtensionMulti,
        RelationKind::ExtensionLeaf,
        RelationKind::Cross,
        RelationKind::Reference,
        RelationKind::Write,
        RelationKind::Ddl,
        RelationKind::Update,
        RelationKind::HashJoin,
        RelationKind::MergeJoin,
        RelationKind::NestedLoopJoin,
        RelationKind::Window,
        RelationKind::Exchange,
        RelationKind::Expand,
        RelationKind::TopN,
    ] {
        assert_eq!(
            decoder.decode_relation(&RelMessage::Unsupported(kind)),
            Err(DecodeError::UnsupportedRelationType(kind))
        );
        assert_eq!(
            decoder.decode_relation(&project(
                project(RelMessage::Unsupported(kind), vec![field(0)]),
                vec![literal(1)]
            )),
            Err(DecodeError::UnsupportedRelationType(kind))
        );
        assert_eq!(
            decode_prost_plan(&plan_of(RelMessage::Unsupported(kind))),
            Err(DecodeError::UnsupportedRelationType(kind))
        );
    }
}

#[test]
fn a_failed_decode_leaves_nothing_behind_for_the_next() {
    let mut decoder = ProstPlanDecoder::new();
    let broken = PlanMessage {
        extension_uris: vec![ExtensionUriMessage {
            extension_uri_anchor: 1,
            uri: "u1".to_string(),
        }],
        extensions: vec![ExtensionMessage::ExtensionFunction(
            ExtensionFunctionMessage {
                extension_uri_reference: 1,
                function_anchor: 7,
                name: "add".to_string(),
            },
        )],
        relations: vec![PlanRelMessage::Rel(project(
            RelMessage::Unsupported(RelationKind::Filter),
            vec![field(0)],
        ))],
    };
    assert_eq!(
        decoder.decode(&broken),
        Err(DecodeError::UnsupportedRelationType(RelationKind::Filter))
    );
    let mended = PlanMessage {
        extension_uris: vec![ExtensionUriMessage {
            extension_uri_anchor: 1,
            uri: "u1".to_string(),
        }],
        extensions: vec![ExtensionMessage::ExtensionFunction(
            ExtensionFunctionMessage {
                extension_uri_reference: 1,
                function_anchor: 7,
                name: "add".to_string(),
            },
        )],
        relations: vec![PlanRelMessage::Rel(project(read(), vec![field(0)]))],
    };
    let from_used = decoder.decode(&mended);
    let from_fresh = decode_prost_plan(&mended);
    assert_eq!(from_used, from_fresh);
    assert_eq!(
        from_used,
        Ok(Plan {
            root: Box::new(Rel::Project(Project {
                input: Box::new(decoded_read()),
                expressions: vec![Expression::FieldReference(FieldReference { field: 0 })],
            })),
        })
    );
}

#[test]
fn a_plan_decodes_its_bare_relation() {
    assert_eq!(
        decode_prost_plan(&plan_of(read())),
        Ok(Plan {
            root: Box::new(decoded_read())
        })
    );
}

#[test]
fn a_root_wrapper_is_transparent() {
    let plan = PlanMessage {
        extension_uris: Vec::new(),
        extensions: Vec::new(),
        relations: vec![PlanRelMessage::Root { input: Some(read()) }],
    };
    assert_eq!(decode_prost_plan(&plan), decode_prost_plan(&plan_of(read())));
    assert_eq!(
        decode_prost_plan(&plan),
        Ok(Plan {
            root: Box::new(decoded_read())
        })
    );
}

#[test]
fn only_the_first_top_level_relation_is_decoded() {
    let plan = PlanMessage {
        extension_uris: Vec::new(),
        extensions: Vec::new(),
        relations: vec![
            PlanRelMessage::Rel(read()),
            PlanRelMessage::Unset,
            PlanRelMessage::Rel(RelMessage::Unsupported(RelationKind::Join)),
        ],
    };
    assert_eq!(
        decode_prost_plan(&plan),
        Ok(Plan {
            root: Box::new(decoded_read())
        })
    );
}

#[test]
fn a_plan_without_relations_is_malformed() {
    let plan = PlanMessage {
        extension_uris: Vec::new(),
        extensions: Vec::new(),
        relations: Vec::new(),
    };
    assert_eq!(
        decode_prost_plan(&plan),
        Err(DecodeError::MalformedPlan(MissingField::Relations))
    );
}

#[test]
fn a_top_level_entry_without_a_type_is_malformed() {
    let plan = PlanMessage {
        extension_uris: Vec::new(),
        extensions: Vec::new(),
        relations: vec![PlanRelMessage::Unset],
    };
    assert_eq!(
        decode_prost_plan(&plan),
        Err(DecodeError::MalformedPlan(MissingField::PlanRelType))
    );
}

#[test]
fn a_root_without_an_input_is_malformed() {
    let plan = PlanMessage {
        extension_uris: Vec::new(),
        extensions: Vec::new(),
        relations: vec![PlanRelMessage::Root { input: None }],
    };
    assert_eq!(
        decode_prost_plan(&plan),
        Err(DecodeError::MalformedPlan(MissingField::RootInput))
    );
}

#[test]
fn a_gather_failure_comes_before_any_relation_failure() {
    let plan = PlanMessage {
        extension_uris: Vec::new(),
        extensions: vec![ExtensionMessage::ExtensionFunction(
            ExtensionFunctionMessage {
                extension_uri_reference: 3,
                function_anchor: 7,
                name: "add".to_string(),
            },
        )],
        relations: Vec::new(),
    };
    assert_eq!(
        decode_prost_plan(&plan),
        Err(DecodeError::UnresolvedExtension(3))
    );
}

fn plan_with_invocation(reference: u32) -> PlanMessage {
    PlanMessage {
        extension_uris: vec![ExtensionUriMessage {
            extension_uri_anchor: 1,
            uri: "u1".to_string(),
        }],
        extensions: vec![ExtensionMessage::ExtensionFunction(
            ExtensionFunctionMessage {
                extension_uri_reference: 1,
                function_anchor: 7,
                name: "add".to_string(),
            },
        )],
        relations: vec![PlanRelMessage::Root {
            input: Some(project(
                read(),
                vec![ExpressionMessage::ScalarFunction(ScalarFunctionMessage {
                    function_reference: reference,
                    arguments: vec![
                        FunctionArgumentMessage::Value(field(0)),
                        FunctionArgumentMessage::Value(literal(1)),
                    ],
                    output_type: Some(TypeMessage::I64 { nullability: 2 }),
                })],
            )),
        }],
    }
}

#[test]
fn a_whole_plan_decodes_with_its_own_declarations() {
    assert_eq!(
        decode_prost_plan(&plan_with_invocation(7)),
        Ok(Plan {
            root: Box::new(Rel::Project(Project {
                input: Box::new(decoded_read()),
                expressions: vec![Expression::ScalarFunction(ScalarFunctionInvocation {
                    function: Function {
                        signature: FunctionSignature("add".to_string()),
                        extension: URI("u1".to_string()),
                    },
                    args: vec![
                        FunctionArgument::Value(Expression::FieldReference(FieldReference {
                            field: 0
                        })),
                        FunctionArgument::Value(Expression::Literal(Literal::I64(I64 {
                            value: 1,
                            nullable: false
                        }))),
                    ],
                    output_type: Type::I64 { nullable: true },
                })],
            })),
        })
    );
    assert_eq!(
        decode_prost_plan(&plan_with_invocation(8)),
        Err(DecodeError::UnresolvedFunctionReference(8))
    );
}

#[test]
fn decoding_a_plan_twice_yields_equal_plans() {
    let plan = plan_with_invocation(7);
    let first = decode_prost_plan(&plan);
    let second = decode_prost_plan(&plan);
    assert!(first.is_ok());
    assert_eq!(first, second);
    let mut decoder = ProstPlanDecoder::new();
    let third = decoder.decode(&plan);
    let fourth = decoder.decode(&plan);
    assert_eq!(first, third);
    assert_eq!(third, fourth);
}

#[test]
fn decoding_a_refused_plan_twice_yields_the_same_failure() {
    let plan = plan_with_invocation(8);
    let mut decoder = ProstPlanDecoder::new();
    let first = decoder.decode(&plan);
    let second = decoder.decode(&plan);
    assert_eq!(first, Err(DecodeError::UnresolvedFunctionReference(8)));
    assert_eq!(first, second);
}

#[test]
fn two_plans_may_give_one_anchor_two_meanings() {
    let mut other = plan_with_invocation(7);
    other.extensions = vec![ExtensionMessage::ExtensionFunction(
        ExtensionFunctionMessage {
            extension_uri_reference: 1,
            function_anchor: 7,
            name: "multiply".to_string(),
        },
    )];
    let mut decoder = ProstPlanDecoder::new();
    let first = decoder.decode(&plan_with_invocation(7));
    let second = decoder.decode(&other);
    let name_of = |outcome: &Result<Plan, DecodeError>| match outcome {
        Ok(plan) => match &*plan.root {
            Rel::Project(project) => match &project.expressions[0] {
                Expression::ScalarFunction(invocation) => invocation.function.signature.0.clone(),
                _ => panic!("no invocation came out"),
            },
            _ => panic!("no project came out"),
        },
        Err(e) => panic!("the plan was refused: {:?}", e),
    };
    assert_eq!(name_of(&first), "add");
    assert_eq!(name_of(&second), "multiply");
}

#[test]
fn decode_plan_uses_the_tables_gathered_before() {
    let plan = plan_with_invocation(7);
    let mut decoder = ProstPlanDecoder::new();
    assert_eq!(
        decoder.decode_plan(&plan),
        Err(DecodeError::UnresolvedFunctionReference(7))
    );
    assert_eq!(decoder.gather_extensions(&plan), Ok(()));
    assert_eq!(decoder.decode_plan(&plan), decode_prost_plan(&plan));
}

#[test]
fn a_very_deep_chain_of_projects_decodes_without_deep_calls() {
    let depth: usize = 200_000;
    let mut message = read();
    for level in 0..depth {
        message = project(message, vec![literal(level as i64)]);
    }
    let decoder = ProstPlanDecoder::new();
    let decoded = match decoder.decode_relation(&message) {
        Ok(decoded) => decoded,
        Err(e) => panic!("the deep relation was refused: {:?}", e),
    };
    let mut expected_level = depth;
    let mut current = &decoded;
    loop {
        match current {
            Rel::Project(found) => {
                expected_level -= 1;
                assert_eq!(
                    found.expressions,
                    vec![Expression::Literal(Literal::I64(I64 {
                        value: expected_level as i64,
                        nullable: false
                    }))]
                );
                current = &*found.input;
            }
            Rel::Read(found) => {
                assert_eq!(found.base_schema, decoded_schema());
                break;
            }
        }
    }
    assert_eq!(expected_level, 0);
    std::mem::forget(decoded);
    std::mem::forget(message);
}
