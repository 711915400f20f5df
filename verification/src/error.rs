//! The typed failures of a decode, and the names of the message variants
//! that a failure can point at.

use vstd::prelude::*;

verus! {

/// A required one-of field that a message left unset.
#[derive(Clone, Copy, Debug, PartialEq, Eq, Structural)]
pub enum MissingField {
    /// The plan declares no relation at all.
    Relations,
    /// A top-level relation entry is neither a bare nor a rooted relation.
    PlanRelType,
    /// A rooted relation wraps nothing.
    RootInput,
    /// A relation carries no relation type.
    RelType,
    /// A read relation has no base schema.
    BaseSchema,
    /// A named struct has names but no struct of types.
    SchemaStruct,
    /// A project relation has no input.
    ProjectInput,
    /// An expression carries no expression type.
    RexType,
    /// A function argument carries no argument type.
    ArgType,
    /// A scalar function invocation declares no output type.
    OutputType,
    /// A type carries no kind.
    TypeKind,
    /// A field reference has no root type.
    RootType,
    /// A field reference has no reference type.
    ReferenceType,
    /// A reference segment has no selector.
    SegmentType,
    /// A literal carries no literal type.
    LiteralType,
    /// An extension declaration carries no mapping type.
    MappingType,
}

/// The relation types that a message can name and the decoder does not model.
#[derive(Clone, Copy, Debug, PartialEq, Eq, Structural)]
pub enum RelationKind {
    Filter,
    Fetch,
    Aggregate,
    Sort,
    Join,
    LateralJoin,
    SetOperation,
    ExtensionSingle,
    ExtensionMulti,
    ExtensionLeaf,
    Cross,
    Reference,
    Write,
    Ddl,
    Update,
    HashJoin,
    MergeJoin,
    NestedLoopJoin,
    Window,
    Exchange,
    Expand,
    TopN,
}

/// The expression types that a message can name and the decoder does not model.
#[derive(Clone, Copy, Debug, PartialEq, Eq, Structural)]
pub enum ExpressionKind {
    WindowFunction,
    IfThen,
    SwitchExpression,
    SingularOrList,
    MultiOrList,
    Cast,
    Subquery,
    Nested,
    Enum,
    DynamicParameter,
    Lambda,
    LambdaInvocation,
    ExecutionContextVariable,
}

/// The literal types that a message can name and the decoder does not model.
#[derive(Clone, Copy, Debug, PartialEq, Eq, Structural)]
pub enum LiteralKind {
    I8,
    I16,
    Fp32,
    Fp64,
    String,
    Binary,
    Timestamp,
    Date,
    Time,
    IntervalYearToMonth,
    IntervalDayToSecond,
    IntervalCompound,
    FixedChar,
    VarChar,
    FixedBinary,
    Decimal,
    PrecisionTime,
    PrecisionTimestamp,
    PrecisionTimestampTz,
    Struct,
    MapLiteral,
    TimestampTz,
    Uuid,
    Null,
    List,
    EmptyList,
    EmptyMap,
    UserDefined,
}

/// The type kinds that a message can name and the decoder does not model.
#[derive(Clone, Copy, Debug, PartialEq, Eq, Structural)]
pub enum TypeKind {
    Bool,
    I8,
    I16,
    Fp32,
    Binary,
    Timestamp,
    Date,
    Time,
    IntervalYear,
    IntervalDay,
    IntervalCompound,
    TimestampTz,
    Uuid,
    FixedChar,
    Varchar,
    FixedBinary,
    Decimal,
    PrecisionTime,
    PrecisionTimestamp,
    PrecisionTimestampTz,
    Struct,
    List,
    MapType,
    Func,
    Unbound,
    UserDefined,
    UserDefinedTypeReference,
    Alias,
}

/// The extension declarations that the gather pass recognises and rejects.
#[derive(Clone, Copy, Debug, PartialEq, Eq, Structural)]
pub enum ExtensionKind {
    Type,
    TypeVariation,
}

/// The shapes of a field reference that the decoder rejects.
#[derive(Clone, Copy, Debug, PartialEq, Eq, Structural)]
pub enum FieldReferenceKind {
    /// The reference is rooted in an inline sub-expression.
    ExpressionRoot,
    /// The reference is rooted in an outer query scope.
    OuterReferenceRoot,
    /// The reference is rooted in a lambda parameter.
    LambdaParameterRoot,
    /// The reference selects through a mask.
    MaskedReference,
    /// The segment selects a map entry by key.
    MapKey,
    /// The segment selects a list element by offset.
    ListElement,
    /// The struct-field segment has a child segment.
    NestedSelector,
}

/// The two tables of anchors that one plan message declares.
#[derive(Clone, Copy, Debug, PartialEq, Eq, Structural)]
pub enum AnchorKind {
    ExtensionUri,
    Function,
}

/// Why a decode stopped. The first failure met aborts the whole decode.
#[derive(Clone, Copy, Debug, PartialEq, Eq, Structural)]
pub enum DecodeError {
    /// A required one-of field is absent.
    MalformedPlan(MissingField),
    /// The anchor was declared a second time in its table.
    DuplicateAnchor(AnchorKind, u32),
    /// A function declaration refers to an extension URI anchor under which
    /// the plan declares no URI.
    UnresolvedExtension(u32),
    /// An expression invokes a function anchor that the plan never declared.
    UnresolvedFunctionReference(u32),
    /// The relation is of a type that the decoder does not model.
    UnsupportedRelationType(RelationKind),
    /// The expression is of a type that the decoder does not model.
    UnsupportedExpressionType(ExpressionKind),
    /// The literal is of a type that the decoder does not model.
    UnsupportedLiteralType(LiteralKind),
    /// The type is of a kind that the decoder does not model.
    UnsupportedType(TypeKind),
    /// The field reference is not a direct, single-segment struct-field
    /// selector relative to the root.
    UnsupportedFieldReference(FieldReferenceKind),
    /// The extension declaration is recognised and not modelled.
    UnsupportedExtensionKind(ExtensionKind),
    /// The nullability code is the unspecified one, or none of the three
    /// defined codes.
    InvalidNullability(i32),
}

/// Why an entry of a function catalog has no counterpart in the
/// intermediate representation.
#[derive(Clone, Copy, Debug, PartialEq, Eq, Structural)]
pub enum CatalogError {
    /// The type name is none of the names that the representation knows.
    UnknownTypeName,
    /// The type is written as a structure and not as a name.
    StructuredType,
    /// The argument is an enumeration and not a value.
    EnumerationArgument,
    /// The argument is a type and not a value.
    TypeArgument,
}

/// Whether the outcome of a decoding step is the expected one: the same
/// failure, or a value whose mathematical value is the expected one.
pub open spec fn decodes_to<T: View>(
    outcome: Result<T, DecodeError>,
    expected: Result<T::V, DecodeError>,
) -> bool {
    match outcome {
        Ok(value) => expected == Ok::<T::V, DecodeError>(value@),
        Err(e) => expected == Err::<T::V, DecodeError>(e),
    }
}

/// Whether the outcome of a conversion from a catalog is the expected one:
/// the same failure, or a value whose mathematical value is the expected
/// one.
pub open spec fn catalog_outcome<T: View>(
    outcome: Result<T, CatalogError>,
    expected: Result<T::V, CatalogError>,
) -> bool {
    match outcome {
        Ok(value) => expected == Ok::<T::V, CatalogError>(value@),
        Err(e) => expected == Err::<T::V, CatalogError>(e),
    }
}

} // verus!
