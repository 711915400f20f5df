//! The plan message as the decoder reads it: one value for every field and
//! one-of that takes part in decoding, and nothing else of the wire format.
//!
//! A one-of that the producer left unset is the variant `Unset`. A one-of set
//! to a kind that the decoder does not model is the variant `Unsupported`,
//! which carries the kind's name and none of its payload.
//!
//! A message that holds a list or a string has a mathematical value, its
//! view, and the decoder is specified over that value. A message of plain
//! values is its own value.

use vstd::prelude::*;
use crate::error::{ExpressionKind, LiteralKind, RelationKind, TypeKind};
use crate::views::seq_views;

verus! {

/// A type node: its kind, and for the modelled kinds the three-valued
/// nullability code.
#[derive(Clone, Copy, Debug, PartialEq, Eq, Structural)]
pub enum TypeMessage {
    Unset,
    I32 { nullability: i32 },
    I64 { nullability: i32 },
    Fp64 { nullability: i32 },
    String { nullability: i32 },
    Unsupported(TypeKind),
}

/// The value of a literal node.
#[derive(Clone, Copy, Debug, PartialEq, Eq, Structural)]
pub enum LiteralValueMessage {
    Unset,
    Boolean(bool),
    I32(i32),
    I64(i64),
    Unsupported(LiteralKind),
}

/// A literal node: its own nullable flag and its value.
#[derive(Clone, Copy, Debug, PartialEq, Eq, Structural)]
pub struct LiteralMessage {
    pub nullable: bool,
    pub value: LiteralValueMessage,
}

/// What a field reference is relative to.
#[derive(Clone, Copy, Debug, PartialEq, Eq, Structural)]
pub enum ReferenceRootMessage {
    Unset,
    RootReference,
    Expression,
    OuterReference,
    LambdaParameterReference,
}

/// One segment of a direct reference. `has_child` tells whether a further
/// segment hangs below a struct-field selector.
#[derive(Clone, Copy, Debug, PartialEq, Eq, Structural)]
pub enum SegmentMessage {
    Unset,
    StructField { field: i32, has_child: bool },
    MapKey,
    ListElement,
}

/// How a field reference selects.
#[derive(Clone, Copy, Debug, PartialEq, Eq, Structural)]
pub enum ReferenceMessage {
    Unset,
    Direct(SegmentMessage),
    Masked,
}

/// A column reference node.
#[derive(Clone, Copy, Debug, PartialEq, Eq, Structural)]
pub struct FieldReferenceMessage {
    pub root: ReferenceRootMessage,
    pub reference: ReferenceMessage,
}

/// An expression node.
#[derive(Debug, PartialEq, Eq)]
pub enum ExpressionMessage {
    Unset,
    Literal(LiteralMessage),
    Selection(FieldReferenceMessage),
    ScalarFunction(ScalarFunctionMessage),
    Unsupported(ExpressionKind),
}

/// One argument of a scalar function invocation.
#[derive(Debug, PartialEq, Eq)]
pub enum FunctionArgumentMessage {
    Unset,
    Value(ExpressionMessage),
    Type(TypeMessage),
    Enum(String),
}

/// A scalar function invocation: the anchor of the function, the arguments in
/// order, and the declared output type.
#[derive(Debug, PartialEq, Eq)]
pub struct ScalarFunctionMessage {
    pub function_reference: u32,
    pub arguments: Vec<FunctionArgumentMessage>,
    pub output_type: Option<TypeMessage>,
}

/// A row schema: names, and the struct of column types if it is present.
#[derive(Debug, PartialEq, Eq)]
pub struct NamedStructMessage {
    pub names: Vec<String>,
    pub types: Option<Vec<TypeMessage>>,
}

/// A read relation.
#[derive(Debug, PartialEq, Eq)]
pub struct ReadMessage {
    pub base_schema: Option<NamedStructMessage>,
}

/// A project relation.
#[derive(Debug, PartialEq, Eq)]
pub struct ProjectMessage {
    pub input: Option<Box<RelMessage>>,
    pub expressions: Vec<ExpressionMessage>,
}

/// A relation node.
#[derive(Debug, PartialEq, Eq)]
pub enum RelMessage {
    Unset,
    Read(ReadMessage),
    Project(ProjectMessage),
    Unsupported(RelationKind),
}

/// A top-level relation entry: a bare relation, or a root that wraps one.
#[derive(Debug, PartialEq, Eq)]
pub enum PlanRelMessage {
    Unset,
    Rel(RelMessage),
    Root { input: Option<RelMessage> },
}

/// The declaration of an extension URI under an anchor.
#[derive(Debug, PartialEq, Eq)]
pub struct ExtensionUriMessage {
    pub extension_uri_anchor: u32,
    pub uri: String,
}

/// The declaration of an extension function: the anchor of the URI it belongs
/// to, its own anchor, and its name.
#[derive(Debug, PartialEq, Eq)]
pub struct ExtensionFunctionMessage {
    pub extension_uri_reference: u32,
    pub function_anchor: u32,
    pub name: String,
}

/// One extension declaration of a plan.
#[derive(Debug, PartialEq, Eq)]
pub enum ExtensionMessage {
    Unset,
    ExtensionType,
    ExtensionTypeVariation,
    ExtensionFunction(ExtensionFunctionMessage),
}

/// A plan message.
#[derive(Debug, PartialEq, Eq)]
pub struct PlanMessage {
    pub extension_uris: Vec<ExtensionUriMessage>,
    pub extensions: Vec<ExtensionMessage>,
    pub relations: Vec<PlanRelMessage>,
}

/// The mathematical value of an `ExpressionMessage`.
pub enum ExpressionMessageView {
    Unset,
    Literal(LiteralMessage),
    Selection(FieldReferenceMessage),
    ScalarFunction(ScalarFunctionMessageView),
    Unsupported(ExpressionKind),
}

/// The mathematical value of a `FunctionArgumentMessage`.
pub enum FunctionArgumentMessageView {
    Unset,
    Value(ExpressionMessageView),
    Type(TypeMessage),
    Enum(Seq<char>),
}

/// The mathematical value of a `ScalarFunctionMessage`.
pub struct ScalarFunctionMessageView {
    pub function_reference: u32,
    pub arguments: Seq<FunctionArgumentMessageView>,
    pub output_type: Option<TypeMessage>,
}

/// The mathematical value of a `NamedStructMessage`.
pub struct NamedStructMessageView {
    pub names: Seq<Seq<char>>,
    pub types: Option<Seq<TypeMessage>>,
}

/// The mathematical value of a `ReadMessage`.
pub struct ReadMessageView {
    pub base_schema: Option<NamedStructMessageView>,
}

/// The mathematical value of a `ProjectMessage`.
pub struct ProjectMessageView {
    pub input: Option<Box<RelMessageView>>,
    pub expressions: Seq<ExpressionMessageView>,
}

/// The mathematical value of a `RelMessage`.
pub enum RelMessageView {
    Unset,
    Read(ReadMessageView),
    Project(ProjectMessageView),
    Unsupported(RelationKind),
}

/// The mathematical value of a `PlanRelMessage`.
pub enum PlanRelMessageView {
    Unset,
    Rel(RelMessageView),
    Root { input: Option<RelMessageView> },
}

/// The mathematical value of an `ExtensionUriMessage`.
pub struct ExtensionUriMessageView {
    pub extension_uri_anchor: u32,
    pub uri: Seq<char>,
}

/// The mathematical value of an `ExtensionFunctionMessage`.
pub struct ExtensionFunctionMessageView {
    pub extension_uri_reference: u32,
    pub function_anchor: u32,
    pub name: Seq<char>,
}

/// The mathematical value of an `ExtensionMessage`.
pub enum ExtensionMessageView {
    Unset,
    ExtensionType,
    ExtensionTypeVariation,
    ExtensionFunction(ExtensionFunctionMessageView),
}

/// The mathematical value of a `PlanMessage`.
pub struct PlanMessageView {
    pub extension_uris: Seq<ExtensionUriMessageView>,
    pub extensions: Seq<ExtensionMessageView>,
    pub relations: Seq<PlanRelMessageView>,
}

impl View for ExpressionMessage {
    type V = ExpressionMessageView;

    open spec fn view(&self) -> ExpressionMessageView
        decreases self,
    {
        match self {
            ExpressionMessage::Unset => ExpressionMessageView::Unset,
            ExpressionMessage::Literal(literal) => ExpressionMessageView::Literal(*literal),
            ExpressionMessage::Selection(reference) => ExpressionMessageView::Selection(
                *reference,
            ),
            ExpressionMessage::ScalarFunction(call) => ExpressionMessageView::ScalarFunction(
                call@,
            ),
            ExpressionMessage::Unsupported(kind) => ExpressionMessageView::Unsupported(*kind),
        }
    }
}

impl View for FunctionArgumentMessage {
    type V = FunctionArgumentMessageView;

    open spec fn view(&self) -> FunctionArgumentMessageView
        decreases self,
    {
        match self {
            FunctionArgumentMessage::Unset => FunctionArgumentMessageView::Unset,
            FunctionArgumentMessage::Value(expression) => FunctionArgumentMessageView::Value(
                expression@,
            ),
            FunctionArgumentMessage::Type(ty) => FunctionArgumentMessageView::Type(*ty),
            FunctionArgumentMessage::Enum(name) => FunctionArgumentMessageView::Enum(name@),
        }
    }
}

impl View for ScalarFunctionMessage {
    type V = ScalarFunctionMessageView;

    open spec fn view(&self) -> ScalarFunctionMessageView
        decreases self,
    {
        ScalarFunctionMessageView {
            function_reference: self.function_reference,
            arguments: Seq::new(
                self.arguments@.len(),
                |i: int|
                    if 0 <= i < self.arguments@.len() {
                        self.arguments@[i]@
                    } else {
                        FunctionArgumentMessageView::Unset
                    },
            ),
            output_type: self.output_type,
        }
    }
}

impl View for NamedStructMessage {
    type V = NamedStructMessageView;

    open spec fn view(&self) -> NamedStructMessageView {
        NamedStructMessageView {
            names: seq_views(self.names@),
            types: match self.types {
                Some(types) => Some(types@),
                None => None,
            },
        }
    }
}

impl View for ReadMessage {
    type V = ReadMessageView;

    open spec fn view(&self) -> ReadMessageView {
        ReadMessageView {
            base_schema: match self.base_schema {
                Some(schema) => Some(schema@),
                None => None,
            },
        }
    }
}

impl View for ProjectMessage {
    type V = ProjectMessageView;

    open spec fn view(&self) -> ProjectMessageView
        decreases self,
    {
        ProjectMessageView {
            input: match self.input {
                Some(input) => Some(Box::new((*input)@)),
                None => None,
            },
            expressions: seq_views(self.expressions@),
        }
    }
}

impl View for RelMessage {
    type V = RelMessageView;

    open spec fn view(&self) -> RelMessageView
        decreases self,
    {
        match self {
            RelMessage::Unset => RelMessageView::Unset,
            RelMessage::Read(read) => RelMessageView::Read(read@),
            RelMessage::Project(project) => RelMessageView::Project(project@),
            RelMessage::Unsupported(kind) => RelMessageView::Unsupported(*kind),
        }
    }
}

impl View for PlanRelMessage {
    type V = PlanRelMessageView;

    open spec fn view(&self) -> PlanRelMessageView {
        match self {
            PlanRelMessage::Unset => PlanRelMessageView::Unset,
            PlanRelMessage::Rel(rel) => PlanRelMessageView::Rel(rel@),
            PlanRelMessage::Root { input } => PlanRelMessageView::Root {
                input: match input {
                    Some(rel) => Some(rel@),
                    None => None,
                },
            },
        }
    }
}

impl View for ExtensionUriMessage {
    type V = ExtensionUriMessageView;

    open spec fn view(&self) -> ExtensionUriMessageView {
        ExtensionUriMessageView {
            extension_uri_anchor: self.extension_uri_anchor,
            uri: self.uri@,
        }
    }
}

impl View for ExtensionFunctionMessage {
    type V = ExtensionFunctionMessageView;

    open spec fn view(&self) -> ExtensionFunctionMessageView {
        ExtensionFunctionMessageView {
            extension_uri_reference: self.extension_uri_reference,
            function_anchor: self.function_anchor,
            name: self.name@,
        }
    }
}

impl View for ExtensionMessage {
    type V = ExtensionMessageView;

    open spec fn view(&self) -> ExtensionMessageView {
        match self {
            ExtensionMessage::Unset => ExtensionMessageView::Unset,
            ExtensionMessage::ExtensionType => ExtensionMessageView::ExtensionType,
            ExtensionMessage::ExtensionTypeVariation => {
                ExtensionMessageView::ExtensionTypeVariation
            },
            ExtensionMessage::ExtensionFunction(function) => {
                ExtensionMessageView::ExtensionFunction(function@)
            },
        }
    }
}

impl View for PlanMessage {
    type V = PlanMessageView;

    open spec fn view(&self) -> PlanMessageView {
        PlanMessageView {
            extension_uris: seq_views(self.extension_uris@),
            extensions: seq_views(self.extensions@),
            relations: seq_views(self.relations@),
        }
    }
}

/// The arguments of a scalar function message's value are the values of its
/// arguments, and its other fields are those of the message.
pub proof fn lemma_scalar_function_message_view(call: ScalarFunctionMessage)
    ensures
        call@.arguments == seq_views(call.arguments@),
        call@.function_reference == call.function_reference,
        call@.output_type == call.output_type,
{
    reveal_with_fuel(<ScalarFunctionMessage as View>::view, 2);
    assert(call@.arguments =~= seq_views(call.arguments@));
}

} // verus!
