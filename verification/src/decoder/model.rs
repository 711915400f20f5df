//! What a decode yields, as mathematics: the catalog that the gather pass
//! builds from a plan's declarations, and the value or failure that each
//! node of the message decodes to.
//!
//! A list is decoded front to back and stops at its first failure. The
//! functions whose names end in `_from` say so: they take the position of
//! the next item and the values decoded so far.

use vstd::prelude::*;
use crate::error::{AnchorKind, DecodeError, ExtensionKind, MissingField};
use crate::message::{
    ExpressionMessageView,
    ExtensionMessageView,
    ExtensionUriMessageView,
    FunctionArgumentMessageView,
    NamedStructMessageView,
    PlanMessageView,
    PlanRelMessageView,
    ProjectMessageView,
    ReadMessageView,
    RelMessageView,
    ScalarFunctionMessageView,
    TypeMessage,
};
use crate::plans::{PlanView, ProjectView, ReadView, RelView};
use crate::plans::expressions::{ExpressionView, FunctionArgumentView, FunctionView};
use crate::plans::expressions::field_reference::field_reference_spec;
use crate::plans::expressions::literal::literal_spec;
use crate::plans::expressions::scalar_function::ScalarFunctionInvocationView;
use crate::types::{NamedStructView, NullabilityReading, TypeView, type_spec};

verus! {

/// The two anchor tables of one plan: extension URIs by their anchor, and
/// resolved functions by theirs.
pub struct CatalogView {
    pub uris: Map<u32, Seq<char>>,
    pub functions: Map<u32, FunctionView>,
}

/// The catalog before any declaration.
pub open spec fn empty_catalog() -> CatalogView {
    CatalogView { uris: Map::empty(), functions: Map::empty() }
}

/// The catalog after the declaration of a URI under an anchor, or the
/// failure if the anchor is taken.
pub open spec fn register_uri(catalog: CatalogView, anchor: u32, uri: Seq<char>) -> Result<
    CatalogView,
    DecodeError,
> {
    if catalog.uris.contains_key(anchor) {
        Err(DecodeError::DuplicateAnchor(AnchorKind::ExtensionUri, anchor))
    } else {
        Ok(CatalogView { uris: catalog.uris.insert(anchor, uri), functions: catalog.functions })
    }
}

/// The catalog after the declaration of a function: the URI that the
/// declaration refers to must be in the catalog, and the function's anchor
/// must be free.
pub open spec fn register_function(
    catalog: CatalogView,
    extension_uri_reference: u32,
    function_anchor: u32,
    name: Seq<char>,
) -> Result<CatalogView, DecodeError> {
    if !catalog.uris.contains_key(extension_uri_reference) {
        Err(DecodeError::UnresolvedExtension(extension_uri_reference))
    } else if catalog.functions.contains_key(function_anchor) {
        Err(DecodeError::DuplicateAnchor(AnchorKind::Function, function_anchor))
    } else {
        Ok(
            CatalogView {
                uris: catalog.uris,
                functions: catalog.functions.insert(
                    function_anchor,
                    FunctionView {
                        signature: name,
                        extension: catalog.uris[extension_uri_reference],
                    },
                ),
            },
        )
    }
}

/// The catalog after one extension declaration. Only functions are
/// registered; types and type variations are recognised and refused.
pub open spec fn register_extension(
    catalog: CatalogView,
    extension: ExtensionMessageView,
) -> Result<CatalogView, DecodeError> {
    match extension {
        ExtensionMessageView::Unset => Err(DecodeError::MalformedPlan(MissingField::MappingType)),
        ExtensionMessageView::ExtensionType => Err(
            DecodeError::UnsupportedExtensionKind(ExtensionKind::Type),
        ),
        ExtensionMessageView::ExtensionTypeVariation => Err(
            DecodeError::UnsupportedExtensionKind(ExtensionKind::TypeVariation),
        ),
        ExtensionMessageView::ExtensionFunction(function) => register_function(
            catalog,
            function.extension_uri_reference,
            function.function_anchor,
            function.name,
        ),
    }
}

/// The catalog after the URI declarations from position `next` on.
pub open spec fn gather_uris_from(
    catalog: CatalogView,
    uris: Seq<ExtensionUriMessageView>,
    next: int,
) -> Result<CatalogView, DecodeError>
    decreases uris.len() - next,
{
    if next < 0 || next >= uris.len() {
        Ok(catalog)
    } else {
        match register_uri(catalog, uris[next].extension_uri_anchor, uris[next].uri) {
            Err(e) => Err(e),
            Ok(registered) => gather_uris_from(registered, uris, next + 1),
        }
    }
}

/// The catalog after the extension declarations from position `next` on.
pub open spec fn gather_extensions_from(
    catalog: CatalogView,
    extensions: Seq<ExtensionMessageView>,
    next: int,
) -> Result<CatalogView, DecodeError>
    decreases extensions.len() - next,
{
    if next < 0 || next >= extensions.len() {
        Ok(catalog)
    } else {
        match register_extension(catalog, extensions[next]) {
            Err(e) => Err(e),
            Ok(registered) => gather_extensions_from(registered, extensions, next + 1),
        }
    }
}

/// The catalog of a plan: all its URI declarations in order, then all its
/// extension declarations in order, from an empty catalog.
pub open spec fn gather_spec(plan: PlanMessageView) -> Result<CatalogView, DecodeError> {
    match gather_uris_from(empty_catalog(), plan.extension_uris, 0) {
        Err(e) => Err(e),
        Ok(with_uris) => gather_extensions_from(with_uris, plan.extensions, 0),
    }
}

/// The function that an anchor resolves to.
pub open spec fn lookup_spec(catalog: CatalogView, anchor: u32) -> Result<
    FunctionView,
    DecodeError,
> {
    if catalog.functions.contains_key(anchor) {
        Ok(catalog.functions[anchor])
    } else {
        Err(DecodeError::UnresolvedFunctionReference(anchor))
    }
}

/// The types that the messages from position `next` on decode to, after
/// `done`.
pub open spec fn types_from(
    reading: NullabilityReading,
    types: Seq<TypeMessage>,
    next: int,
    done: Seq<TypeView>,
) -> Result<Seq<TypeView>, DecodeError>
    decreases types.len() - next,
{
    if next < 0 || next >= types.len() {
        Ok(done)
    } else {
        match type_spec(reading, types[next]) {
            Err(e) => Err(e),
            Ok(ty) => types_from(reading, types, next + 1, done.push(ty)),
        }
    }
}

/// What a named struct decodes to: its names as they are, beside its types
/// decoded in order.
pub open spec fn named_struct_spec(
    reading: NullabilityReading,
    message: NamedStructMessageView,
) -> Result<NamedStructView, DecodeError> {
    match message.types {
        None => Err(DecodeError::MalformedPlan(MissingField::SchemaStruct)),
        Some(types) => match types_from(reading, types, 0, Seq::empty()) {
            Err(e) => Err(e),
            Ok(decoded) => Ok(
                NamedStructView { names: message.names, types: decoded },
            ),
        },
    }
}

/// What a read relation decodes to: its base schema.
pub open spec fn read_spec(reading: NullabilityReading, message: ReadMessageView) -> Result<
    ReadView,
    DecodeError,
> {
    match message.base_schema {
        None => Err(DecodeError::MalformedPlan(MissingField::BaseSchema)),
        Some(schema) => match named_struct_spec(reading, schema) {
            Err(e) => Err(e),
            Ok(base_schema) => Ok(ReadView { base_schema }),
        },
    }
}

/// What an expression decodes to.
pub open spec fn expression_spec(
    catalog: CatalogView,
    reading: NullabilityReading,
    message: ExpressionMessageView,
) -> Result<ExpressionView, DecodeError>
    decreases message, 0int,
{
    match message {
        ExpressionMessageView::Unset => Err(DecodeError::MalformedPlan(MissingField::RexType)),
        ExpressionMessageView::Literal(literal) => match literal_spec(literal) {
            Err(e) => Err(e),
            Ok(value) => Ok(ExpressionView::Literal(value)),
        },
        ExpressionMessageView::Selection(reference) => match field_reference_spec(reference) {
            Err(e) => Err(e),
            Ok(value) => Ok(ExpressionView::FieldReference(value)),
        },
        ExpressionMessageView::ScalarFunction(call) => scalar_function_spec(catalog, reading, call),
        ExpressionMessageView::Unsupported(kind) => Err(
            DecodeError::UnsupportedExpressionType(kind),
        ),
    }
}

/// What a scalar function invocation decodes to: its arguments in order,
/// then the function that its anchor resolves to, then its output type.
pub open spec fn scalar_function_spec(
    catalog: CatalogView,
    reading: NullabilityReading,
    call: ScalarFunctionMessageView,
) -> Result<ExpressionView, DecodeError>
    decreases call, 2int,
{
    invocation_from(catalog, reading, call, Seq::empty())
}

/// What a scalar function invocation decodes to once its first arguments
/// have been decoded to `done`.
pub open spec fn invocation_from(
    catalog: CatalogView,
    reading: NullabilityReading,
    call: ScalarFunctionMessageView,
    done: Seq<FunctionArgumentView>,
) -> Result<ExpressionView, DecodeError>
    decreases call, 1int,
{
    match arguments_from(catalog, reading, call.arguments, done.len() as int, done) {
        Err(e) => Err(e),
        Ok(args) => invocation_spec(catalog, reading, call, args),
    }
}

/// The invocation over decoded arguments: the resolved function and the
/// decoded output type, or the failure of the first of the two that fails.
pub open spec fn invocation_spec(
    catalog: CatalogView,
    reading: NullabilityReading,
    call: ScalarFunctionMessageView,
    args: Seq<FunctionArgumentView>,
) -> Result<ExpressionView, DecodeError> {
    match lookup_spec(catalog, call.function_reference) {
        Err(e) => Err(e),
        Ok(function) => match call.output_type {
            None => Err(DecodeError::MalformedPlan(MissingField::OutputType)),
            Some(ty) => match type_spec(reading, ty) {
                Err(e) => Err(e),
                Ok(output_type) => Ok(
                    ExpressionView::ScalarFunction(
                        ScalarFunctionInvocationView { function, args, output_type },
                    ),
                ),
            },
        },
    }
}

/// The arguments that the messages from position `next` on decode to, after
/// `done`.
pub open spec fn arguments_from(
    catalog: CatalogView,
    reading: NullabilityReading,
    arguments: Seq<FunctionArgumentMessageView>,
    next: int,
    done: Seq<FunctionArgumentView>,
) -> Result<Seq<FunctionArgumentView>, DecodeError>
    decreases arguments, arguments.len() - next,
{
    if next < 0 || next >= arguments.len() {
        Ok(done)
    } else {
        match argument_spec(catalog, reading, arguments[next]) {
            Err(e) => Err(e),
            Ok(argument) => arguments_from(
                catalog,
                reading,
                arguments,
                next + 1,
                done.push(argument),
            ),
        }
    }
}

/// What a function argument decodes to: a decoded expression, a decoded
/// type, or the name of an enumeration value as it is.
pub open spec fn argument_spec(
    catalog: CatalogView,
    reading: NullabilityReading,
    message: FunctionArgumentMessageView,
) -> Result<FunctionArgumentView, DecodeError>
    decreases message, 0int,
{
    match message {
        FunctionArgumentMessageView::Unset => Err(
            DecodeError::MalformedPlan(MissingField::ArgType),
        ),
        FunctionArgumentMessageView::Enum(name) => Ok(FunctionArgumentView::Enum(name)),
        FunctionArgumentMessageView::Type(ty) => match type_spec(reading, ty) {
            Err(e) => Err(e),
            Ok(decoded) => Ok(FunctionArgumentView::Type(decoded)),
        },
        FunctionArgumentMessageView::Value(expression) => match expression_spec(
            catalog,
            reading,
            expression,
        ) {
            Err(e) => Err(e),
            Ok(decoded) => Ok(FunctionArgumentView::Value(decoded)),
        },
    }
}

/// The expressions that the messages from position `next` on decode to,
/// after `done`.
pub open spec fn expressions_from(
    catalog: CatalogView,
    reading: NullabilityReading,
    expressions: Seq<ExpressionMessageView>,
    next: int,
    done: Seq<ExpressionView>,
) -> Result<Seq<ExpressionView>, DecodeError>
    decreases expressions.len() - next,
{
    if next < 0 || next >= expressions.len() {
        Ok(done)
    } else {
        match expression_spec(catalog, reading, expressions[next]) {
            Err(e) => Err(e),
            Ok(expression) => expressions_from(
                catalog,
                reading,
                expressions,
                next + 1,
                done.push(expression),
            ),
        }
    }
}

/// What a relation decodes to.
pub open spec fn relation_spec(
    catalog: CatalogView,
    reading: NullabilityReading,
    message: RelMessageView,
) -> Result<RelView, DecodeError>
    decreases message,
{
    match message {
        RelMessageView::Unset => Err(DecodeError::MalformedPlan(MissingField::RelType)),
        RelMessageView::Read(read) => match read_spec(reading, read) {
            Err(e) => Err(e),
            Ok(decoded) => Ok(RelView::Read(decoded)),
        },
        RelMessageView::Project(project) => match project_spec(catalog, reading, project) {
            Err(e) => Err(e),
            Ok(decoded) => Ok(RelView::Project(decoded)),
        },
        RelMessageView::Unsupported(kind) => Err(DecodeError::UnsupportedRelationType(kind)),
    }
}

/// What a project relation decodes to: its input first, then its output
/// expressions in order.
pub open spec fn project_spec(
    catalog: CatalogView,
    reading: NullabilityReading,
    message: ProjectMessageView,
) -> Result<ProjectView, DecodeError>
    decreases message,
{
    match message.input {
        None => Err(DecodeError::MalformedPlan(MissingField::ProjectInput)),
        Some(input) => match relation_spec(catalog, reading, *input) {
            Err(e) => Err(e),
            Ok(decoded) => project_over(catalog, reading, message, decoded),
        },
    }
}

/// The project relation over an input that is already decoded.
pub open spec fn project_over(
    catalog: CatalogView,
    reading: NullabilityReading,
    message: ProjectMessageView,
    input: RelView,
) -> Result<ProjectView, DecodeError> {
    match expressions_from(catalog, reading, message.expressions, 0, Seq::empty()) {
        Err(e) => Err(e),
        Ok(expressions) => Ok(ProjectView { input: Box::new(input), expressions }),
    }
}

/// The relation that a plan's tree starts from: the first top-level entry,
/// itself if it is a bare relation, what it wraps if it is a root.
pub open spec fn plan_root(plan: PlanMessageView) -> Result<RelMessageView, DecodeError> {
    if plan.relations.len() == 0 {
        Err(DecodeError::MalformedPlan(MissingField::Relations))
    } else {
        match plan.relations[0] {
            PlanRelMessageView::Unset => Err(DecodeError::MalformedPlan(MissingField::PlanRelType)),
            PlanRelMessageView::Rel(rel) => Ok(rel),
            PlanRelMessageView::Root { input } => match input {
                None => Err(DecodeError::MalformedPlan(MissingField::RootInput)),
                Some(rel) => Ok(rel),
            },
        }
    }
}

/// What the relation tree of a plan decodes to under a given catalog.
pub open spec fn plan_spec(
    catalog: CatalogView,
    reading: NullabilityReading,
    plan: PlanMessageView,
) -> Result<PlanView, DecodeError> {
    match plan_root(plan) {
        Err(e) => Err(e),
        Ok(rel) => match relation_spec(catalog, reading, rel) {
            Err(e) => Err(e),
            Ok(root) => Ok(PlanView { root }),
        },
    }
}

/// What a plan message decodes to: the gather pass over its declarations,
/// then its relation tree under the catalog gathered.
pub open spec fn decode_spec(plan: PlanMessageView, reading: NullabilityReading) -> Result<
    PlanView,
    DecodeError,
> {
    match gather_spec(plan) {
        Err(e) => Err(e),
        Ok(catalog) => plan_spec(catalog, reading, plan),
    }
}

} // verus!
