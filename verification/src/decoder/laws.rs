//! What holds of every decode: lists come out in order and stop at their
//! first failure, the gather pass resolves distinct anchors and refuses a
//! reused one, and the outcome of a decode is a function of the message.

use vstd::prelude::*;
use crate::decoder::model::{
    CatalogView,
    argument_spec,
    arguments_from,
    decode_spec,
    empty_catalog,
    expression_spec,
    expressions_from,
    gather_extensions_from,
    gather_spec,
    gather_uris_from,
    named_struct_spec,
    plan_root,
    project_spec,
    register_extension,
    register_uri,
    relation_spec,
    scalar_function_spec,
    types_from,
};
use crate::error::{AnchorKind, DecodeError, RelationKind, decodes_to};
use crate::message::{
    ExpressionMessageView,
    ExtensionMessageView,
    ExtensionUriMessageView,
    FunctionArgumentMessageView,
    NamedStructMessageView,
    PlanMessageView,
    ProjectMessageView,
    RelMessageView,
    ScalarFunctionMessageView,
    TypeMessage,
};
use crate::plans::Plan;
use crate::plans::expressions::{ExpressionView, FunctionArgumentView};
use crate::types::{NullabilityReading, TypeView, type_spec};

verus! {

/// Types decoded from position `next` on follow `done` in order, one for
/// each message; a failure is that of the first message that fails.
proof fn lemma_types_from(
    reading: NullabilityReading,
    types: Seq<TypeMessage>,
    next: int,
    done: Seq<TypeView>,
)
    requires
        0 <= next <= types.len(),
    ensures
        match types_from(reading, types, next, done) {
            Ok(out) => {
                &&& out.len() == done.len() + types.len() - next
                &&& forall|i: int| 0 <= i < done.len() ==> #[trigger] out[i] == done[i]
                &&& forall|i: int|
                    next <= i < types.len() ==> #[trigger] type_spec(reading, types[i]) == Ok::<
                        TypeView,
                        DecodeError,
                    >(out[done.len() + i - next])
            },
            Err(e) => exists|k: int|
                {
                    &&& next <= k < types.len()
                    &&& #[trigger] type_spec(reading, types[k]) == Err::<TypeView, DecodeError>(e)
                    &&& forall|i: int|
                        next <= i < k ==> #[trigger] type_spec(reading, types[i]) is Ok
                },
        },
    decreases types.len() - next,
{
    if next < types.len() {
        match type_spec(reading, types[next]) {
            Err(e) => {},
            Ok(ty) => {
                lemma_types_from(reading, types, next + 1, done.push(ty));
                match types_from(reading, types, next + 1, done.push(ty)) {
                    Ok(out) => {
                        assert(out[done.len() as int] == done.push(ty)[done.len() as int]);
                        assert forall|i: int| 0 <= i < done.len() implies #[trigger] out[i]
                            == done[i] by {
                            assert(out[i] == done.push(ty)[i]);
                        }
                    },
                    Err(e) => {},
                }
            },
        }
    }
}

/// A list of types decodes to one type for each message, in order, or fails
/// as its first failing message does.
pub proof fn lemma_types_in_order(reading: NullabilityReading, types: Seq<TypeMessage>)
    ensures
        match types_from(reading, types, 0, Seq::empty()) {
            Ok(out) => {
                &&& out.len() == types.len()
                &&& forall|i: int|
                    0 <= i < types.len() ==> #[trigger] type_spec(reading, types[i]) == Ok::<
                        TypeView,
                        DecodeError,
                    >(out[i])
            },
            Err(e) => exists|k: int|
                {
                    &&& 0 <= k < types.len()
                    &&& #[trigger] type_spec(reading, types[k]) == Err::<TypeView, DecodeError>(e)
                    &&& forall|i: int| 0 <= i < k ==> #[trigger] type_spec(reading, types[i]) is Ok
                },
        },
{
    lemma_types_from(reading, types, 0, Seq::empty());
}

/// Expressions decoded from position `next` on follow `done` in order, one
/// for each message; a failure is that of the first message that fails.
proof fn lemma_expressions_from(
    catalog: CatalogView,
    reading: NullabilityReading,
    expressions: Seq<ExpressionMessageView>,
    next: int,
    done: Seq<ExpressionView>,
)
    requires
        0 <= next <= expressions.len(),
    ensures
        match expressions_from(catalog, reading, expressions, next, done) {
            Ok(out) => {
                &&& out.len() == done.len() + expressions.len() - next
                &&& forall|i: int| 0 <= i < done.len() ==> #[trigger] out[i] == done[i]
                &&& forall|i: int|
                    next <= i < expressions.len() ==> #[trigger] expression_spec(
                        catalog,
                        reading,
                        expressions[i],
                    ) == Ok::<ExpressionView, DecodeError>(out[done.len() + i - next])
            },
            Err(e) => exists|k: int|
                {
                    &&& next <= k < expressions.len()
                    &&& #[trigger] expression_spec(catalog, reading, expressions[k]) == Err::<
                        ExpressionView,
                        DecodeError,
                    >(e)
                    &&& forall|i: int|
                        next <= i < k ==> #[trigger] expression_spec(
                            catalog,
                            reading,
                            expressions[i],
                        ) is Ok
                },
        },
    decreases expressions.len() - next,
{
    if next < expressions.len() {
        match expression_spec(catalog, reading, expressions[next]) {
            Err(e) => {},
            Ok(expression) => {
                lemma_expressions_from(
                    catalog,
                    reading,
                    expressions,
                    next + 1,
                    done.push(expression),
                );
                match expressions_from(
                    catalog,
                    reading,
                    expressions,
                    next + 1,
                    done.push(expression),
                ) {
                    Ok(out) => {
                        assert(out[done.len() as int] == done.push(expression)[done.len() as int]);
                        assert forall|i: int| 0 <= i < done.len() implies #[trigger] out[i]
                            == done[i] by {
                            assert(out[i] == done.push(expression)[i]);
                        }
                    },
                    Err(e) => {},
                }
            },
        }
    }
}

/// A list of expressions decodes to one expression for each message, in
/// order, or fails as its first failing message does.
pub proof fn lemma_expressions_in_order(
    catalog: CatalogView,
    reading: NullabilityReading,
    expressions: Seq<ExpressionMessageView>,
)
    ensures
        match expressions_from(catalog, reading, expressions, 0, Seq::empty()) {
            Ok(out) => {
                &&& out.len() == expressions.len()
                &&& forall|i: int|
                    0 <= i < expressions.len() ==> #[trigger] expression_spec(
                        catalog,
                        reading,
                        expressions[i],
                    ) == Ok::<ExpressionView, DecodeError>(out[i])
            },
            Err(e) => exists|k: int|
                {
                    &&& 0 <= k < expressions.len()
                    &&& #[trigger] expression_spec(catalog, reading, expressions[k]) == Err::<
                        ExpressionView,
                        DecodeError,
                    >(e)
                    &&& forall|i: int|
                        0 <= i < k ==> #[trigger] expression_spec(
                            catalog,
                            reading,
                            expressions[i],
                        ) is Ok
                },
        },
{
    lemma_expressions_from(catalog, reading, expressions, 0, Seq::empty());
}

/// Arguments decoded from position `next` on follow `done` in order, one
/// for each message; a failure is that of the first message that fails.
proof fn lemma_arguments_from(
    catalog: CatalogView,
    reading: NullabilityReading,
    arguments: Seq<FunctionArgumentMessageView>,
    next: int,
    done: Seq<FunctionArgumentView>,
)
    requires
        0 <= next <= arguments.len(),
    ensures
        match arguments_from(catalog, reading, arguments, next, done) {
            Ok(out) => {
                &&& out.len() == done.len() + arguments.len() - next
                &&& forall|i: int| 0 <= i < done.len() ==> #[trigger] out[i] == done[i]
                &&& forall|i: int|
                    next <= i < arguments.len() ==> #[trigger] argument_spec(
                        catalog,
                        reading,
                        arguments[i],
                    ) == Ok::<FunctionArgumentView, DecodeError>(out[done.len() + i - next])
            },
            Err(e) => exists|k: int|
                {
                    &&& next <= k < arguments.len()
                    &&& #[trigger] argument_spec(catalog, reading, arguments[k]) == Err::<
                        FunctionArgumentView,
                        DecodeError,
                    >(e)
                    &&& forall|i: int|
                        next <= i < k ==> #[trigger] argument_spec(
                            catalog,
                            reading,
                            arguments[i],
                        ) is Ok
                },
        },
    decreases arguments.len() - next,
{
    if next < arguments.len() {
        match argument_spec(catalog, reading, arguments[next]) {
            Err(e) => {},
            Ok(argument) => {
                lemma_arguments_from(catalog, reading, arguments, next + 1, done.push(argument));
                match arguments_from(catalog, reading, arguments, next + 1, done.push(argument)) {
                    Ok(out) => {
                        assert(out[done.len() as int] == done.push(argument)[done.len() as int]);
                        assert forall|i: int| 0 <= i < done.len() implies #[trigger] out[i]
                            == done[i] by {
                            assert(out[i] == done.push(argument)[i]);
                        }
                    },
                    Err(e) => {},
                }
            },
        }
    }
}

/// The arguments of an invocation decode to one argument for each message,
/// in order, or fail as the first failing message does.
pub proof fn lemma_arguments_in_order(
    catalog: CatalogView,
    reading: NullabilityReading,
    arguments: Seq<FunctionArgumentMessageView>,
)
    ensures
        match arguments_from(catalog, reading, arguments, 0, Seq::empty()) {
            Ok(out) => {
                &&& out.len() == arguments.len()
                &&& forall|i: int|
                    0 <= i < arguments.len() ==> #[trigger] argument_spec(
                        catalog,
                        reading,
                        arguments[i],
                    ) == Ok::<FunctionArgumentView, DecodeError>(out[i])
            },
            Err(e) => exists|k: int|
                {
                    &&& 0 <= k < arguments.len()
                    &&& #[trigger] argument_spec(catalog, reading, arguments[k]) == Err::<
                        FunctionArgumentView,
                        DecodeError,
                    >(e)
                    &&& forall|i: int|
                        0 <= i < k ==> #[trigger] argument_spec(
                            catalog,
                            reading,
                            arguments[i],
                        ) is Ok
                },
        },
{
    lemma_arguments_from(catalog, reading, arguments, 0, Seq::empty());
}

/// Whether no two URI declarations share an anchor.
pub open spec fn distinct_uri_anchors(uris: Seq<ExtensionUriMessageView>) -> bool {
    forall|i: int, j: int|
        0 <= i < j < uris.len() ==> (#[trigger] uris[i]).extension_uri_anchor != (
        #[trigger] uris[j]).extension_uri_anchor
}

/// Whether a catalog holds the URIs of the first `count` declarations, each
/// under its anchor, and no other URI.
pub open spec fn holds_uris(
    catalog: CatalogView,
    uris: Seq<ExtensionUriMessageView>,
    count: int,
) -> bool {
    &&& forall|i: int|
        0 <= i < count ==> catalog.uris.contains_key((#[trigger] uris[i]).extension_uri_anchor)
            && catalog.uris[uris[i].extension_uri_anchor] == uris[i].uri
    &&& forall|anchor: u32| #[trigger]
        catalog.uris.contains_key(anchor) ==> exists|i: int|
            0 <= i < count && (#[trigger] uris[i]).extension_uri_anchor == anchor
}

/// A catalog that holds the URIs of the first `next` declarations, and
/// none under the anchor of the next one, holds the URIs of the first
/// `next + 1` declarations once the next one is registered.
proof fn lemma_holds_one_more_uri(
    catalog: CatalogView,
    uris: Seq<ExtensionUriMessageView>,
    next: int,
)
    requires
        0 <= next < uris.len(),
        holds_uris(catalog, uris, next),
        !catalog.uris.contains_key(uris[next].extension_uri_anchor),
    ensures
        register_uri(catalog, uris[next].extension_uri_anchor, uris[next].uri) is Ok,
        holds_uris(
            register_uri(catalog, uris[next].extension_uri_anchor, uris[next].uri)->Ok_0,
            uris,
            next + 1,
        ),
{
    let anchor = uris[next].extension_uri_anchor;
    let registered = register_uri(catalog, anchor, uris[next].uri)->Ok_0;
    assert forall|a: u32| #[trigger] registered.uris.contains_key(a) implies exists|i: int|
        0 <= i < next + 1 && (#[trigger] uris[i]).extension_uri_anchor == a by {
        if a == anchor {
            assert(uris[next].extension_uri_anchor == a);
        } else {
            let i = choose|i: int|
                0 <= i < next && (#[trigger] uris[i]).extension_uri_anchor == a;
            assert(0 <= i < next + 1 && uris[i].extension_uri_anchor == a);
        }
    }
}

proof fn lemma_gather_distinct_uris_from(
    catalog: CatalogView,
    uris: Seq<ExtensionUriMessageView>,
    next: int,
)
    requires
        0 <= next <= uris.len(),
        distinct_uri_anchors(uris),
        holds_uris(catalog, uris, next),
    ensures
        gather_uris_from(catalog, uris, next) is Ok,
        holds_uris(gather_uris_from(catalog, uris, next)->Ok_0, uris, uris.len() as int),
        gather_uris_from(catalog, uris, next)->Ok_0.functions == catalog.functions,
    decreases uris.len() - next,
{
    if next < uris.len() {
        let anchor = uris[next].extension_uri_anchor;
        if catalog.uris.contains_key(anchor) {
            let i = choose|i: int|
                0 <= i < next && (#[trigger] uris[i]).extension_uri_anchor == anchor;
            assert(uris[i].extension_uri_anchor != uris[next].extension_uri_anchor);
        }
        lemma_holds_one_more_uri(catalog, uris, next);
        lemma_gather_distinct_uris_from(
            register_uri(catalog, anchor, uris[next].uri)->Ok_0,
            uris,
            next + 1,
        );
    }
}

/// URI declarations with pairwise distinct anchors are all accepted, and
/// the catalog gathered from them resolves each anchor to the URI declared
/// under it and resolves no other anchor. The extension declarations that
/// follow leave this as it is: the catalog of the plan, where the gather
/// pass yields one, resolves the same anchors to the same URIs.
pub proof fn lemma_distinct_anchors_resolve(plan: PlanMessageView)
    requires
        distinct_uri_anchors(plan.extension_uris),
    ensures
        gather_uris_from(empty_catalog(), plan.extension_uris, 0) is Ok,
        holds_uris(
            gather_uris_from(empty_catalog(), plan.extension_uris, 0)->Ok_0,
            plan.extension_uris,
            plan.extension_uris.len() as int,
        ),
        gather_spec(plan) is Ok ==> holds_uris(
            gather_spec(plan)->Ok_0,
            plan.extension_uris,
            plan.extension_uris.len() as int,
        ),
{
    lemma_gather_distinct_uris_from(empty_catalog(), plan.extension_uris, 0);
    lemma_gathered_functions_from(
        gather_uris_from(empty_catalog(), plan.extension_uris, 0)->Ok_0,
        plan.extensions,
        0,
    );
}

proof fn lemma_gather_reused_anchor_from(
    catalog: CatalogView,
    uris: Seq<ExtensionUriMessageView>,
    next: int,
    reuse: int,
)
    requires
        0 <= next <= reuse < uris.len(),
        distinct_uri_anchors(uris.take(reuse)),
        holds_uris(catalog, uris, next),
        exists|i: int|
            0 <= i < reuse && (#[trigger] uris[i]).extension_uri_anchor
                == uris[reuse].extension_uri_anchor,
    ensures
        gather_uris_from(catalog, uris, next) == Err::<CatalogView, DecodeError>(
            DecodeError::DuplicateAnchor(
                AnchorKind::ExtensionUri,
                uris[reuse].extension_uri_anchor,
            ),
        ),
    decreases reuse - next,
{
    let anchor = uris[next].extension_uri_anchor;
    if next == reuse {
        let i = choose|i: int|
            0 <= i < reuse && (#[trigger] uris[i]).extension_uri_anchor
                == uris[reuse].extension_uri_anchor;
        assert(catalog.uris.contains_key(uris[i].extension_uri_anchor));
    } else {
        if catalog.uris.contains_key(anchor) {
            let i = choose|i: int|
                0 <= i < next && (#[trigger] uris[i]).extension_uri_anchor == anchor;
            assert(uris.take(reuse)[i].extension_uri_anchor != uris.take(
                reuse,
            )[next].extension_uri_anchor);
        }
        lemma_holds_one_more_uri(catalog, uris, next);
        lemma_gather_reused_anchor_from(
            register_uri(catalog, anchor, uris[next].uri)->Ok_0,
            uris,
            next + 1,
            reuse,
        );
    }
}

/// The first URI declaration that reuses the anchor of an earlier one is
/// refused as a duplicate of that anchor, and with it the gather pass and
/// the decode of the plan.
pub proof fn lemma_reused_anchor_refused(
    plan: PlanMessageView,
    reading: NullabilityReading,
    reuse: int,
)
    requires
        0 <= reuse < plan.extension_uris.len(),
        distinct_uri_anchors(plan.extension_uris.take(reuse)),
        exists|i: int|
            0 <= i < reuse && (#[trigger] plan.extension_uris[i]).extension_uri_anchor
                == plan.extension_uris[reuse].extension_uri_anchor,
    ensures
        gather_spec(plan) == Err::<CatalogView, DecodeError>(
            DecodeError::DuplicateAnchor(
                AnchorKind::ExtensionUri,
                plan.extension_uris[reuse].extension_uri_anchor,
            ),
        ),
        decode_spec(plan, reading) == Err::<crate::plans::PlanView, DecodeError>(
            DecodeError::DuplicateAnchor(
                AnchorKind::ExtensionUri,
                plan.extension_uris[reuse].extension_uri_anchor,
            ),
        ),
{
    lemma_gather_reused_anchor_from(empty_catalog(), plan.extension_uris, 0, reuse);
}

/// Whether no URI declaration has the given anchor.
pub open spec fn undeclared_anchor(uris: Seq<ExtensionUriMessageView>, anchor: u32) -> bool {
    forall|i: int| 0 <= i < uris.len() ==> (#[trigger] uris[i]).extension_uri_anchor != anchor
}

proof fn lemma_gathered_uris_are_declared(
    catalog: CatalogView,
    uris: Seq<ExtensionUriMessageView>,
    next: int,
    anchor: u32,
)
    requires
        0 <= next <= uris.len(),
        undeclared_anchor(uris, anchor),
        !catalog.uris.contains_key(anchor),
    ensures
        gather_uris_from(catalog, uris, next) is Ok ==> !gather_uris_from(
            catalog,
            uris,
            next,
        )->Ok_0.uris.contains_key(anchor),
    decreases uris.len() - next,
{
    if next < uris.len() {
        match register_uri(catalog, uris[next].extension_uri_anchor, uris[next].uri) {
            Err(e) => {},
            Ok(registered) => {
                assert(uris[next].extension_uri_anchor != anchor);
                lemma_gathered_uris_are_declared(registered, uris, next + 1, anchor);
            },
        }
    }
}

proof fn lemma_undeclared_extension_from(
    catalog: CatalogView,
    extensions: Seq<ExtensionMessageView>,
    next: int,
    at: int,
)
    requires
        0 <= next <= at < extensions.len(),
        extensions[at] is ExtensionFunction,
        !catalog.uris.contains_key(
            extensions[at]->ExtensionFunction_0.extension_uri_reference,
        ),
    ensures
        gather_extensions_from(catalog, extensions, next) is Err,
        gather_extensions_from(catalog, extensions.take(at), next) is Ok
            ==> gather_extensions_from(catalog, extensions, next) == Err::<
            CatalogView,
            DecodeError,
        >(
            DecodeError::UnresolvedExtension(
                extensions[at]->ExtensionFunction_0.extension_uri_reference,
            ),
        ),
    decreases at - next,
{
    if next < at {
        assert(extensions.take(at)[next] == extensions[next]);
        match register_extension(catalog, extensions[next]) {
            Err(e) => {},
            Ok(registered) => {
                lemma_undeclared_extension_from(registered, extensions, next + 1, at);
            },
        }
    }
}

/// A function declaration that refers to an anchor under which the plan
/// declares no URI makes the gather pass fail, and with it the decode. Where
/// the URI declarations and the extension declarations before it are all
/// accepted, the failure is that of the unresolved extension and names the
/// anchor referred to.
pub proof fn lemma_undeclared_extension_refused(
    plan: PlanMessageView,
    reading: NullabilityReading,
    at: int,
)
    requires
        0 <= at < plan.extensions.len(),
        plan.extensions[at] is ExtensionFunction,
        undeclared_anchor(
            plan.extension_uris,
            plan.extensions[at]->ExtensionFunction_0.extension_uri_reference,
        ),
    ensures
        gather_spec(plan) is Err,
        decode_spec(plan, reading) is Err,
        gather_uris_from(empty_catalog(), plan.extension_uris, 0) is Ok
            && gather_extensions_from(
            gather_uris_from(empty_catalog(), plan.extension_uris, 0)->Ok_0,
            plan.extensions.take(at),
            0,
        ) is Ok ==> gather_spec(plan) == Err::<CatalogView, DecodeError>(
            DecodeError::UnresolvedExtension(
                plan.extensions[at]->ExtensionFunction_0.extension_uri_reference,
            ),
        ) && decode_spec(plan, reading) == Err::<crate::plans::PlanView, DecodeError>(
            DecodeError::UnresolvedExtension(
                plan.extensions[at]->ExtensionFunction_0.extension_uri_reference,
            ),
        ),
{
    let anchor = plan.extensions[at]->ExtensionFunction_0.extension_uri_reference;
    lemma_gathered_uris_are_declared(empty_catalog(), plan.extension_uris, 0, anchor);
    match gather_uris_from(empty_catalog(), plan.extension_uris, 0) {
        Err(e) => {},
        Ok(with_uris) => {
            lemma_undeclared_extension_from(with_uris, plan.extensions, 0, at);
        },
    }
}

/// An invocation that decodes holds the function that the catalog has
/// under the invocation's anchor, the arguments decoded in order, and the
/// decoded output type. An invocation whose arguments decode and whose
/// anchor the catalog lacks fails as an unresolved function reference that
/// names the anchor.
pub proof fn lemma_invocation_resolves_function(
    catalog: CatalogView,
    reading: NullabilityReading,
    call: ScalarFunctionMessageView,
)
    ensures
        match scalar_function_spec(catalog, reading, call) {
            Ok(value) => {
                &&& value is ScalarFunction
                &&& catalog.functions.contains_key(call.function_reference)
                &&& value->ScalarFunction_0.function
                    == catalog.functions[call.function_reference]
                &&& arguments_from(catalog, reading, call.arguments, 0, Seq::empty()) == Ok::<
                    Seq<FunctionArgumentView>,
                    DecodeError,
                >(value->ScalarFunction_0.args)
                &&& call.output_type is Some
                &&& type_spec(reading, call.output_type->0) == Ok::<TypeView, DecodeError>(
                    value->ScalarFunction_0.output_type,
                )
            },
            Err(e) => arguments_from(catalog, reading, call.arguments, 0, Seq::empty()) is Ok
                && !catalog.functions.contains_key(call.function_reference) ==> e
                == DecodeError::UnresolvedFunctionReference(call.function_reference),
        },
{
    assert(Seq::<FunctionArgumentView>::empty().len() == 0);
}

/// The relation at the bottom of a chain of project relations.
pub open spec fn innermost(message: RelMessageView) -> RelMessageView
    decreases message,
{
    match message {
        RelMessageView::Project(project) => match project.input {
            Some(input) => innermost(*input),
            None => message,
        },
        _ => message,
    }
}

/// A relation tree whose innermost relation is of a type that the decoder
/// does not model is refused, whatever stands above it, with the failure
/// that names the type.
pub proof fn lemma_unsupported_relation_refused(
    catalog: CatalogView,
    reading: NullabilityReading,
    message: RelMessageView,
    kind: RelationKind,
)
    requires
        innermost(message) == RelMessageView::Unsupported(kind),
    ensures
        relation_spec(catalog, reading, message) == Err::<crate::plans::RelView, DecodeError>(
            DecodeError::UnsupportedRelationType(kind),
        ),
    decreases message,
{
    match message {
        RelMessageView::Project(project) => match project.input {
            Some(input) => {
                lemma_unsupported_relation_refused(catalog, reading, *input, kind);
            },
            None => {},
        },
        _ => {},
    }
}

/// A plan whose declarations are accepted and whose relation tree ends in a
/// relation type that the decoder does not model decodes to the failure that
/// names the type, and to no plan.
pub proof fn lemma_unsupported_plan_refused(
    plan: PlanMessageView,
    reading: NullabilityReading,
    kind: RelationKind,
)
    requires
        gather_spec(plan) is Ok,
        plan_root(plan) is Ok,
        innermost(plan_root(plan)->Ok_0) == RelMessageView::Unsupported(kind),
    ensures
        decode_spec(plan, reading) == Err::<crate::plans::PlanView, DecodeError>(
            DecodeError::UnsupportedRelationType(kind),
        ),
{
    lemma_unsupported_relation_refused(
        gather_spec(plan)->Ok_0,
        reading,
        plan_root(plan)->Ok_0,
        kind,
    );
}

/// A named struct that decodes keeps its names as they are and has one type
/// for each type message, in order.
pub proof fn lemma_named_struct_keeps_schema(
    reading: NullabilityReading,
    message: NamedStructMessageView,
)
    ensures
        match named_struct_spec(reading, message) {
            Ok(schema) => {
                &&& message.types is Some
                &&& schema.names == message.names
                &&& schema.types.len() == message.types->0.len()
                &&& forall|i: int|
                    0 <= i < schema.types.len() ==> #[trigger] type_spec(
                        reading,
                        message.types->0[i],
                    ) == Ok::<TypeView, DecodeError>(schema.types[i])
            },
            Err(_) => true,
        },
{
    if message.types is Some {
        lemma_types_in_order(reading, message.types->0);
    }
}

/// A project relation that decodes holds what its input decodes to, and
/// one expression for each expression message, in order.
pub proof fn lemma_project_keeps_input_and_order(
    catalog: CatalogView,
    reading: NullabilityReading,
    message: ProjectMessageView,
)
    ensures
        match project_spec(catalog, reading, message) {
            Ok(project) => {
                &&& message.input is Some
                &&& relation_spec(catalog, reading, *message.input->0) == Ok::<
                    crate::plans::RelView,
                    DecodeError,
                >(*project.input)
                &&& project.expressions.len() == message.expressions.len()
                &&& forall|i: int|
                    0 <= i < project.expressions.len() ==> #[trigger] expression_spec(
                        catalog,
                        reading,
                        message.expressions[i],
                    ) == Ok::<ExpressionView, DecodeError>(project.expressions[i])
            },
            Err(_) => true,
        },
{
    lemma_expressions_in_order(catalog, reading, message.expressions);
}

/// Two decodes of one plan message under one reading end alike: both fail
/// with the same failure, or both yield plans of the same value.
pub proof fn lemma_decode_is_repeatable(
    plan: PlanMessageView,
    reading: NullabilityReading,
    first: Result<Plan, DecodeError>,
    second: Result<Plan, DecodeError>,
)
    requires
        decodes_to(first, decode_spec(plan, reading)),
        decodes_to(second, decode_spec(plan, reading)),
    ensures
        match first {
            Ok(plan_one) => second is Ok && second->Ok_0@ == plan_one@,
            Err(e) => second == Err::<Plan, DecodeError>(e),
        },
{
}

/// Whether an extension declaration declares the function that a catalog
/// has under an anchor: it is a function declaration with that anchor, the
/// function bears its name, and the function belongs to the URI that the
/// catalog has under the anchor that the declaration refers to.
pub open spec fn declares_function(
    catalog: CatalogView,
    extension: ExtensionMessageView,
    anchor: u32,
) -> bool {
    &&& extension matches ExtensionMessageView::ExtensionFunction(function)
    &&& function.function_anchor == anchor
    &&& catalog.functions[anchor].signature == function.name
    &&& catalog.uris.contains_key(function.extension_uri_reference)
    &&& catalog.functions[anchor].extension == catalog.uris[function.extension_uri_reference]
}

/// Whether every function of a catalog is declared by one of the first
/// `count` extension declarations.
pub open spec fn functions_are_declared(
    catalog: CatalogView,
    extensions: Seq<ExtensionMessageView>,
    count: int,
) -> bool {
    forall|anchor: u32| #[trigger]
        catalog.functions.contains_key(anchor) ==> exists|k: int|
            0 <= k < count && #[trigger] declares_function(catalog, extensions[k], anchor)
}

proof fn lemma_gathered_functions_from(
    catalog: CatalogView,
    extensions: Seq<ExtensionMessageView>,
    next: int,
)
    requires
        0 <= next <= extensions.len(),
        functions_are_declared(catalog, extensions, next),
    ensures
        match gather_extensions_from(catalog, extensions, next) {
            Ok(full) => full.uris == catalog.uris && functions_are_declared(
                full,
                extensions,
                extensions.len() as int,
            ),
            Err(_) => true,
        },
    decreases extensions.len() - next,
{
    if next < extensions.len() {
        match register_extension(catalog, extensions[next]) {
            Err(e) => {},
            Ok(registered) => {
                let declared = extensions[next]->ExtensionFunction_0;
                assert forall|anchor: u32| #[trigger]
                    registered.functions.contains_key(anchor) implies exists|k: int|
                    0 <= k < next + 1 && #[trigger] declares_function(
                        registered,
                        extensions[k],
                        anchor,
                    ) by {
                    if anchor == declared.function_anchor {
                        assert(declares_function(registered, extensions[next], anchor));
                    } else {
                        let k = choose|k: int|
                            0 <= k < next && #[trigger] declares_function(
                                catalog,
                                extensions[k],
                                anchor,
                            );
                        assert(declares_function(registered, extensions[k], anchor));
                    }
                }
                lemma_gathered_functions_from(registered, extensions, next + 1);
            },
        }
    }
}

/// Every function of a gathered catalog stems from a function declaration
/// of the plan, and belongs to a URI that the catalog resolves.
pub proof fn lemma_gathered_functions_are_declared(plan: PlanMessageView)
    ensures
        match gather_spec(plan) {
            Ok(catalog) => functions_are_declared(
                catalog,
                plan.extensions,
                plan.extensions.len() as int,
            ),
            Err(_) => true,
        },
{
    match gather_uris_from(empty_catalog(), plan.extension_uris, 0) {
        Err(e) => {},
        Ok(with_uris) => {
            lemma_uris_keep_functions(empty_catalog(), plan.extension_uris, 0);
            lemma_gathered_functions_from(with_uris, plan.extensions, 0);
        },
    }
}

proof fn lemma_uris_keep_functions(
    catalog: CatalogView,
    uris: Seq<ExtensionUriMessageView>,
    next: int,
)
    requires
        0 <= next <= uris.len(),
    ensures
        match gather_uris_from(catalog, uris, next) {
            Ok(full) => full.functions == catalog.functions,
            Err(_) => true,
        },
    decreases uris.len() - next,
{
    if next < uris.len() {
        match register_uri(catalog, uris[next].extension_uri_anchor, uris[next].uri) {
            Err(e) => {},
            Ok(registered) => {
                lemma_uris_keep_functions(registered, uris, next + 1);
            },
        }
    }
}

} // verus!
