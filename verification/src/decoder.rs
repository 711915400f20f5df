//! The plan decoder: the gather pass over a plan's extension declarations,
//! and the walk over its relation tree.

use std::collections::HashMap;
use vstd::prelude::*;
use crate::decoder::model::{
    CatalogView,
    decode_spec,
    empty_catalog,
    gather_extensions_from,
    gather_spec,
    gather_uris_from,
    lookup_spec,
    plan_spec,
    register_extension,
    register_function,
    register_uri,
};
use crate::error::{AnchorKind, DecodeError, ExtensionKind, MissingField, decodes_to};
use crate::message::{
    ExtensionFunctionMessage,
    ExtensionMessage,
    ExtensionUriMessage,
    FieldReferenceMessage,
    LiteralMessage,
    PlanMessage,
    PlanRelMessage,
    TypeMessage,
};
use crate::plans::Plan;
use crate::plans::expressions::{Function, FunctionSignature, URI};
use crate::plans::expressions::field_reference::{FieldReference, field_reference_spec};
use crate::plans::expressions::literal::{Literal, literal_spec};
use crate::types::{NullabilityReading, Type, type_spec};

pub mod expression_walk;
pub mod laws;
pub mod model;
pub mod relation_walk;

verus! {

broadcast use vstd::std_specs::hash::group_hash_axioms;

/// Decodes a plan message with a decoder of its own, under the default
/// reading of the nullability code.
pub fn decode_prost_plan(plan: &PlanMessage) -> (r: Result<Plan, DecodeError>)
    ensures
        decodes_to(r, decode_spec(plan@, NullabilityReading::RequiredIsTrue)),
{
    let mut decoder = ProstPlanDecoder::new();
    decoder.decode(plan)
}

/// Decodes plan messages. It owns the two anchor tables of the plan it last
/// gathered, and the reading of the nullability code that it decodes under.
pub struct ProstPlanDecoder {
    extension_uri_map: HashMap<u32, URI>,
    function_map: HashMap<u32, Function>,
    reading: NullabilityReading,
}

impl ProstPlanDecoder {
    /// The anchor tables, as mathematics.
    pub closed spec fn catalog(&self) -> CatalogView {
        CatalogView {
            uris: self.extension_uri_map@.map_values(|uri: URI| uri@),
            functions: self.function_map@.map_values(|function: Function| function@),
        }
    }

    /// The reading of the nullability code that this decoder decodes under.
    pub closed spec fn reading(&self) -> NullabilityReading {
        self.reading
    }

    /// A decoder with empty anchor tables and the default reading of the
    /// nullability code.
    pub fn new() -> (r: ProstPlanDecoder)
        ensures
            r.catalog() == empty_catalog(),
            r.reading() == NullabilityReading::RequiredIsTrue,
    {
        ProstPlanDecoder::with_reading(NullabilityReading::RequiredIsTrue)
    }

    /// A decoder with empty anchor tables and the given reading of the
    /// nullability code.
    pub fn with_reading(reading: NullabilityReading) -> (r: ProstPlanDecoder)
        ensures
            r.catalog() == empty_catalog(),
            r.reading() == reading,
    {
        let r = ProstPlanDecoder {
            extension_uri_map: HashMap::new(),
            function_map: HashMap::new(),
            reading,
        };
        proof {
            assert(r.catalog().uris =~= Map::empty());
            assert(r.catalog().functions =~= Map::empty());
        }
        r
    }

    /// Registers one extension URI under its anchor. An anchor that is
    /// already taken is refused and the tables stay as they were.
    pub fn gather_extension_uri(&mut self, declaration: &ExtensionUriMessage) -> (r: Result<
        (),
        DecodeError,
    >)
        ensures
            final(self).reading() == old(self).reading(),
            match register_uri(
                old(self).catalog(),
                declaration.extension_uri_anchor,
                declaration.uri@,
            ) {
                Ok(catalog) => r is Ok && final(self).catalog() == catalog,
                Err(e) => r == Err::<(), DecodeError>(e) && final(self).catalog() == old(
                    self,
                ).catalog(),
            },
    {
        let anchor = declaration.extension_uri_anchor;
        if self.extension_uri_map.contains_key(&anchor) {
            return Err(DecodeError::DuplicateAnchor(AnchorKind::ExtensionUri, anchor));
        }
        let uri = URI(declaration.uri.clone());
        self.extension_uri_map.insert(anchor, uri);
        proof {
            assert(self.catalog().uris =~= old(self).catalog().uris.insert(
                anchor,
                declaration.uri@,
            ));
        }
        Ok(())
    }

    /// Registers one extension function under its anchor, resolved against
    /// the URIs registered so far. A reference to an unregistered URI and an
    /// anchor that is already taken are refused, in that order, and the
    /// tables stay as they were.
    pub fn gather_function_mapping(&mut self, function: &ExtensionFunctionMessage) -> (r: Result<
        (),
        DecodeError,
    >)
        ensures
            final(self).reading() == old(self).reading(),
            match register_function(
                old(self).catalog(),
                function.extension_uri_reference,
                function.function_anchor,
                function.name@,
            ) {
                Ok(catalog) => r is Ok && final(self).catalog() == catalog,
                Err(e) => r == Err::<(), DecodeError>(e) && final(self).catalog() == old(
                    self,
                ).catalog(),
            },
    {
        let extension = match self.extension_uri_map.get(&function.extension_uri_reference) {
            None => {
                return Err(DecodeError::UnresolvedExtension(function.extension_uri_reference));
            },
            Some(uri) => uri.clone(),
        };
        let function_anchor = function.function_anchor;
        if self.function_map.contains_key(&function_anchor) {
            return Err(DecodeError::DuplicateAnchor(AnchorKind::Function, function_anchor));
        }
        let signature = FunctionSignature(function.name.clone());
        let resolved = Function { signature, extension };
        self.function_map.insert(function_anchor, resolved);
        proof {
            assert(self.catalog().functions =~= old(self).catalog().functions.insert(
                function_anchor,
                resolved@,
            ));
        }
        Ok(())
    }

    /// Registers one extension declaration. Only functions are registered.
    pub fn gather_extension(&mut self, extension: &ExtensionMessage) -> (r: Result<
        (),
        DecodeError,
    >)
        ensures
            final(self).reading() == old(self).reading(),
            match register_extension(old(self).catalog(), extension@) {
                Ok(catalog) => r is Ok && final(self).catalog() == catalog,
                Err(e) => r == Err::<(), DecodeError>(e) && final(self).catalog() == old(
                    self,
                ).catalog(),
            },
    {
        match extension {
            ExtensionMessage::Unset => Err(DecodeError::MalformedPlan(MissingField::MappingType)),
            ExtensionMessage::ExtensionType => Err(
                DecodeError::UnsupportedExtensionKind(ExtensionKind::Type),
            ),
            ExtensionMessage::ExtensionTypeVariation => Err(
                DecodeError::UnsupportedExtensionKind(ExtensionKind::TypeVariation),
            ),
            ExtensionMessage::ExtensionFunction(function) => self.gather_function_mapping(
                function,
            ),
        }
    }

    /// The gather pass: replaces the anchor tables by those of the plan's
    /// declarations, the URIs first and the extensions after them, each list
    /// in order. The first declaration that is refused ends the pass and
    /// leaves the tables empty.
    pub fn gather_extensions(&mut self, plan: &PlanMessage) -> (r: Result<(), DecodeError>)
        ensures
            final(self).reading() == old(self).reading(),
            match gather_spec(plan@) {
                Ok(catalog) => r is Ok && final(self).catalog() == catalog,
                Err(e) => r == Err::<(), DecodeError>(e) && final(self).catalog()
                    == empty_catalog(),
            },
    {
        let mut fresh = ProstPlanDecoder::with_reading(self.reading);
        *self = ProstPlanDecoder::with_reading(self.reading);
        let mut i: usize = 0;
        while i < plan.extension_uris.len()
            invariant
                i <= plan.extension_uris.len(),
                fresh.reading() == old(self).reading(),
                self.reading() == old(self).reading(),
                self.catalog() == empty_catalog(),
                gather_uris_from(empty_catalog(), plan@.extension_uris, 0) == gather_uris_from(
                    fresh.catalog(),
                    plan@.extension_uris,
                    i as int,
                ),
            decreases plan.extension_uris.len() - i,
        {
            match fresh.gather_extension_uri(&plan.extension_uris[i]) {
                Err(e) => {
                    return Err(e);
                },
                Ok(_) => {},
            }
            i += 1;
        }
        let mut j: usize = 0;
        while j < plan.extensions.len()
            invariant
                j <= plan.extensions.len(),
                fresh.reading() == old(self).reading(),
                self.reading() == old(self).reading(),
                self.catalog() == empty_catalog(),
                gather_spec(plan@) == gather_extensions_from(
                    fresh.catalog(),
                    plan@.extensions,
                    j as int,
                ),
            decreases plan.extensions.len() - j,
        {
            match fresh.gather_extension(&plan.extensions[j]) {
                Err(e) => {
                    return Err(e);
                },
                Ok(_) => {},
            }
            j += 1;
        }
        *self = fresh;
        Ok(())
    }

    /// Decodes a plan message: the gather pass over its declarations, then
    /// its relation tree. The anchor tables are built anew for the call, so
    /// nothing of an earlier call, failed or not, bears on the outcome.
    pub fn decode(&mut self, plan: &PlanMessage) -> (r: Result<Plan, DecodeError>)
        ensures
            decodes_to(r, decode_spec(plan@, old(self).reading())),
            final(self).reading() == old(self).reading(),
            final(self).catalog() == match gather_spec(plan@) {
                Ok(catalog) => catalog,
                Err(_) => empty_catalog(),
            },
    {
        match self.gather_extensions(plan) {
            Err(e) => Err(e),
            Ok(_) => self.decode_plan(plan),
        }
    }

    /// Decodes the relation tree of a plan under the tables gathered so far.
    /// The tree starts from the plan's first top-level entry: the entry
    /// itself if it is a bare relation, what it wraps if it is a root.
    /// Further entries are not looked at.
    pub fn decode_plan(&self, plan: &PlanMessage) -> (r: Result<Plan, DecodeError>)
        ensures
            decodes_to(r, plan_spec(self.catalog(), self.reading(), plan@)),
    {
        if plan.relations.len() == 0 {
            return Err(DecodeError::MalformedPlan(MissingField::Relations));
        }
        let rel = match &plan.relations[0] {
            PlanRelMessage::Unset => {
                return Err(DecodeError::MalformedPlan(MissingField::PlanRelType));
            },
            PlanRelMessage::Rel(rel) => rel,
            PlanRelMessage::Root { input } => match input {
                None => {
                    return Err(DecodeError::MalformedPlan(MissingField::RootInput));
                },
                Some(rel) => rel,
            },
        };
        match self.decode_relation(rel) {
            Err(e) => Err(e),
            Ok(root) => Ok(Plan { root: Box::new(root) }),
        }
    }

    /// Decodes a type under this decoder's reading of the nullability code.
    pub fn decode_type(&self, message: &TypeMessage) -> (r: Result<Type, DecodeError>)
        ensures
            decodes_to(r, type_spec(self.reading(), *message)),
    {
        Type::from_message(message, self.reading)
    }

    /// Decodes a literal.
    pub fn decode_literal(&self, message: &LiteralMessage) -> (r: Result<Literal, DecodeError>)
        ensures
            r == literal_spec(*message),
    {
        Literal::from_message(message)
    }

    /// Decodes a field reference.
    pub fn decode_field_reference(&self, message: &FieldReferenceMessage) -> (r: Result<
        FieldReference,
        DecodeError,
    >)
        ensures
            r == field_reference_spec(*message),
    {
        FieldReference::from_message(message)
    }

    /// The function registered under an anchor.
    pub fn lookup_function(&self, anchor: u32) -> (r: Result<Function, DecodeError>)
        ensures
            decodes_to(r, lookup_spec(self.catalog(), anchor)),
    {
        match self.function_map.get(&anchor) {
            None => Err(DecodeError::UnresolvedFunctionReference(anchor)),
            Some(function) => Ok(function.clone()),
        }
    }
}

} // verus!
