//! Decoding of relation trees. A chain of project relations is walked down
//! to its leaf with the projects waiting on an explicit stack, and built up
//! from the leaf: the depth of a message costs heap and not call stack.

use vstd::prelude::*;
use crate::decoder::ProstPlanDecoder;
use crate::decoder::model::{
    CatalogView,
    named_struct_spec,
    project_over,
    project_spec,
    read_spec,
    relation_spec,
    types_from,
};
use crate::error::{DecodeError, MissingField, decodes_to};
use crate::message::{NamedStructMessage, ProjectMessage, ReadMessage, RelMessage, TypeMessage};
use crate::plans::{Project, Read, Rel, RelView};
use crate::types::{NamedStruct, NullabilityReading, Type, TypeView};
use crate::views::seq_views;

verus! {

/// What the whole walk decodes to, given the outcome of the relation under
/// way: each waiting project, innermost last, takes the value as its input
/// and decodes its expressions over it; a failure ends the walk.
spec fn wrap<'a>(
    catalog: CatalogView,
    reading: NullabilityReading,
    waiting: Seq<&'a ProjectMessage>,
    outcome: Result<RelView, DecodeError>,
) -> Result<RelView, DecodeError>
    decreases waiting.len(),
{
    if waiting.len() == 0 {
        outcome
    } else {
        match outcome {
            Err(e) => Err(e),
            Ok(input) => wrap(
                catalog,
                reading,
                waiting.drop_last(),
                match project_over(catalog, reading, waiting.last()@, input) {
                    Err(e) => Err(e),
                    Ok(project) => Ok(RelView::Project(project)),
                },
            ),
        }
    }
}

/// The number of project relations above the leaf of a relation.
spec fn relation_depth(message: RelMessage) -> nat
    decreases message,
{
    match message {
        RelMessage::Project(project) => match project.input {
            Some(input) => 1 + relation_depth(*input),
            None => 0,
        },
        _ => 0,
    }
}

impl ProstPlanDecoder {
    /// Decodes a list of types in order, up to the first that fails.
    pub fn decode_types(&self, messages: &Vec<TypeMessage>) -> (r: Result<Vec<Type>, DecodeError>)
        ensures
            match r {
                Ok(decoded) => types_from(self.reading(), messages@, 0, Seq::empty()) == Ok::<
                    Seq<TypeView>,
                    DecodeError,
                >(seq_views(decoded@)),
                Err(e) => types_from(self.reading(), messages@, 0, Seq::empty()) == Err::<
                    Seq<TypeView>,
                    DecodeError,
                >(e),
            },
    {
        let mut decoded: Vec<Type> = Vec::new();
        let mut i: usize = 0;
        assert(seq_views(decoded@) =~= Seq::empty());
        while i < messages.len()
            invariant
                i <= messages.len(),
                types_from(self.reading(), messages@, 0, Seq::empty()) == types_from(
                    self.reading(),
                    messages@,
                    i as int,
                    seq_views(decoded@),
                ),
            decreases messages.len() - i,
        {
            let ghost done = seq_views(decoded@);
            match self.decode_type(&messages[i]) {
                Err(e) => {
                    return Err(e);
                },
                Ok(ty) => {
                    let ghost view = ty@;
                    decoded.push(ty);
                    assert(seq_views(decoded@) =~= done.push(view));
                },
            }
            i += 1;
        }
        Ok(decoded)
    }

    /// Decodes a row schema: the names as they are, the types in order.
    pub fn decode_named_struct(&self, message: &NamedStructMessage) -> (r: Result<
        NamedStruct,
        DecodeError,
    >)
        ensures
            decodes_to(r, named_struct_spec(self.reading(), message@)),
    {
        let names = message.names.clone();
        let types = match &message.types {
            None => {
                return Err(DecodeError::MalformedPlan(MissingField::SchemaStruct));
            },
            Some(types) => match self.decode_types(types) {
                Err(e) => {
                    return Err(e);
                },
                Ok(decoded) => decoded,
            },
        };
        assert(names@ =~= message.names@);
        Ok(NamedStruct { names, types })
    }

    /// Decodes a read relation: its base schema, and nothing else of it.
    pub fn decode_read(&self, message: &ReadMessage) -> (r: Result<Read, DecodeError>)
        ensures
            decodes_to(r, read_spec(self.reading(), message@)),
    {
        match &message.base_schema {
            None => Err(DecodeError::MalformedPlan(MissingField::BaseSchema)),
            Some(schema) => match self.decode_named_struct(schema) {
                Err(e) => Err(e),
                Ok(base_schema) => Ok(Read { base_schema }),
            },
        }
    }

    /// Decodes a relation tree: a read, or a project over a relation tree.
    /// Every other relation type is refused.
    pub fn decode_relation(&self, message: &RelMessage) -> (r: Result<Rel, DecodeError>)
        ensures
            decodes_to(r, relation_spec(self.catalog(), self.reading(), message@)),
    {
        let ghost catalog = self.catalog();
        let ghost reading = self.reading();
        let ghost expected = relation_spec(catalog, reading, message@);
        let mut waiting: Vec<&ProjectMessage> = Vec::new();
        let mut current: &RelMessage = message;
        let mut leaf: Option<Rel> = None;
        while leaf.is_none()
            invariant
                catalog == self.catalog(),
                reading == self.reading(),
                expected == relation_spec(catalog, reading, message@),
                match leaf {
                    None => wrap(
                        catalog,
                        reading,
                        waiting@,
                        relation_spec(catalog, reading, current@),
                    ) == expected,
                    Some(rel) => wrap(catalog, reading, waiting@, Ok(rel@)) == expected,
                },
            decreases relation_depth(*current) + (if leaf is None { 1nat } else { 0nat }),
        {
            match current {
                RelMessage::Unset => {
                    return Err(DecodeError::MalformedPlan(MissingField::RelType));
                },
                RelMessage::Unsupported(kind) => {
                    return Err(DecodeError::UnsupportedRelationType(*kind));
                },
                RelMessage::Read(read) => match self.decode_read(read) {
                    Err(e) => {
                        return Err(e);
                    },
                    Ok(decoded) => {
                        leaf = Some(Rel::Read(decoded));
                    },
                },
                RelMessage::Project(project) => match &project.input {
                    None => {
                        return Err(DecodeError::MalformedPlan(MissingField::ProjectInput));
                    },
                    Some(input) => {
                        proof {
                            assert(waiting@.push(project).drop_last() =~= waiting@);
                        }
                        waiting.push(project);
                        current = &**input;
                    },
                },
            }
        }
        let mut rel = leaf.unwrap();
        while waiting.len() > 0
            invariant
                catalog == self.catalog(),
                reading == self.reading(),
                expected == relation_spec(catalog, reading, message@),
                wrap(catalog, reading, waiting@, Ok(rel@)) == expected,
            decreases waiting.len(),
        {
            let project = waiting.pop().unwrap();
            let expressions = match self.decode_expressions(&project.expressions) {
                Err(e) => {
                    assert(wrap(catalog, reading, waiting@, Err(e)) == Err::<RelView, DecodeError>(
                        e,
                    ));
                    return Err(e);
                },
                Ok(decoded) => decoded,
            };
            rel = Rel::Project(Project { input: Box::new(rel), expressions });
        }
        Ok(rel)
    }

    /// Decodes a project relation: its input relation tree first, then its
    /// output expressions in order.
    pub fn decode_project(&self, message: &ProjectMessage) -> (r: Result<Project, DecodeError>)
        ensures
            decodes_to(r, project_spec(self.catalog(), self.reading(), message@)),
    {
        let input = match &message.input {
            None => {
                return Err(DecodeError::MalformedPlan(MissingField::ProjectInput));
            },
            Some(input) => match self.decode_relation(input) {
                Err(e) => {
                    return Err(e);
                },
                Ok(decoded) => decoded,
            },
        };
        let expressions = match self.decode_expressions(&message.expressions) {
            Err(e) => {
                return Err(e);
            },
            Ok(decoded) => decoded,
        };
        Ok(Project { input: Box::new(input), expressions })
    }
}

} // verus!
