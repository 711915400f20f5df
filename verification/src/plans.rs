//! The relation tree of the intermediate representation.

use vstd::prelude::*;
use crate::plans::expressions::{Expression, ExpressionView};
use crate::types::{NamedStruct, NamedStructView};
use crate::views::seq_views;

pub mod expressions;

verus! {

/// One relational-algebra program: a single tree of relations.
#[derive(Debug, PartialEq, Eq)]
pub struct Plan {
    pub root: Box<Rel>,
}

/// A node of the relation tree.
#[derive(Debug, PartialEq, Eq)]
pub enum Rel {
    Read(Read),
    Project(Project),
}

/// A leaf that produces rows of the given schema.
#[derive(Debug, PartialEq, Eq)]
pub struct Read {
    pub base_schema: NamedStruct,
}

/// A relation that computes output expressions over the rows of its input.
#[derive(Debug, PartialEq, Eq)]
pub struct Project {
    pub input: Box<Rel>,
    pub expressions: Vec<Expression>,
}

/// The mathematical value of a `Read`.
pub struct ReadView {
    pub base_schema: NamedStructView,
}

/// The mathematical value of a `Project`.
pub struct ProjectView {
    pub input: Box<RelView>,
    pub expressions: Seq<ExpressionView>,
}

/// The mathematical value of a `Rel`.
pub enum RelView {
    Read(ReadView),
    Project(ProjectView),
}

/// The mathematical value of a `Plan`.
pub struct PlanView {
    pub root: RelView,
}

impl View for Read {
    type V = ReadView;

    open spec fn view(&self) -> ReadView {
        ReadView { base_schema: self.base_schema@ }
    }
}

impl View for Project {
    type V = ProjectView;

    open spec fn view(&self) -> ProjectView
        decreases self,
    {
        ProjectView {
            input: Box::new((*self.input)@),
            expressions: seq_views(self.expressions@),
        }
    }
}

impl View for Rel {
    type V = RelView;

    open spec fn view(&self) -> RelView
        decreases self,
    {
        match self {
            Rel::Read(read) => RelView::Read(read@),
            Rel::Project(project) => RelView::Project(project@),
        }
    }
}

impl View for Plan {
    type V = PlanView;

    open spec fn view(&self) -> PlanView {
        PlanView { root: (*self.root)@ }
    }
}

} // verus!
