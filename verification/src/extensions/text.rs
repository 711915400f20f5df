//! A function catalog as its text form states it: for each scalar function
//! a name and its implementations, each with arguments and a return type.
//! Only what the conversion reads is held.

use vstd::prelude::*;
use crate::views::seq_views;

verus! {

/// A type as the catalog writes it: a type name, or a structure.
#[derive(Debug, PartialEq, Eq)]
pub enum TypeText {
    Name(String),
    Structure,
}

/// One argument of an implementation.
#[derive(Debug, PartialEq, Eq)]
pub enum ArgumentText {
    Enumeration,
    Value { name: Option<String>, value: TypeText, constant: Option<bool> },
    Type,
}

/// One implementation of a scalar function.
#[derive(Debug, PartialEq, Eq)]
pub struct ScalarFunctionImplText {
    pub return_type: TypeText,
}

/// A scalar function and its implementations.
#[derive(Debug, PartialEq, Eq)]
pub struct ScalarFunctionText {
    pub name: String,
    pub impls: Vec<ScalarFunctionImplText>,
}

/// The scalar functions of one catalog file.
#[derive(Debug, PartialEq, Eq)]
pub struct SimpleExtensionsText {
    pub scalar_functions: Vec<ScalarFunctionText>,
}

/// The mathematical value of a `TypeText`.
pub enum TypeTextView {
    Name(Seq<char>),
    Structure,
}

/// The mathematical value of an `ArgumentText`.
pub enum ArgumentTextView {
    Enumeration,
    Value { name: Option<Seq<char>>, value: TypeTextView, constant: Option<bool> },
    Type,
}

/// The mathematical value of a `ScalarFunctionImplText`.
pub struct ScalarFunctionImplTextView {
    pub return_type: TypeTextView,
}

/// The mathematical value of a `ScalarFunctionText`.
pub struct ScalarFunctionTextView {
    pub name: Seq<char>,
    pub impls: Seq<ScalarFunctionImplTextView>,
}

/// The mathematical value of a `SimpleExtensionsText`.
pub struct SimpleExtensionsTextView {
    pub scalar_functions: Seq<ScalarFunctionTextView>,
}

impl View for TypeText {
    type V = TypeTextView;

    open spec fn view(&self) -> TypeTextView {
        match self {
            TypeText::Name(name) => TypeTextView::Name(name@),
            TypeText::Structure => TypeTextView::Structure,
        }
    }
}

impl View for ArgumentText {
    type V = ArgumentTextView;

    open spec fn view(&self) -> ArgumentTextView {
        match self {
            ArgumentText::Enumeration => ArgumentTextView::Enumeration,
            ArgumentText::Value { name, value, constant } => ArgumentTextView::Value {
                name: match name {
                    Some(name) => Some(name@),
                    None => None,
                },
                value: value@,
                constant: *constant,
            },
            ArgumentText::Type => ArgumentTextView::Type,
        }
    }
}

impl View for ScalarFunctionImplText {
    type V = ScalarFunctionImplTextView;

    open spec fn view(&self) -> ScalarFunctionImplTextView {
        ScalarFunctionImplTextView { return_type: self.return_type@ }
    }
}

impl View for ScalarFunctionText {
    type V = ScalarFunctionTextView;

    open spec fn view(&self) -> ScalarFunctionTextView {
        ScalarFunctionTextView { name: self.name@, impls: seq_views(self.impls@) }
    }
}

impl View for SimpleExtensionsText {
    type V = SimpleExtensionsTextView;

    open spec fn view(&self) -> SimpleExtensionsTextView {
        SimpleExtensionsTextView { scalar_functions: seq_views(self.scalar_functions@) }
    }
}

} // verus!
