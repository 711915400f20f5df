//! The expressions of the intermediate representation.

use vstd::prelude::*;
use crate::plans::expressions::field_reference::FieldReference;
use crate::plans::expressions::literal::Literal;
use crate::plans::expressions::scalar_function::{
    ScalarFunctionInvocation,
    ScalarFunctionInvocationView,
};
use crate::types::{Type, TypeView};

pub mod field_reference;
pub mod literal;
pub mod scalar_function;

verus! {

/// A value-producing computation.
#[derive(Debug, PartialEq, Eq)]
pub enum Expression {
    Literal(Literal),
    FieldReference(FieldReference),
    ScalarFunction(ScalarFunctionInvocation),
}

/// The mathematical value of an `Expression`.
pub enum ExpressionView {
    Literal(Literal),
    FieldReference(FieldReference),
    ScalarFunction(ScalarFunctionInvocationView),
}

impl View for Expression {
    type V = ExpressionView;

    open spec fn view(&self) -> ExpressionView
        decreases self,
    {
        match self {
            Expression::Literal(literal) => ExpressionView::Literal(*literal),
            Expression::FieldReference(reference) => ExpressionView::FieldReference(*reference),
            Expression::ScalarFunction(invocation) => ExpressionView::ScalarFunction(invocation@),
        }
    }
}

/// One argument of a function invocation.
#[derive(Debug, PartialEq, Eq)]
pub enum FunctionArgument {
    Value(Expression),
    Enum(String),
    Type(Type),
}

/// The mathematical value of a `FunctionArgument`.
pub enum FunctionArgumentView {
    Value(ExpressionView),
    Enum(Seq<char>),
    Type(TypeView),
}

impl View for FunctionArgument {
    type V = FunctionArgumentView;

    open spec fn view(&self) -> FunctionArgumentView
        decreases self,
    {
        match self {
            FunctionArgument::Value(expression) => FunctionArgumentView::Value(expression@),
            FunctionArgument::Enum(name) => FunctionArgumentView::Enum(name@),
            FunctionArgument::Type(ty) => FunctionArgumentView::Type(ty@),
        }
    }
}

/// The name under which an extension declares a function.
#[derive(Debug, PartialEq, Eq)]
pub struct FunctionSignature(pub String);

impl View for FunctionSignature {
    type V = Seq<char>;

    open spec fn view(&self) -> Seq<char> {
        self.0@
    }
}

impl Clone for FunctionSignature {
    fn clone(&self) -> (r: Self)
        ensures
            r == *self,
    {
        FunctionSignature(self.0.clone())
    }
}

/// The identifier of an extension namespace.
#[derive(Debug, PartialEq, Eq)]
pub struct URI(pub String);

impl View for URI {
    type V = Seq<char>;

    open spec fn view(&self) -> Seq<char> {
        self.0@
    }
}

impl Clone for URI {
    fn clone(&self) -> (r: Self)
        ensures
            r == *self,
    {
        URI(self.0.clone())
    }
}

/// A resolved extension function: its signature and the URI of the extension
/// that declares it.
#[derive(Debug, PartialEq, Eq)]
pub struct Function {
    pub signature: FunctionSignature,
    pub extension: URI,
}

/// The mathematical value of a `Function`.
pub struct FunctionView {
    pub signature: Seq<char>,
    pub extension: Seq<char>,
}

impl View for Function {
    type V = FunctionView;

    open spec fn view(&self) -> FunctionView {
        FunctionView { signature: self.signature@, extension: self.extension@ }
    }
}

impl Clone for Function {
    fn clone(&self) -> (r: Self)
        ensures
            r == *self,
    {
        Function { signature: self.signature.clone(), extension: self.extension.clone() }
    }
}

} // verus!
