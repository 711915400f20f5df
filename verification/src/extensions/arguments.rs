//! Arguments of catalog functions.

use vstd::prelude::*;
use crate::error::{CatalogError, catalog_outcome};
use crate::extensions::text::{ArgumentText, ArgumentTextView};
use crate::types::{Type, TypeView, type_text_spec};

verus! {

/// An argument that a catalog function takes.
#[derive(Debug, PartialEq, Eq)]
pub enum Argument {
    Value { name: Option<String>, value: Type, is_constant: bool },
}

/// The mathematical value of an `Argument`.
pub enum ArgumentView {
    Value { name: Option<Seq<char>>, value: TypeView, is_constant: bool },
}

impl View for Argument {
    type V = ArgumentView;

    open spec fn view(&self) -> ArgumentView {
        match self {
            Argument::Value { name, value, is_constant } => ArgumentView::Value {
                name: match name {
                    Some(name) => Some(name@),
                    None => None,
                },
                value: value@,
                is_constant: *is_constant,
            },
        }
    }
}

/// What an argument of the catalog stands for: a value argument keeps its
/// name, takes the type that its type text names, and is constant only if
/// the catalog says so. Enumeration and type arguments have no counterpart.
pub open spec fn argument_text_spec(text: ArgumentTextView) -> Result<ArgumentView, CatalogError> {
    match text {
        ArgumentTextView::Enumeration => Err(CatalogError::EnumerationArgument),
        ArgumentTextView::Type => Err(CatalogError::TypeArgument),
        ArgumentTextView::Value { name, value, constant } => match type_text_spec(value) {
            Err(e) => Err(e),
            Ok(ty) => Ok(
                ArgumentView::Value {
                    name,
                    value: ty,
                    is_constant: match constant {
                        Some(constant) => constant,
                        None => false,
                    },
                },
            ),
        },
    }
}

impl Argument {
    /// Converts an argument of the catalog.
    pub fn from_text(text: &ArgumentText) -> (r: Result<Argument, CatalogError>)
        ensures
            catalog_outcome(r, argument_text_spec(text@)),
    {
        match text {
            ArgumentText::Enumeration => Err(CatalogError::EnumerationArgument),
            ArgumentText::Type => Err(CatalogError::TypeArgument),
            ArgumentText::Value { name, value, constant } => {
                let ty = match Type::from_text(value) {
                    Err(e) => {
                        return Err(e);
                    },
                    Ok(ty) => ty,
                };
                let name = match name {
                    Some(name) => Some(name.clone()),
                    None => None,
                };
                let is_constant = match constant {
                    Some(constant) => *constant,
                    None => false,
                };
                Ok(Argument::Value { name, value: ty, is_constant })
            },
        }
    }
}

} // verus!
