//! The function catalog: the scalar functions that an extension file
//! declares, in the types of the intermediate representation.

use vstd::prelude::*;
use crate::error::{CatalogError, catalog_outcome};
use crate::extensions::scalar_function::{
    ScalarFunction,
    ScalarFunctionView,
    scalar_function_text_spec,
};
use crate::extensions::text::{
    ScalarFunctionTextView,
    SimpleExtensionsText,
    SimpleExtensionsTextView,
};
use crate::views::seq_views;

pub mod arguments;
pub mod scalar_function;
pub mod text;

verus! {

/// The scalar functions of a catalog, in the order of the catalog.
#[derive(Debug, PartialEq, Eq)]
pub struct Extensions {
    pub scalar_functions: Vec<ScalarFunction>,
}

/// The mathematical value of an `Extensions`.
pub struct ExtensionsView {
    pub scalar_functions: Seq<ScalarFunctionView>,
}

impl View for Extensions {
    type V = ExtensionsView;

    open spec fn view(&self) -> ExtensionsView {
        ExtensionsView { scalar_functions: seq_views(self.scalar_functions@) }
    }
}

/// The scalar functions that the catalog entries from position `next` on
/// stand for, after `done`.
pub open spec fn scalar_functions_from(
    functions: Seq<ScalarFunctionTextView>,
    next: int,
    done: Seq<ScalarFunctionView>,
) -> Result<Seq<ScalarFunctionView>, CatalogError>
    decreases functions.len() - next,
{
    if next < 0 || next >= functions.len() {
        Ok(done)
    } else {
        match scalar_function_text_spec(functions[next]) {
            Err(e) => Err(e),
            Ok(function) => scalar_functions_from(functions, next + 1, done.push(function)),
        }
    }
}

/// What a catalog stands for: one scalar function for each entry, in order.
pub open spec fn extensions_spec(text: SimpleExtensionsTextView) -> Result<
    ExtensionsView,
    CatalogError,
> {
    match scalar_functions_from(text.scalar_functions, 0, Seq::empty()) {
        Err(e) => Err(e),
        Ok(scalar_functions) => Ok(ExtensionsView { scalar_functions }),
    }
}

impl Extensions {
    /// Converts a catalog, function by function, up to the first that has
    /// no counterpart.
    pub fn from_text(text: &SimpleExtensionsText) -> (r: Result<Extensions, CatalogError>)
        ensures
            catalog_outcome(r, extensions_spec(text@)),
    {
        let mut scalar_functions: Vec<ScalarFunction> = Vec::new();
        let mut i: usize = 0;
        assert(seq_views(scalar_functions@) =~= Seq::empty());
        while i < text.scalar_functions.len()
            invariant
                i <= text.scalar_functions.len(),
                scalar_functions_from(text@.scalar_functions, 0, Seq::empty())
                    == scalar_functions_from(
                    text@.scalar_functions,
                    i as int,
                    seq_views(scalar_functions@),
                ),
            decreases text.scalar_functions.len() - i,
        {
            let ghost done = seq_views(scalar_functions@);
            match ScalarFunction::from_text(&text.scalar_functions[i]) {
                Err(e) => {
                    return Err(e);
                },
                Ok(function) => {
                    let ghost view = function@;
                    scalar_functions.push(function);
                    assert(seq_views(scalar_functions@) =~= done.push(view));
                },
            }
            i += 1;
        }
        Ok(Extensions { scalar_functions })
    }
}

} // verus!
