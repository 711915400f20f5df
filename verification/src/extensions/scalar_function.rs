//! Scalar functions of a catalog.

use vstd::prelude::*;
use crate::error::{CatalogError, catalog_outcome};
use crate::extensions::text::{
    ScalarFunctionImplText,
    ScalarFunctionImplTextView,
    ScalarFunctionText,
    ScalarFunctionTextView,
};
use crate::types::{Type, TypeView, type_text_spec};
use crate::views::seq_views;

verus! {

/// One implementation of a scalar function: the type it returns. The
/// arguments of an implementation are not modelled, and the list is empty.
#[derive(Debug, PartialEq, Eq)]
pub struct ScalarFunctionVariant {
    pub arguments: Vec<String>,
    pub return_type: Type,
}

/// The mathematical value of a `ScalarFunctionVariant`.
pub struct ScalarFunctionVariantView {
    pub arguments: Seq<Seq<char>>,
    pub return_type: TypeView,
}

impl View for ScalarFunctionVariant {
    type V = ScalarFunctionVariantView;

    open spec fn view(&self) -> ScalarFunctionVariantView {
        ScalarFunctionVariantView {
            arguments: seq_views(self.arguments@),
            return_type: self.return_type@,
        }
    }
}

/// A scalar function: its name and its implementations, in the order of the
/// catalog.
#[derive(Debug, PartialEq, Eq)]
pub struct ScalarFunction {
    pub name: String,
    pub variants: Vec<ScalarFunctionVariant>,
}

/// The mathematical value of a `ScalarFunction`.
pub struct ScalarFunctionView {
    pub name: Seq<char>,
    pub variants: Seq<ScalarFunctionVariantView>,
}

impl View for ScalarFunction {
    type V = ScalarFunctionView;

    open spec fn view(&self) -> ScalarFunctionView {
        ScalarFunctionView { name: self.name@, variants: seq_views(self.variants@) }
    }
}

/// What an implementation of the catalog stands for: no arguments, and the
/// type that its return type names.
pub open spec fn variant_spec(text: ScalarFunctionImplTextView) -> Result<
    ScalarFunctionVariantView,
    CatalogError,
> {
    match type_text_spec(text.return_type) {
        Err(e) => Err(e),
        Ok(return_type) => Ok(
            ScalarFunctionVariantView { arguments: Seq::empty(), return_type },
        ),
    }
}

/// The variants that the implementations from position `next` on stand for,
/// after `done`.
pub open spec fn variants_from(
    impls: Seq<ScalarFunctionImplTextView>,
    next: int,
    done: Seq<ScalarFunctionVariantView>,
) -> Result<Seq<ScalarFunctionVariantView>, CatalogError>
    decreases impls.len() - next,
{
    if next < 0 || next >= impls.len() {
        Ok(done)
    } else {
        match variant_spec(impls[next]) {
            Err(e) => Err(e),
            Ok(variant) => variants_from(impls, next + 1, done.push(variant)),
        }
    }
}

/// What a scalar function of the catalog stands for: its name, and one
/// variant for each implementation, in order.
pub open spec fn scalar_function_text_spec(text: ScalarFunctionTextView) -> Result<
    ScalarFunctionView,
    CatalogError,
> {
    match variants_from(text.impls, 0, Seq::empty()) {
        Err(e) => Err(e),
        Ok(variants) => Ok(ScalarFunctionView { name: text.name, variants }),
    }
}

impl ScalarFunctionVariant {
    /// Converts one implementation of the catalog.
    pub fn from_text(text: &ScalarFunctionImplText) -> (r: Result<
        ScalarFunctionVariant,
        CatalogError,
    >)
        ensures
            catalog_outcome(r, variant_spec(text@)),
    {
        match Type::from_text(&text.return_type) {
            Err(e) => Err(e),
            Ok(return_type) => {
                let arguments: Vec<String> = Vec::new();
                assert(seq_views(arguments@) =~= Seq::empty());
                Ok(ScalarFunctionVariant { arguments, return_type })
            },
        }
    }
}

impl ScalarFunction {
    /// Converts a scalar function of the catalog, implementation by
    /// implementation, up to the first that has no counterpart.
    pub fn from_text(text: &ScalarFunctionText) -> (r: Result<ScalarFunction, CatalogError>)
        ensures
            catalog_outcome(r, scalar_function_text_spec(text@)),
    {
        let mut variants: Vec<ScalarFunctionVariant> = Vec::new();
        let mut i: usize = 0;
        assert(seq_views(variants@) =~= Seq::empty());
        while i < text.impls.len()
            invariant
                i <= text.impls.len(),
                variants_from(text@.impls, 0, Seq::empty()) == variants_from(
                    text@.impls,
                    i as int,
                    seq_views(variants@),
                ),
            decreases text.impls.len() - i,
        {
            let ghost done = seq_views(variants@);
            match ScalarFunctionVariant::from_text(&text.impls[i]) {
                Err(e) => {
                    return Err(e);
                },
                Ok(variant) => {
                    let ghost view = variant@;
                    variants.push(variant);
                    assert(seq_views(variants@) =~= done.push(view));
                },
            }
            i += 1;
        }
        Ok(ScalarFunction { name: text.name.clone(), variants })
    }
}

} // verus!
