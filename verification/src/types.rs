//! The types of the intermediate representation, and the reading of the
//! three-valued nullability code.

use vstd::prelude::*;
use crate::error::{CatalogError, DecodeError, MissingField, catalog_outcome, decodes_to};
use crate::extensions::text::{TypeText, TypeTextView};
use crate::message::TypeMessage;
use crate::views::seq_views;

verus! {

/// A column or value type. `nullable` is the decoded nullability code.
#[derive(Debug, PartialEq, Eq)]
pub enum Type {
    I32 { nullable: bool },
    I64 { nullable: bool },
    FP64 { nullable: bool },
    String { nullable: bool },
    Struct { nullable: bool, types: Vec<Type> },
}

/// The mathematical value of a `Type`.
pub enum TypeView {
    I32 { nullable: bool },
    I64 { nullable: bool },
    FP64 { nullable: bool },
    String { nullable: bool },
    Struct { nullable: bool, types: Seq<TypeView> },
}

impl View for Type {
    type V = TypeView;

    open spec fn view(&self) -> TypeView
        decreases self,
    {
        match self {
            Type::I32 { nullable } => TypeView::I32 { nullable: *nullable },
            Type::I64 { nullable } => TypeView::I64 { nullable: *nullable },
            Type::FP64 { nullable } => TypeView::FP64 { nullable: *nullable },
            Type::String { nullable } => TypeView::String { nullable: *nullable },
            Type::Struct { nullable, types } => TypeView::Struct {
                nullable: *nullable,
                types: Seq::new(
                    types@.len(),
                    |i: int|
                        if 0 <= i < types@.len() {
                            types@[i]@
                        } else {
                            TypeView::I32 { nullable: false }
                        },
                ),
            },
        }
    }
}

/// A row schema: an ordered sequence of names beside an ordered sequence of
/// types. Nothing ties the two lengths together.
#[derive(Debug, PartialEq, Eq)]
pub struct NamedStruct {
    pub names: Vec<String>,
    pub types: Vec<Type>,
}

/// The mathematical value of a `NamedStruct`.
pub struct NamedStructView {
    pub names: Seq<Seq<char>>,
    pub types: Seq<TypeView>,
}

impl View for NamedStruct {
    type V = NamedStructView;

    open spec fn view(&self) -> NamedStructView {
        NamedStructView { names: seq_views(self.names@), types: seq_views(self.types@) }
    }
}

/// The code that leaves nullability unspecified.
pub const NULLABILITY_UNSPECIFIED: i32 = 0;

/// The code of a nullable type.
pub const NULLABILITY_NULLABLE: i32 = 1;

/// The code of a required type.
pub const NULLABILITY_REQUIRED: i32 = 2;

/// Which of the two concrete nullability codes becomes `true`.
///
/// `RequiredIsTrue` is the reading in use: the required code gives `true`
/// and the nullable code gives `false`. `NullableIsTrue` is the reading that
/// the name of the field suggests. Which of the two the consumers of a
/// decoded plan expect is not settled, so the reading is a parameter of the
/// decoder, and `RequiredIsTrue` is its default.
#[derive(Clone, Copy, Debug, PartialEq, Eq, Structural)]
pub enum NullabilityReading {
    RequiredIsTrue,
    NullableIsTrue,
}

/// The boolean that a nullability code stands for under a reading, or the
/// failure for a code that is unspecified or undefined.
pub open spec fn nullability_spec(n: i32, reading: NullabilityReading) -> Result<
    bool,
    DecodeError,
> {
    if n == NULLABILITY_NULLABLE {
        Ok(reading == NullabilityReading::NullableIsTrue)
    } else if n == NULLABILITY_REQUIRED {
        Ok(reading == NullabilityReading::RequiredIsTrue)
    } else {
        Err(DecodeError::InvalidNullability(n))
    }
}

/// The two readings accept the same codes and give opposite booleans.
pub proof fn lemma_readings_are_opposite(n: i32)
    ensures
        match nullability_spec(n, NullabilityReading::RequiredIsTrue) {
            Ok(nullable) => nullability_spec(n, NullabilityReading::NullableIsTrue) == Ok::<
                bool,
                DecodeError,
            >(!nullable),
            Err(e) => nullability_spec(n, NullabilityReading::NullableIsTrue) == Err::<
                bool,
                DecodeError,
            >(e),
        },
{
}

/// Collapses a nullability code into a boolean under the given reading.
pub fn nullability_under(n: i32, reading: NullabilityReading) -> (r: Result<bool, DecodeError>)
    ensures
        r == nullability_spec(n, reading),
{
    if n == NULLABILITY_NULLABLE {
        Ok(reading == NullabilityReading::NullableIsTrue)
    } else if n == NULLABILITY_REQUIRED {
        Ok(reading == NullabilityReading::RequiredIsTrue)
    } else {
        Err(DecodeError::InvalidNullability(n))
    }
}

/// Collapses a nullability code into a boolean under the default reading:
/// the nullable code gives `false`, the required code gives `true`, and every
/// other code is refused.
pub fn nullability(n: i32) -> (r: Result<bool, DecodeError>)
    ensures
        r == nullability_spec(n, NullabilityReading::RequiredIsTrue),
{
    nullability_under(n, NullabilityReading::RequiredIsTrue)
}

/// What a type message decodes to under a reading of the nullability code:
/// one of the four modelled kinds with its decoded nullability, or the
/// failure that names the kind or the code.
pub open spec fn type_spec(reading: NullabilityReading, message: TypeMessage) -> Result<
    TypeView,
    DecodeError,
> {
    match message {
        TypeMessage::Unset => Err(DecodeError::MalformedPlan(MissingField::TypeKind)),
        TypeMessage::I32 { nullability } => match nullability_spec(nullability, reading) {
            Ok(nullable) => Ok(TypeView::I32 { nullable }),
            Err(e) => Err(e),
        },
        TypeMessage::I64 { nullability } => match nullability_spec(nullability, reading) {
            Ok(nullable) => Ok(TypeView::I64 { nullable }),
            Err(e) => Err(e),
        },
        TypeMessage::Fp64 { nullability } => match nullability_spec(nullability, reading) {
            Ok(nullable) => Ok(TypeView::FP64 { nullable }),
            Err(e) => Err(e),
        },
        TypeMessage::String { nullability } => match nullability_spec(nullability, reading) {
            Ok(nullable) => Ok(TypeView::String { nullable }),
            Err(e) => Err(e),
        },
        TypeMessage::Unsupported(kind) => Err(DecodeError::UnsupportedType(kind)),
    }
}

/// The type that a type name of a catalog stands for. A catalog names
/// types without nullability, so the type is not nullable.
pub open spec fn type_name_spec(name: Seq<char>) -> Result<TypeView, CatalogError> {
    if name == "i64"@ {
        Ok(TypeView::I64 { nullable: false })
    } else if name == "fp64"@ {
        Ok(TypeView::FP64 { nullable: false })
    } else if name == "str"@ {
        Ok(TypeView::String { nullable: false })
    } else {
        Err(CatalogError::UnknownTypeName)
    }
}

/// The type that a type text of a catalog stands for.
pub open spec fn type_text_spec(text: TypeTextView) -> Result<TypeView, CatalogError> {
    match text {
        TypeTextView::Name(name) => type_name_spec(name),
        TypeTextView::Structure => Err(CatalogError::StructuredType),
    }
}

impl Type {
    /// The type that a type name of a catalog stands for: `i64`, `fp64` or
    /// `str`. Every other name is refused.
    pub fn from_type_name(name: &str) -> (r: Result<Type, CatalogError>)
        ensures
            catalog_outcome(r, type_name_spec(name@)),
    {
        let name = name.to_owned();
        if name == "i64".to_owned() {
            Ok(Type::I64 { nullable: false })
        } else if name == "fp64".to_owned() {
            Ok(Type::FP64 { nullable: false })
        } else if name == "str".to_owned() {
            Ok(Type::String { nullable: false })
        } else {
            Err(CatalogError::UnknownTypeName)
        }
    }

    /// The type that a type text of a catalog stands for.
    pub fn from_text(text: &TypeText) -> (r: Result<Type, CatalogError>)
        ensures
            catalog_outcome(r, type_text_spec(text@)),
    {
        match text {
            TypeText::Name(name) => Type::from_type_name(name.as_str()),
            TypeText::Structure => Err(CatalogError::StructuredType),
        }
    }

    /// Decodes a type message under a reading of the nullability code.
    pub fn from_message(message: &TypeMessage, reading: NullabilityReading) -> (r: Result<
        Type,
        DecodeError,
    >)
        ensures
            decodes_to(r, type_spec(reading, *message)),
    {
        match *message {
            TypeMessage::Unset => Err(DecodeError::MalformedPlan(MissingField::TypeKind)),
            TypeMessage::I32 { nullability } => match nullability_under(nullability, reading) {
                Ok(nullable) => Ok(Type::I32 { nullable }),
                Err(e) => Err(e),
            },
            TypeMessage::I64 { nullability } => match nullability_under(nullability, reading) {
                Ok(nullable) => Ok(Type::I64 { nullable }),
                Err(e) => Err(e),
            },
            TypeMessage::Fp64 { nullability } => match nullability_under(nullability, reading) {
                Ok(nullable) => Ok(Type::FP64 { nullable }),
                Err(e) => Err(e),
            },
            TypeMessage::String { nullability } => match nullability_under(
                nullability,
                reading,
            ) {
                Ok(nullable) => Ok(Type::String { nullable }),
                Err(e) => Err(e),
            },
            TypeMessage::Unsupported(kind) => Err(DecodeError::UnsupportedType(kind)),
        }
    }
}

} // verus!
