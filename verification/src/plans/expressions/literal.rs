//! Literal values of the intermediate representation.

use vstd::prelude::*;
use crate::error::{DecodeError, MissingField};
use crate::message::{LiteralMessage, LiteralValueMessage};

verus! {

/// A boolean literal.
#[derive(Clone, Copy, Debug, PartialEq, Eq, Structural)]
pub struct Bool {
    pub value: bool,
    pub nullable: bool,
}

/// A 32-bit integer literal.
#[derive(Clone, Copy, Debug, PartialEq, Eq, Structural)]
pub struct I32 {
    pub value: i32,
    pub nullable: bool,
}

/// A 64-bit integer literal.
#[derive(Clone, Copy, Debug, PartialEq, Eq, Structural)]
pub struct I64 {
    pub value: i64,
    pub nullable: bool,
}

/// A literal: its value, and the nullable flag of the message it came from.
#[derive(Clone, Copy, Debug, PartialEq, Eq, Structural)]
pub enum Literal {
    Bool(Bool),
    I32(I32),
    I64(I64),
}

/// What a literal message decodes to: the value under the message's own
/// nullable flag for a boolean, a 32-bit or a 64-bit integer, and a failure
/// that names the literal type for every other one.
pub open spec fn literal_spec(message: LiteralMessage) -> Result<Literal, DecodeError> {
    match message.value {
        LiteralValueMessage::Unset => Err(DecodeError::MalformedPlan(MissingField::LiteralType)),
        LiteralValueMessage::Boolean(value) => Ok(
            Literal::Bool(Bool { value, nullable: message.nullable }),
        ),
        LiteralValueMessage::I32(value) => Ok(
            Literal::I32(I32 { value, nullable: message.nullable }),
        ),
        LiteralValueMessage::I64(value) => Ok(
            Literal::I64(I64 { value, nullable: message.nullable }),
        ),
        LiteralValueMessage::Unsupported(kind) => Err(DecodeError::UnsupportedLiteralType(kind)),
    }
}

impl Literal {
    /// Decodes a literal message.
    pub fn from_message(message: &LiteralMessage) -> (r: Result<Literal, DecodeError>)
        ensures
            r == literal_spec(*message),
    {
        let nullable = message.nullable;
        match message.value {
            LiteralValueMessage::Unset => Err(
                DecodeError::MalformedPlan(MissingField::LiteralType),
            ),
            LiteralValueMessage::Boolean(value) => Ok(Literal::Bool(Bool { value, nullable })),
            LiteralValueMessage::I32(value) => Ok(Literal::I32(I32 { value, nullable })),
            LiteralValueMessage::I64(value) => Ok(Literal::I64(I64 { value, nullable })),
            LiteralValueMessage::Unsupported(kind) => Err(
                DecodeError::UnsupportedLiteralType(kind),
            ),
        }
    }
}

} // verus!
