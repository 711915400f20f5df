//! Decoding of a serialized relational query plan into a typed, fully owned
//! intermediate representation.
//!
//! A plan arrives as a [`message::PlanMessage`]: its extension declarations
//! and its relation tree, as the wire format states them. Decoding runs in
//! two passes. The gather pass resolves the declarations into two anchor
//! tables, and the walk turns the relation tree into a [`plans::Plan`],
//! looking up in the tables the functions that expressions invoke. The
//! first failure ends the decode with a [`error::DecodeError`].
//!
//! What a message decodes to is defined by the functions of
//! [`decoder::model`] over the mathematical values of messages, and every
//! decoding function is proved to yield exactly that. [`decoder::laws`]
//! holds what follows for every message.
//!
//! Apart from plans, [`extensions`] takes a function catalog over from its
//! text form into the types of the representation.

pub mod decoder;
pub mod error;
pub mod extensions;
pub mod message;
pub mod plans;
pub mod types;
pub mod views;
