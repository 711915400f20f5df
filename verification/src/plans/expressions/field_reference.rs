//! Column references of the intermediate representation.

use vstd::prelude::*;
use crate::error::{DecodeError, FieldReferenceKind, MissingField};
use crate::message::{
    FieldReferenceMessage,
    ReferenceMessage,
    ReferenceRootMessage,
    SegmentMessage,
};

verus! {

/// A reference to one column of the input row, by its index from the root.
#[derive(Clone, Copy, Debug, PartialEq, Eq, Structural)]
pub struct FieldReference {
    pub field: i32,
}

/// Whether the root of a field reference is acceptable: `Ok` for a
/// root-relative reference, the failure otherwise.
pub open spec fn reference_root_spec(root: ReferenceRootMessage) -> Result<(), DecodeError> {
    match root {
        ReferenceRootMessage::Unset => Err(DecodeError::MalformedPlan(MissingField::RootType)),
        ReferenceRootMessage::RootReference => Ok(()),
        ReferenceRootMessage::Expression => Err(
            DecodeError::UnsupportedFieldReference(FieldReferenceKind::ExpressionRoot),
        ),
        ReferenceRootMessage::OuterReference => Err(
            DecodeError::UnsupportedFieldReference(FieldReferenceKind::OuterReferenceRoot),
        ),
        ReferenceRootMessage::LambdaParameterReference => Err(
            DecodeError::UnsupportedFieldReference(FieldReferenceKind::LambdaParameterRoot),
        ),
    }
}

/// The field that a segment selects: the index of a struct-field selector
/// without a child, the failure for every other segment.
pub open spec fn segment_spec(segment: SegmentMessage) -> Result<FieldReference, DecodeError> {
    match segment {
        SegmentMessage::Unset => Err(DecodeError::MalformedPlan(MissingField::SegmentType)),
        SegmentMessage::MapKey => Err(
            DecodeError::UnsupportedFieldReference(FieldReferenceKind::MapKey),
        ),
        SegmentMessage::ListElement => Err(
            DecodeError::UnsupportedFieldReference(FieldReferenceKind::ListElement),
        ),
        SegmentMessage::StructField { field, has_child } => if has_child {
            Err(DecodeError::UnsupportedFieldReference(FieldReferenceKind::NestedSelector))
        } else {
            Ok(FieldReference { field })
        },
    }
}

/// The field that a reference selects.
pub open spec fn reference_spec(reference: ReferenceMessage) -> Result<
    FieldReference,
    DecodeError,
> {
    match reference {
        ReferenceMessage::Unset => Err(DecodeError::MalformedPlan(MissingField::ReferenceType)),
        ReferenceMessage::Masked => Err(
            DecodeError::UnsupportedFieldReference(FieldReferenceKind::MaskedReference),
        ),
        ReferenceMessage::Direct(segment) => segment_spec(segment),
    }
}

/// What a field reference message decodes to. The root is judged first, then
/// the reference: the failure reported is that of the root where both fail.
pub open spec fn field_reference_spec(message: FieldReferenceMessage) -> Result<
    FieldReference,
    DecodeError,
> {
    match reference_root_spec(message.root) {
        Err(e) => Err(e),
        Ok(_) => reference_spec(message.reference),
    }
}

impl FieldReference {
    /// Decodes a field reference message. Only a direct, single-segment
    /// struct-field selector relative to the root is accepted.
    pub fn from_message(message: &FieldReferenceMessage) -> (r: Result<
        FieldReference,
        DecodeError,
    >)
        ensures
            r == field_reference_spec(*message),
    {
        match message.root {
            ReferenceRootMessage::Unset => {
                return Err(DecodeError::MalformedPlan(MissingField::RootType));
            },
            ReferenceRootMessage::RootReference => {},
            ReferenceRootMessage::Expression => {
                return Err(
                    DecodeError::UnsupportedFieldReference(FieldReferenceKind::ExpressionRoot),
                );
            },
            ReferenceRootMessage::OuterReference => {
                return Err(
                    DecodeError::UnsupportedFieldReference(
                        FieldReferenceKind::OuterReferenceRoot,
                    ),
                );
            },
            ReferenceRootMessage::LambdaParameterReference => {
                return Err(
                    DecodeError::UnsupportedFieldReference(
                        FieldReferenceKind::LambdaParameterRoot,
                    ),
                );
            },
        }
        match message.reference {
            ReferenceMessage::Unset => Err(
                DecodeError::MalformedPlan(MissingField::ReferenceType),
            ),
            ReferenceMessage::Masked => Err(
                DecodeError::UnsupportedFieldReference(FieldReferenceKind::MaskedReference),
            ),
            ReferenceMessage::Direct(segment) => match segment {
                SegmentMessage::Unset => Err(
                    DecodeError::MalformedPlan(MissingField::SegmentType),
                ),
                SegmentMessage::MapKey => Err(
                    DecodeError::UnsupportedFieldReference(FieldReferenceKind::MapKey),
                ),
                SegmentMessage::ListElement => Err(
                    DecodeError::UnsupportedFieldReference(FieldReferenceKind::ListElement),
                ),
                SegmentMessage::StructField { field, has_child } => {
                    if has_child {
                        Err(
                            DecodeError::UnsupportedFieldReference(
                                FieldReferenceKind::NestedSelector,
                            ),
                        )
                    } else {
                        Ok(FieldReference { field })
                    }
                },
            },
        }
    }
}

/// A reference through a mask, a map key or a list element, or through a
/// struct field with a child segment, is refused as unsupported whenever the
/// message states a root: no such reference decodes to a field.
pub proof fn lemma_unsupported_selectors_fail(message: FieldReferenceMessage)
    requires
        message.root != ReferenceRootMessage::Unset,
        message.reference == ReferenceMessage::Masked || message.reference
            == ReferenceMessage::Direct(SegmentMessage::MapKey) || message.reference
            == ReferenceMessage::Direct(SegmentMessage::ListElement) || (exists|field: i32|
            message.reference == ReferenceMessage::Direct(
                SegmentMessage::StructField { field, has_child: true },
            )),
    ensures
        field_reference_spec(message) is Err,
        field_reference_spec(message)->Err_0 is UnsupportedFieldReference,
{
}

} // verus!
