//! The one error type of the library.

use vstd::prelude::*;

verus! {

/// The field of a key material on which a comparison with the common key
/// material failed.
#[derive(Debug, Clone, Copy, PartialEq, Eq, Structural)]
pub enum KeyMaterialField {
    SenderKeyId,
    TransformationKind,
    MasterSenderKey,
    MasterSalt,
}

/// Why an operation of this library refused its input. None of these is
/// fatal; each marks the input as not conforming to the protocol.
#[derive(Debug, Clone, PartialEq, Eq)]
pub enum SecurityError {
    /// A four-byte code that names no transformation kind.
    InvalidTransformationKind,
    /// Raw key bytes whose number, `found`, is not the one that the
    /// transformation kind asks for, `required`.
    KeyLengthMismatch { required: usize, found: usize },
    /// Bytes that are not a well-framed CDR encoding.
    DeserializationError,
    /// A value that has no CDR encoding within the bounds of its type.
    SerializationError,
    /// A token of another class than that of this plugin.
    WrongClassId,
    /// A token that carries string properties.
    UnexpectedProperties,
    /// A token whose binary properties are not exactly the one that holds
    /// the key material: their number, `count`, is not one, or the one has
    /// another name.
    WrongBinaryPropertyCount { count: usize },
    /// More than two key materials for one endpoint.
    InvalidCardinality { count: usize },
    /// A key material that disagrees with the common key material in `field`;
    /// `expected` is the common value and `received` the offered one, both as
    /// the bytes they have on the wire.
    KeyMaterialMismatch { field: KeyMaterialField, expected: Vec<u8>, received: Vec<u8> },
    /// A header whose extra field does not have twelve bytes.
    MalformedHeaderExtra { length: usize },
}

/// The mathematical value of a [`SecurityError`].
pub enum SecurityErrorView {
    InvalidTransformationKind,
    KeyLengthMismatch { required: usize, found: usize },
    DeserializationError,
    SerializationError,
    WrongClassId,
    UnexpectedProperties,
    WrongBinaryPropertyCount { count: usize },
    InvalidCardinality { count: usize },
    KeyMaterialMismatch { field: KeyMaterialField, expected: Seq<u8>, received: Seq<u8> },
    MalformedHeaderExtra { length: usize },
}

impl View for SecurityError {
    type V = SecurityErrorView;

    open spec fn view(&self) -> SecurityErrorView {
        match *self {
            SecurityError::InvalidTransformationKind => SecurityErrorView::InvalidTransformationKind,
            SecurityError::KeyLengthMismatch { required, found } => SecurityErrorView::KeyLengthMismatch {
                required,
                found,
            },
            SecurityError::DeserializationError => SecurityErrorView::DeserializationError,
            SecurityError::SerializationError => SecurityErrorView::SerializationError,
            SecurityError::WrongClassId => SecurityErrorView::WrongClassId,
            SecurityError::UnexpectedProperties => SecurityErrorView::UnexpectedProperties,
            SecurityError::WrongBinaryPropertyCount { count } => SecurityErrorView::WrongBinaryPropertyCount {
                count,
            },
            SecurityError::InvalidCardinality { count } => SecurityErrorView::InvalidCardinality { count },
            SecurityError::KeyMaterialMismatch { field, expected, received } => SecurityErrorView::KeyMaterialMismatch {
                field,
                expected: expected@,
                received: received@,
            },
            SecurityError::MalformedHeaderExtra { length } => SecurityErrorView::MalformedHeaderExtra { length },
        }
    }
}

} // verus!
