//! The errors that the operations of this crate report.
use crate::datatypes::DataType;
use vstd::prelude::*;

verus! {

/// What is wrong with a foreign handle.
#[derive(Clone, Copy, Debug, PartialEq, Eq, Structural)]
pub enum InterchangeError {
    /// A buffer that the logical type requires is absent.
    MissingBuffer,
    /// A buffer holds elements of another width than the logical type declares.
    WrongBufferType,
    /// A buffer ends before the last element that the handle describes.
    BufferTooShort,
    /// The number of child handles is not the number of declared fields.
    ChildCountMismatch,
    /// A child handle describes another logical type than the declared field.
    ChildTypeMismatch,
    /// A child of a sparse union does not cover the slots of the union, or the
    /// children differ in length.
    ChildLengthMismatch,
    /// A slot of a union names a child that does not exist, or a row that its
    /// child does not have.
    SlotOutOfRange,
    /// The handle describes another kind of array than the one asked for.
    UnexpectedType,
}

/// Why an operation was refused.
#[derive(Debug)]
pub enum ArrowError {
    /// Two operands do not fit together: their logical types or their lengths differ.
    InvalidArgumentError(String),
    /// The named operation has no meaning for the logical type.
    NotYetImplemented { operation: String, data_type: DataType },
    /// A foreign handle is malformed or inconsistent with its own description.
    Ffi(InterchangeError),
}

impl ArrowError {
    /// The error of an operation that `data_type` does not support.
    pub fn not_yet_implemented(operation: &str, data_type: &DataType) -> (e: ArrowError)
        ensures
            e matches ArrowError::NotYetImplemented { operation: op, data_type: dt }
                && op@ == operation@ && dt@ == data_type@,
    {
        ArrowError::NotYetImplemented {
            operation: operation.to_owned(),
            data_type: data_type.clone(),
        }
    }

    /// The error of two operands that do not fit together.
    pub fn invalid_argument(message: &str) -> (e: ArrowError)
        ensures
            e matches ArrowError::InvalidArgumentError(m) && m@ == message@,
    {
        ArrowError::InvalidArgumentError(message.to_owned())
    }

}

} // verus!
