//! The failures that marshalling can report.

use crate::boundary::{description_of, failure_text};
use jni::errors::Error;
use vstd::prelude::*;
use vstd::std_specs::convert::FromSpecImpl;

verus! {

/// The result of an operation of this crate.
pub type EasyJNIResult<T> = Result<T, EasyJniError>;

/// Everything that can go wrong while a value crosses the boundary.
#[derive(Debug, PartialEq, Eq, PartialOrd, Ord)]
pub enum EasyJniError {
    /// An array was asked for whose elements would be `void`.
    ArrayOfVoidNotAllowed,
    /// The value or reference is of a kind that cannot be converted.
    UnsupportedJavaType,
    /// A Java byte below zero, which the unsigned native byte cannot hold.
    ByteLessThanZeroNotSupported,
    /// A value is not of the kind that was declared for its place.
    JavaTypeMismatch,
    /// The JNI layer failed; the text is its own description of the failure.
    FromJniCrate(String),
}

impl EasyJniError {
    /// Whether this is the failure of the JNI layer, kept by its
    /// description.
    pub open spec fn surfaces(self, failure: Error) -> bool {
        self matches EasyJniError::FromJniCrate(text) && text@ == description_of(failure)
    }
}

impl From<Error> for EasyJniError {
    /// A failure of the JNI layer, kept by its description.
    fn from(value: Error) -> (failure: Self)
        ensures
            failure.surfaces(value),
    {
        EasyJniError::FromJniCrate(failure_text(&value))
    }
}

/// What `from` returns holds a text, and no specification function can make
/// one. So the conversion follows none; what is known of it is the contract
/// of `from`.
impl FromSpecImpl<Error> for EasyJniError {
    open spec fn obeys_from_spec() -> bool {
        false
    }

    open spec fn from_spec(v: Error) -> Self {
        EasyJniError::FromJniCrate(arbitrary())
    }
}

/// Hands a success of the JNI layer on as it is, and a failure as
/// [`EasyJniError::FromJniCrate`].
pub fn propagate<T>(outcome: Result<T, Error>) -> (result: EasyJNIResult<T>)
    ensures
        outcome matches Ok(value) ==> result == Ok::<T, EasyJniError>(value),
        outcome matches Err(failure) ==> (result matches Err(surfaced) && surfaced.surfaces(
            failure,
        )),
{
    match outcome {
        Ok(value) => Ok(value),
        Err(failure) => Err(EasyJniError::from(failure)),
    }
}

} // verus!
