//! The errors of the library and the two categories they fall into.

use vstd::prelude::*;

verus! {

/// The category of an error: a malformed input, or an operation on a builder
/// that has already produced its detector.
#[derive(Debug, Clone, Copy, PartialEq, Eq, Structural)]
pub enum ErrorKind {
    InvalidArgument,
    StateError,
}

/// An error of the library. The unknown-token variants carry the first token
/// of the input that was not recognised, exactly as it was given.
#[derive(Debug, PartialEq, Eq)]
pub enum LinguaError {
    /// A list of language names was empty.
    EmptyLanguages,
    /// A list of ISO 639-1 codes was empty.
    EmptyIsoCodes639_1,
    /// A list of ISO 639-3 codes was empty.
    EmptyIsoCodes639_3,
    /// A token is not the name of a known language.
    UnknownLanguage(String),
    /// A token is not a known ISO 639-1 code.
    UnknownIsoCode639_1(String),
    /// A token is not a known ISO 639-3 code.
    UnknownIsoCode639_3(String),
    /// Every known language was excluded, so no detector could choose among any.
    NoLanguageLeft,
    /// The builder has already been consumed by `build`.
    AlreadyConsumed,
}

impl LinguaError {
    /// The category of each error, as a specification.
    pub open spec fn spec_kind(&self) -> ErrorKind {
        match self {
            LinguaError::AlreadyConsumed => ErrorKind::StateError,
            _ => ErrorKind::InvalidArgument,
        }
    }

    /// The category of this error.
    pub fn kind(&self) -> (r: ErrorKind)
        ensures
            r == self.spec_kind(),
    {
        match self {
            LinguaError::AlreadyConsumed => ErrorKind::StateError,
            _ => ErrorKind::InvalidArgument,
        }
    }
}

} // verus!
