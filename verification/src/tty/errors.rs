//! The errors of the terminal session.

use vstd::prelude::*;

verus! {

/// The type `std::io::Error`, which the errors of this module carry along.
#[verifier::external_type_specification]
#[verifier::external_body]
pub struct ExIoError(std::io::Error);

/// The type `terminfo::Error`, which is taken apart by kind as soon as it
/// comes in.
#[verifier::external_type_specification]
#[verifier::external_body]
pub struct ExTerminfoError(terminfo::Error);

/// Why no capability database could be had.
#[derive(Debug)]
pub enum TerminfoCreationError {
    /// Reading the database failed.
    IoError(std::io::Error),
    /// No database describes the terminal.
    TerminfoDbNotFound,
    /// The database was found and could not be made sense of.
    TerminfoProcessingError,
}

/// Why a capability could not be written.
#[derive(Debug)]
pub enum CapabilityError {
    /// Writing failed.
    IoError(std::io::Error),
    /// The terminal has no such capability.
    CapabilityNotFound { cap_name: String },
    /// The capability's template could not be evaluated.
    CapabilityExpansionError,
}

/// The failures of the `terminfo` crate, by kind.
#[derive(Debug)]
pub enum TerminfoFailure {
    Io(std::io::Error),
    NotFound,
    Parse,
    Expand,
}

/// Tells the variants of `terminfo::Error` apart and hands the I/O error of
/// its `Io` variant on. Nothing is claimed of which variant comes.
#[verifier::external_body]
pub(crate) fn terminfo_failure(error: terminfo::Error) -> (failure: TerminfoFailure) {
    match error {
        terminfo::Error::Io(e) => TerminfoFailure::Io(e),
        terminfo::Error::NotFound => TerminfoFailure::NotFound,
        terminfo::Error::Parse => TerminfoFailure::Parse,
        terminfo::Error::Expand(_) => TerminfoFailure::Expand,
    }
}

impl TerminfoCreationError {
    /// The error for a failure of the `terminfo` crate: an I/O error is
    /// handed on, a missing database is reported as such, and everything
    /// else counts as a database that could not be processed.
    pub fn from_failure(failure: TerminfoFailure) -> (e: Self)
        ensures
            match failure {
                TerminfoFailure::Io(io) => e == TerminfoCreationError::IoError(io),
                TerminfoFailure::NotFound => e == TerminfoCreationError::TerminfoDbNotFound,
                TerminfoFailure::Parse => e == TerminfoCreationError::TerminfoProcessingError,
                TerminfoFailure::Expand => e == TerminfoCreationError::TerminfoProcessingError,
            },
    {
        match failure {
            TerminfoFailure::Io(io) => TerminfoCreationError::IoError(io),
            TerminfoFailure::NotFound => TerminfoCreationError::TerminfoDbNotFound,
            TerminfoFailure::Parse => TerminfoCreationError::TerminfoProcessingError,
            TerminfoFailure::Expand => TerminfoCreationError::TerminfoProcessingError,
        }
    }

    /// The error for an error of the `terminfo` crate: what
    /// [`TerminfoCreationError::from_failure`] makes of its kind. The error
    /// of the outside crate cannot be looked into here, so nothing is said
    /// of which kind it is.
    pub fn from_terminfo(error: terminfo::Error) -> (e: Self) {
        TerminfoCreationError::from_failure(terminfo_failure(error))
    }
}

} // verus!
