//! How an operation of this crate can fail.

use vstd::prelude::*;
use vstd::string::*;

verus! {

/// The kinds of failure.
#[derive(Clone, Copy, Debug, PartialEq, Eq, Structural)]
pub enum ErrorKind {
    /// Nothing is stored: the normal condition before first-run setup.
    NotFound,
    /// The vault refused access, for instance because the user declined a prompt.
    AccessDenied,
    /// No usable vault on this platform or in this session.
    BackendUnavailable,
    /// Something is stored, but it is not a complete credential bundle.
    Malformed,
    /// The server process could not be started.
    SpawnFailed,
    /// A bundle with an empty field was offered for saving.
    Incomplete,
    /// The system's random source gave nothing to make a session secret from.
    NoEntropy,
}

/// A failure: its kind, and a text for diagnostics.
#[derive(Debug)]
pub struct Failure {
    /// What went wrong.
    pub kind: ErrorKind,
    /// The text that the failing component gave.
    pub detail: String,
}

impl Failure {
    /// A failure of the given kind with the given text.
    pub fn new(kind: ErrorKind, detail: &str) -> (failure: Failure)
        ensures
            failure.kind == kind,
            failure.detail@ == detail@,
    {
        Failure { kind, detail: String::from_str(detail) }
    }

    /// The failure as the single text that the presentation layer receives.
    pub fn into_message(self) -> (message: String)
        ensures
            message@ == self.detail@,
    {
        self.detail
    }
}

} // verus!
