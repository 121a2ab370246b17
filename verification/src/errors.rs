//! The error taxonomy of the shell.

use vstd::prelude::*;

verus! {

/// A required named object is missing from the declarative UI description,
/// or the object found under that name does not have the expected
/// capability.  Fatal to initialization: no partially built shell is ever
/// exposed.
#[derive(Debug)]
pub struct ResolutionError {
    /// The identifier that failed to resolve.
    pub name: String,
}

/// Navigation was requested to a page identifier that was never registered
/// with the navigation controller.  A programmer error: it cannot occur for
/// the fixed page set a correctly built shell registers.
#[derive(Debug)]
pub struct UnknownPageError {
    /// The identifier that no registered page carries.
    pub id: String,
}

/// A failure reported by an external collaborator (the game runner or the
/// preferences updater).  Recoverable at the UI boundary: its human-readable
/// description is consumed verbatim by the notification service.
#[derive(Debug)]
pub struct StructuredError {
    /// The human-readable description of the failure.
    pub message: String,
}

} // verus!
