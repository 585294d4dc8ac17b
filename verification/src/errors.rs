use vstd::prelude::*;

verus! {

/// The typed failures an operation can return. Every failure is detected
/// before any mutation, so a call that returns one of these leaves the
/// tracker exactly as it was.
#[derive(Clone, Copy, Debug, PartialEq, Eq, Structural)]
pub enum TrackerError {
    /// The caller lacks the ownership or role required for the action,
    /// or a supplied target identity lacks the required role.
    Unauthorized,
    /// The referenced item or log entry does not exist.
    NotFound,
    /// The item's current status is not a permitted source for the action.
    InvalidTransition,
    /// A role tag outside the enumerated role set was supplied.
    InvalidRole,
    /// A second attempt to bind the administrative identity.
    AlreadyInitialized,
}

} // verus!
