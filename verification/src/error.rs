//! The error taxonomy of the library.

use vstd::prelude::*;

verus! {

/// The ways a terminal command can fail.
///
/// A capability probe that reports failure is not an error: it only drives
/// backend selection and is never surfaced to a caller. An unsupported
/// operation cannot arise either, because both backends implement every
/// operation of every capability contract; the closed backend enums make a
/// partial implementation impossible to construct.
#[derive(Clone, Copy, Debug, PartialEq, Eq)]
pub enum ErrorKind {
    /// Writing to the device handle failed; the command was not delivered
    /// and is not retried.
    DeviceWriteFailure,
    /// A device query got no valid response within its bounded wait.
    DeviceQueryTimeout,
}

} // verus!
