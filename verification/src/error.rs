//! The failures that a payload can meet.

use vstd::prelude::*;

verus! {

/// Why a payload could not be built or delivered.
///
/// The first three arise while a payload is built from a file, before any header exists.
/// The last arises when a response is already under way.
#[derive(Debug, Clone, Copy, PartialEq, Eq)]
pub enum PayloadError {
    /// The path does not exist or cannot be reached.
    NotFound,
    /// The path exists but is not a regular file.
    InvalidInput,
    /// Opening, reading or sending failed.
    Io,
    /// The handle of an upload could not be bridged to a reader.
    AdapterFailure,
}

} // verus!
