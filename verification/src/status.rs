//! The record that describes a finished operation.

use vstd::prelude::*;

verus! {

/// What the native layer reports about an operation that has finished.
///
/// This layer produces a status exactly once, when a request completes, and
/// hands it to the caller as it came: none of the fields is read here.
#[derive(Clone, Copy, PartialEq, Eq, Structural, Debug)]
pub struct Status {
    /// Rank of the process the message came from.
    pub source: i32,
    /// Tag the message was sent with.
    pub tag: i32,
    /// Error code the native layer attached to the operation.
    pub error: i32,
}

} // verus!
