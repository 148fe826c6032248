//! The handle by which the native layer names one operation in flight.

use vstd::prelude::*;

verus! {

/// Names one non-blocking operation inside the native layer.
///
/// `Null` is the distinguished value that names no operation: the native layer
/// stores it into a handle once the operation behind it has been completed or
/// released. `Live` carries the bits by which the native layer tells its
/// operations apart; this layer never looks at them.
#[derive(Clone, Copy, PartialEq, Eq, Structural, Debug)]
pub enum Handle {
    Null,
    Live(u64),
}

impl Handle {
    /// The handle that names no operation.
    pub fn null() -> (h: Handle)
        ensures
            h == Handle::Null,
    {
        Handle::Null
    }

    /// True exactly for the null handle.
    pub fn is_null(&self) -> (b: bool)
        ensures
            b == (*self is Null),
    {
        match self {
            Handle::Null => true,
            Handle::Live(_) => false,
        }
    }
}

} // verus!
