//! The errors of array access.

use vstd::prelude::*;

verus! {

/// Why an array operation failed.
#[derive(Clone, Copy, Debug, PartialEq, Eq)]
pub enum Error {
    /// The runtime handed back a null pointer.
    NullPtr(&'static str),
    /// The runtime raised an exception during the call.
    JavaException,
    /// The handle does not name an array of the runtime.
    InvalidArray,
}

/// The result of an array operation.
pub type Result<T> = core::result::Result<T, Error>;

} // verus!
