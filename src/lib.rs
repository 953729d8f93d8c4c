//! Scoped access guards over the element buffers of managed primitive arrays.
//!
//! A guard wraps the pointer handed out by a `Get<Kind>ArrayElements` call,
//! records whether the runtime made a copy, carries the release policy, and
//! hands the pointer back through `Release<Kind>ArrayElements` with the code
//! that the policy maps to.

pub mod auto_array;
pub mod auto_byte_array;
pub mod auto_long_array;
pub mod errors;
pub mod heap;
pub mod laws;
pub mod native;
pub mod release_mode;
pub mod sys;
