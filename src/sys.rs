//! The primitive types and protocol constants of the native interface.

use vstd::prelude::*;

pub use jni_sys::{jboolean, jbyte, jint, jlong, jsize};

verus! {

/// Relies on jni_sys::JNI_TRUE: the value of a `jboolean` that means true.
#[verifier::external_body]
pub(crate) fn jni_true() -> (r: jboolean)
    ensures
        r == 1,
{
    jni_sys::JNI_TRUE
}

/// Relies on jni_sys::JNI_COMMIT: the release code that copies the buffer
/// back and keeps it alive.
#[verifier::external_body]
pub(crate) fn jni_commit() -> (r: jint)
    ensures
        r == 1,
{
    jni_sys::JNI_COMMIT
}

/// Relies on jni_sys::JNI_ABORT: the release code that frees the buffer
/// without copying it back.
#[verifier::external_body]
pub(crate) fn jni_abort() -> (r: jint)
    ensures
        r == 2,
{
    jni_sys::JNI_ABORT
}

/// The release code that copies the buffer back and frees it.
pub const RELEASE_COPY_BACK: jint = 0;

} // verus!
