//! The release policies of an array guard and their native codes.

use vstd::prelude::*;

use crate::sys::{jint, jni_abort, jni_commit, RELEASE_COPY_BACK};

verus! {

/// What the runtime does with the element buffer when it is handed back.
#[derive(Clone, Copy, Debug, PartialEq, Eq, Structural)]
pub enum ReleaseMode {
    /// Copy the buffer back into the managed array, then free it.
    CopyBack,
    /// Copy the buffer back into the managed array and keep it alive.
    CopyBackNoRelease,
    /// Free the buffer without copying it back.
    Discard,
}

/// The release code of the native interface for each mode.
pub open spec fn mode_code(mode: ReleaseMode) -> int {
    match mode {
        ReleaseMode::CopyBack => 0,
        ReleaseMode::CopyBackNoRelease => 1,
        ReleaseMode::Discard => 2,
    }
}

/// The release code that copies back and keeps the buffer alive.
pub open spec fn commit_code() -> int {
    1
}

/// The release code that frees the buffer without copying it back.
pub open spec fn abort_code() -> int {
    2
}

/// The codes that a release call accepts.
pub open spec fn valid_code(code: int) -> bool {
    0 <= code <= 2
}

impl ReleaseMode {
    /// The code that a release call under this mode passes to the runtime.
    pub fn code(&self) -> (r: jint)
        ensures
            r == mode_code(*self),
            valid_code(r as int),
    {
        match self {
            ReleaseMode::CopyBack => RELEASE_COPY_BACK,
            ReleaseMode::CopyBackNoRelease => jni_commit(),
            ReleaseMode::Discard => jni_abort(),
        }
    }
}

} // verus!
