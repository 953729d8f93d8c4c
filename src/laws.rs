//! What holds of a guard's whole life: acquire, write, commit, release.

use vstd::prelude::*;

use crate::native::{acquired, model_wf, released, view_of, written, ArrayModel, JObject};
use crate::release_mode::{commit_code, mode_code, ReleaseMode};

verus! {

/// The array `obj` once a write of `value` at `index` through a buffer
/// that is `copied` (or not) is released under `mode`.
pub open spec fn after_release<T>(
    before: Seq<T>,
    copied: bool,
    mode: ReleaseMode,
    index: int,
    value: T,
) -> Seq<T> {
    if copied && mode == ReleaseMode::Discard {
        before
    } else {
        before.update(index, value)
    }
}

/// Every array of `pre` is still there in `post`, with the same length.
pub open spec fn lengths_kept<T>(pre: ArrayModel<T>, post: ArrayModel<T>) -> bool {
    forall|o: JObject| #[trigger]
        pre.arrays.contains_key(o) ==> post.arrays.contains_key(o) && post.arrays[o].len()
            == pre.arrays[o].len()
}

/// Acquire a buffer of `obj`, write `value` at `index` through it, release
/// it under `mode`: the array holds the write, but where the buffer was a
/// copy and the mode discards, in which case it is as it was.
pub proof fn lemma_release_applies_mode<T>(
    m0: ArrayModel<T>,
    m1: ArrayModel<T>,
    m2: ArrayModel<T>,
    m3: ArrayModel<T>,
    obj: JObject,
    ptr: usize,
    copied: bool,
    index: int,
    value: T,
    mode: ReleaseMode,
)
    requires
        model_wf(m0),
        m0.arrays.contains_key(obj),
        0 <= index < m0.arrays[obj].len(),
        acquired(m0, m1, obj, ptr, copied),
        written(m1, m2, ptr, index, value),
        released(m2, m3, ptr, mode_code(mode)),
    ensures
        m3.arrays[obj] == after_release(m0.arrays[obj], copied, mode, index, value),
{
}

/// A guard made with `CopyBack` and switched to `Discard` before its end
/// leaves a copied array as it was, whatever was written through it.
pub proof fn lemma_discard_suppresses_copy_back<T>(
    m0: ArrayModel<T>,
    m1: ArrayModel<T>,
    m2: ArrayModel<T>,
    m3: ArrayModel<T>,
    obj: JObject,
    ptr: usize,
    index: int,
    value: T,
)
    requires
        model_wf(m0),
        m0.arrays.contains_key(obj),
        0 <= index < m0.arrays[obj].len(),
        acquired(m0, m1, obj, ptr, true),
        written(m1, m2, ptr, index, value),
        released(m2, m3, ptr, mode_code(ReleaseMode::Discard)),
    ensures
        m3.arrays[obj] == m0.arrays[obj],
{
}

/// A commit writes the buffer through and keeps it live: a later write
/// through the same pointer still reaches the array, under the mode that
/// the guard holds at its end.
pub proof fn lemma_commit_keeps_guard<T>(
    m0: ArrayModel<T>,
    m1: ArrayModel<T>,
    m2: ArrayModel<T>,
    m3: ArrayModel<T>,
    m4: ArrayModel<T>,
    m5: ArrayModel<T>,
    obj: JObject,
    ptr: usize,
    copied: bool,
    i: int,
    v: T,
    j: int,
    w: T,
    mode: ReleaseMode,
)
    requires
        model_wf(m0),
        m0.arrays.contains_key(obj),
        0 <= i < m0.arrays[obj].len(),
        0 <= j < m0.arrays[obj].len(),
        acquired(m0, m1, obj, ptr, copied),
        written(m1, m2, ptr, i, v),
        released(m2, m3, ptr, commit_code()),
        written(m3, m4, ptr, j, w),
        released(m4, m5, ptr, mode_code(mode)),
    ensures
        m3.buffers.contains_key(ptr),
        m3.arrays[obj] == m0.arrays[obj].update(i, v),
        m5.arrays[obj] == after_release(m0.arrays[obj].update(i, v), copied, mode, j, w),
{
}

/// Taking a buffer keeps every array's length.
pub proof fn lemma_acquire_keeps_lengths<T>(
    pre: ArrayModel<T>,
    post: ArrayModel<T>,
    obj: JObject,
    ptr: usize,
    copied: bool,
)
    requires
        acquired(pre, post, obj, ptr, copied),
    ensures
        lengths_kept(pre, post),
{
}

/// Writing through a buffer keeps every array's length.
pub proof fn lemma_write_keeps_lengths<T>(
    pre: ArrayModel<T>,
    post: ArrayModel<T>,
    ptr: usize,
    index: int,
    value: T,
)
    requires
        model_wf(pre),
        pre.buffers.contains_key(ptr),
        0 <= index < view_of(pre, ptr).len(),
        written(pre, post, ptr, index, value),
    ensures
        lengths_kept(pre, post),
{
}

/// Releasing a buffer, under any code, keeps every array's length.
pub proof fn lemma_release_keeps_lengths<T>(
    pre: ArrayModel<T>,
    post: ArrayModel<T>,
    ptr: usize,
    code: int,
)
    requires
        model_wf(pre),
        pre.buffers.contains_key(ptr),
        released(pre, post, ptr, code),
    ensures
        lengths_kept(pre, post),
{
}

} // verus!
