//! The lifecycle shared by the guards of every element kind.

use vstd::prelude::*;

use crate::errors::{Error, Result};
use crate::native::{acquired, model_wf, released, ArrayElements, JObject};
use crate::release_mode::{commit_code, valid_code, ReleaseMode};
use crate::sys::{jboolean, jint, jni_commit, jni_true};

verus! {

/// What a guard holds: the array, the buffer's address, the release mode
/// and the copy flag.
pub struct GuardState {
    pub obj: JObject,
    pub ptr: usize,
    pub mode: ReleaseMode,
    pub is_copy: bool,
}

/// Holds the pointer that a `Get<Kind>ArrayElements` call handed out for
/// the array `obj`, until it is handed back through the matching
/// `Release<Kind>ArrayElements` call. `T` is the element kind.
pub struct AutoArray<T> {
    obj: JObject,
    ptr: usize,
    mode: ReleaseMode,
    is_copy: bool,
    kind: core::marker::PhantomData<T>,
}

impl<T> View for AutoArray<T> {
    type V = GuardState;

    closed spec fn view(&self) -> GuardState {
        GuardState { obj: self.obj, ptr: self.ptr, mode: self.mode, is_copy: self.is_copy }
    }
}

impl<T> AutoArray<T> {
    /// Wraps the result of a `Get<Kind>ArrayElements` call on `obj`: the
    /// pointer `ptr` and the copy indicator `is_copy`. Fails with
    /// `Error::NullPtr` on the null pointer.
    pub fn new(obj: JObject, ptr: usize, is_copy: jboolean, mode: ReleaseMode) -> (r: Result<Self>)
        ensures
            r is Ok <==> ptr != 0,
            r is Err ==> r->Err_0 is NullPtr,
            r is Ok ==> r->Ok_0@ == (GuardState { obj, ptr, mode, is_copy: is_copy == 1 }),
    {
        if ptr == 0 {
            Err(Error::NullPtr("Non-null ptr expected"))
        } else {
            Ok(AutoArray {
                obj,
                ptr,
                mode,
                is_copy: is_copy == jni_true(),
                kind: core::marker::PhantomData,
            })
        }
    }

    /// The address of the element buffer.
    pub fn as_ptr(&self) -> (r: usize)
        ensures
            r == self@.ptr,
    {
        self.ptr
    }

    /// The array that the buffer belongs to.
    pub fn obj(&self) -> (r: JObject)
        ensures
            r == self@.obj,
    {
        self.obj
    }

    /// The current release mode.
    pub fn mode(&self) -> (r: ReleaseMode)
        ensures
            r == self@.mode,
    {
        self.mode
    }

    /// Releases without copying back from now on. Only a copy is affected:
    /// writes to a pinned array are seen at once.
    pub fn discard(&mut self)
        ensures
            final(self)@ == (GuardState { mode: ReleaseMode::Discard, ..old(self)@ }),
    {
        self.mode = ReleaseMode::Discard;
    }

    /// Whether the buffer is a copy of the array rather than the array itself.
    pub fn is_copy(&self) -> (r: bool)
        ensures
            r == self@.is_copy,
    {
        self.is_copy
    }
}

/// The part of a guard that depends on the element kind `T`: the
/// `Get<Kind>ArrayElements` and `Release<Kind>ArrayElements` calls of a
/// runtime `E`.
pub trait TypeArray<T, E: ArrayElements<T>>: Sized {
    /// The state of the guard.
    spec fn state(&self) -> GuardState;

    /// Takes the elements of `obj` through `Get<Kind>ArrayElements`. Fails
    /// with `Error::NullPtr`, and leaves the runtime as it was, exactly
    /// where `obj` is no array of kind `T`.
    fn new(env: &mut E, obj: JObject, mode: ReleaseMode) -> (r: Result<Self>)
        requires
            old(env).inv(),
            model_wf(old(env).model()),
        ensures
            final(env).inv(),
            model_wf(final(env).model()),
            r is Ok <==> old(env).model().arrays.contains_key(obj),
            r is Err ==> r->Err_0 is NullPtr && final(env).model() == old(env).model(),
            r is Ok ==> {
                let g = r->Ok_0.state();
                &&& g.obj == obj
                &&& g.mode == mode
                &&& g.ptr != 0
                &&& acquired(old(env).model(), final(env).model(), obj, g.ptr, g.is_copy)
            },
    ;

    /// Hands the buffer back through `Release<Kind>ArrayElements` under the
    /// release code `mode`.
    fn release(&mut self, env: &mut E, mode: jint) -> (r: Result<()>)
        requires
            old(env).inv(),
            model_wf(old(env).model()),
            old(env).model().buffers.contains_key(old(self).state().ptr),
            old(env).model().buffers[old(self).state().ptr].owner == old(self).state().obj,
            valid_code(mode as int),
        ensures
            final(self).state() == old(self).state(),
            final(env).inv(),
            model_wf(final(env).model()),
            released(old(env).model(), final(env).model(), old(self).state().ptr, mode as int),
    ;

    /// Copies the buffer back into the array and keeps it: the guard stays
    /// as it is and its pointer stays valid.
    fn commit(&mut self, env: &mut E) -> (r: Result<()>)
        requires
            old(env).inv(),
            model_wf(old(env).model()),
            old(env).model().buffers.contains_key(old(self).state().ptr),
            old(env).model().buffers[old(self).state().ptr].owner == old(self).state().obj,
        ensures
            final(self).state() == old(self).state(),
            final(env).inv(),
            model_wf(final(env).model()),
            released(old(env).model(), final(env).model(), old(self).state().ptr, commit_code()),
    {
        self.release(env, jni_commit())
    }
}

} // verus!
