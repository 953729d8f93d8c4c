//! The guard over the elements of a managed `long[]`.

use vstd::prelude::*;

use crate::auto_array::{AutoArray, GuardState, TypeArray};
use crate::errors::Result;
use crate::native::{model_wf, released, ArrayElements, JObject};
use crate::release_mode::{commit_code, mode_code, ReleaseMode};
use crate::sys::{jint, jlong, jsize};

verus! {

/// Holds the elements of a managed `long[]` until they are handed back
/// through `ReleaseLongArrayElements`.
pub struct AutoLongArray(AutoArray<jlong>);

impl View for AutoLongArray {
    type V = GuardState;

    closed spec fn view(&self) -> GuardState {
        self.0@
    }
}

impl AutoLongArray {
    /// The address of the element buffer.
    pub fn as_ptr(&self) -> (r: usize)
        ensures
            r == self@.ptr,
    {
        self.0.as_ptr()
    }

    /// Releases without copying back from now on.
    pub fn discard(&mut self)
        ensures
            final(self)@ == (GuardState { mode: ReleaseMode::Discard, ..old(self)@ }),
    {
        self.0.discard();
    }

    /// Whether the buffer is a copy of the array rather than the array itself.
    pub fn is_copy(&self) -> (r: bool)
        ensures
            r == self@.is_copy,
    {
        self.0.is_copy()
    }

    /// Copies the buffer back into the array and keeps it: the guard stays
    /// as it is and its pointer stays valid.
    pub fn commit<E: ArrayElements<jlong>>(&mut self, env: &mut E) -> (r: Result<()>)
        requires
            old(env).inv(),
            model_wf(old(env).model()),
            old(env).model().buffers.contains_key(old(self)@.ptr),
            old(env).model().buffers[old(self)@.ptr].owner == old(self)@.obj,
        ensures
            final(self)@ == old(self)@,
            final(env).inv(),
            model_wf(final(env).model()),
            released(old(env).model(), final(env).model(), old(self)@.ptr, commit_code()),
    {
        <AutoLongArray as TypeArray<jlong, E>>::commit(self, env)
    }

    /// The element count of the array, asked of the runtime.
    pub fn size<E: ArrayElements<jlong>>(&self, env: &E) -> (r: Result<jsize>)
        requires
            env.inv(),
            model_wf(env.model()),
            env.model().buffers.contains_key(self@.ptr),
            env.model().buffers[self@.ptr].owner == self@.obj,
        ensures
            r is Ok,
            r->Ok_0 as int == env.model().arrays[self@.obj].len(),
    {
        env.get_array_length(self.0.obj())
    }

    /// Ends the guard: hands the buffer back under the current mode.
    pub fn close<E: ArrayElements<jlong>>(self, env: &mut E) -> (r: Result<()>)
        requires
            old(env).inv(),
            model_wf(old(env).model()),
            old(env).model().buffers.contains_key(self@.ptr),
            old(env).model().buffers[self@.ptr].owner == self@.obj,
        ensures
            final(env).inv(),
            model_wf(final(env).model()),
            released(old(env).model(), final(env).model(), self@.ptr, mode_code(self@.mode)),
    {
        let mut guard = self;
        let code = guard.0.mode().code();
        <AutoLongArray as TypeArray<jlong, E>>::release(&mut guard, env, code)
    }
}

impl<E: ArrayElements<jlong>> TypeArray<jlong, E> for AutoLongArray {
    open spec fn state(&self) -> GuardState {
        self@
    }

    fn new(env: &mut E, obj: JObject, mode: ReleaseMode) -> (r: Result<Self>) {
        let (ptr, is_copy) = env.get_elements(obj);
        match AutoArray::new(obj, ptr, is_copy, mode) {
            Ok(inner) => Ok(AutoLongArray(inner)),
            Err(e) => Err(e),
        }
    }

    fn release(&mut self, env: &mut E, mode: jint) -> (r: Result<()>) {
        env.release_elements(self.0.obj(), self.0.as_ptr(), mode)
    }
}

} // verus!
