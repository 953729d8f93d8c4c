//! The native call gateway: the element-buffer entry points of a managed
//! runtime, with the protocol they follow stated over a model of its arrays
//! and of the buffers it has handed out.

use vstd::prelude::*;

use crate::errors::{Error, Result};
use crate::release_mode::{abort_code, commit_code, valid_code};
use crate::sys::{jboolean, jint, jsize};

verus! {

/// A handle on a managed object. The handle `0` is the null reference.
#[derive(Clone, Copy, Debug, PartialEq, Eq, Structural)]
pub struct JObject {
    pub handle: usize,
}

impl JObject {
    /// The handle with the given raw value.
    pub fn from_raw(handle: usize) -> (r: JObject)
        ensures
            r.handle == handle,
    {
        JObject { handle }
    }

    /// The null reference.
    pub fn null() -> (r: JObject)
        ensures
            r.handle == 0,
    {
        JObject { handle: 0 }
    }

    /// The raw value of the handle.
    pub fn as_raw(&self) -> (r: usize)
        ensures
            r == self.handle,
    {
        self.handle
    }
}

/// What the runtime knows of one element buffer that it has handed out.
pub struct BufferModel<T> {
    /// The array it was taken from.
    pub owner: JObject,
    /// Whether it is a copy; else it pins the array itself.
    pub copied: bool,
    /// Its elements, where it is a copy.
    pub data: Seq<T>,
}

/// The state of a runtime as far as element buffers go: the arrays of one
/// element kind by handle, and the live buffers by address.
pub struct ArrayModel<T> {
    pub arrays: Map<JObject, Seq<T>>,
    pub buffers: Map<usize, BufferModel<T>>,
}

/// Every live buffer belongs to an array and a copy has its array's length;
/// every array has a length that a `jsize` holds; no buffer sits at address `0`.
pub open spec fn model_wf<T>(m: ArrayModel<T>) -> bool {
    &&& forall|o: JObject| #[trigger] m.arrays.contains_key(o) ==> m.arrays[o].len() <= i32::MAX
    &&& forall|p: usize| #[trigger] m.buffers.contains_key(p) ==> {
        &&& p != 0
        &&& m.arrays.contains_key(m.buffers[p].owner)
        &&& m.buffers[p].data.len() == m.arrays[m.buffers[p].owner].len()
    }
}

/// What the pointer `ptr` shows: its own copy, or the pinned array itself.
pub open spec fn view_of<T>(m: ArrayModel<T>, ptr: usize) -> Seq<T> {
    if m.buffers[ptr].copied {
        m.buffers[ptr].data
    } else {
        m.arrays[m.buffers[ptr].owner]
    }
}

/// The effect of `Get<Kind>ArrayElements` on `obj`, giving `ptr` and the
/// copy flag `copied`: a null pointer and no change where `obj` is no
/// array, else a fresh buffer that holds the array's elements.
pub open spec fn acquired<T>(
    pre: ArrayModel<T>,
    post: ArrayModel<T>,
    obj: JObject,
    ptr: usize,
    copied: bool,
) -> bool {
    if pre.arrays.contains_key(obj) {
        &&& ptr != 0
        &&& !pre.buffers.contains_key(ptr)
        &&& post.arrays == pre.arrays
        &&& post.buffers == pre.buffers.insert(
            ptr,
            BufferModel { owner: obj, copied, data: pre.arrays[obj] },
        )
    } else {
        ptr == 0 && post == pre
    }
}

/// The elements of the array of buffer `ptr` once it is released under
/// `code`: a copy is written back unless the code aborts.
pub open spec fn released_contents<T>(pre: ArrayModel<T>, ptr: usize, code: int) -> Seq<T> {
    if pre.buffers[ptr].copied && code != abort_code() {
        pre.buffers[ptr].data
    } else {
        pre.arrays[pre.buffers[ptr].owner]
    }
}

/// The effect of `Release<Kind>ArrayElements` on the buffer `ptr` under
/// `code`: the array takes its released contents; the buffer stays live
/// under the commit code only.
pub open spec fn released<T>(pre: ArrayModel<T>, post: ArrayModel<T>, ptr: usize, code: int) -> bool {
    &&& post.arrays == pre.arrays.insert(
        pre.buffers[ptr].owner,
        released_contents(pre, ptr, code),
    )
    &&& post.buffers == if code == commit_code() {
        pre.buffers
    } else {
        pre.buffers.remove(ptr)
    }
}

/// The effect of writing `value` at `index` through the pointer `ptr`: a
/// copy changes alone, a pinned array changes at once.
pub open spec fn written<T>(
    pre: ArrayModel<T>,
    post: ArrayModel<T>,
    ptr: usize,
    index: int,
    value: T,
) -> bool {
    let b = pre.buffers[ptr];
    if b.copied {
        &&& post.arrays == pre.arrays
        &&& post.buffers == pre.buffers.insert(
            ptr,
            BufferModel { owner: b.owner, copied: true, data: b.data.update(index, value) },
        )
    } else {
        &&& post.arrays == pre.arrays.insert(b.owner, pre.arrays[b.owner].update(index, value))
        &&& post.buffers == pre.buffers
    }
}

/// The element-buffer entry points of a managed runtime for one element
/// kind `T`. A pointer is an address; `0` is the null pointer.
pub trait ArrayElements<T>: Sized {
    /// The implementation's own invariant.
    spec fn inv(&self) -> bool;

    /// The arrays and live buffers of the runtime.
    spec fn model(&self) -> ArrayModel<T>;

    /// `Get<Kind>ArrayElements`: a pointer to the elements of `obj` and the
    /// copy indicator, or the null pointer where `obj` is no such array.
    fn get_elements(&mut self, obj: JObject) -> (r: (usize, jboolean))
        requires
            old(self).inv(),
            model_wf(old(self).model()),
        ensures
            final(self).inv(),
            model_wf(final(self).model()),
            acquired(old(self).model(), final(self).model(), obj, r.0, r.1 == 1),
    ;

    /// `Release<Kind>ArrayElements`: hands the buffer `ptr` back under the
    /// release code `mode`. An error reports an exception raised meanwhile.
    fn release_elements(&mut self, obj: JObject, ptr: usize, mode: jint) -> (r: Result<()>)
        requires
            old(self).inv(),
            model_wf(old(self).model()),
            old(self).model().buffers.contains_key(ptr),
            old(self).model().buffers[ptr].owner == obj,
            valid_code(mode as int),
        ensures
            final(self).inv(),
            model_wf(final(self).model()),
            released(old(self).model(), final(self).model(), ptr, mode as int),
    ;

    /// `GetArrayLength`: the element count of `obj`.
    fn get_array_length(&self, obj: JObject) -> (r: Result<jsize>)
        requires
            self.inv(),
            model_wf(self.model()),
        ensures
            self.model().arrays.contains_key(obj) ==> r == Ok::<jsize, Error>(
                self.model().arrays[obj].len() as jsize,
            ),
            !self.model().arrays.contains_key(obj) ==> r is Err,
    ;

    /// Reads the element at `index` through the pointer `ptr`.
    fn read_element(&self, ptr: usize, index: usize) -> (r: T)
        requires
            self.inv(),
            model_wf(self.model()),
            self.model().buffers.contains_key(ptr),
            index < view_of(self.model(), ptr).len(),
        ensures
            r == view_of(self.model(), ptr)[index as int],
    ;

    /// Writes `value` at `index` through the pointer `ptr`.
    fn write_element(&mut self, ptr: usize, index: usize, value: T)
        requires
            old(self).inv(),
            model_wf(old(self).model()),
            old(self).model().buffers.contains_key(ptr),
            index < view_of(old(self).model(), ptr).len(),
        ensures
            final(self).inv(),
            model_wf(final(self).model()),
            written(old(self).model(), final(self).model(), ptr, index as int, value),
    ;
}

} // verus!
