//! A managed heap of primitive arrays that serves the element-buffer entry
//! points in memory, either by copying or by pinning.

use vstd::prelude::*;

use crate::errors::{Error, Result};
use crate::native::{
    model_wf, released_contents, ArrayElements, ArrayModel, BufferModel, JObject,
};
use crate::sys::{jboolean, jint, jsize};

verus! {

/// One buffer handed out: the handle of its array, whether it is a copy,
/// whether it is still live, and its elements where it is a copy.
struct Slot<T> {
    owner: usize,
    copied: bool,
    live: bool,
    data: Vec<T>,
}

/// Arrays of one element kind. The array at index `i` has the handle
/// `i + 1`; the buffer in slot `k` has the address `k + 1`.
pub struct ManagedHeap<T> {
    arrays: Vec<Vec<T>>,
    slots: Vec<Slot<T>>,
    copies: bool,
}

/// The elements of `v`, in a new vector.
fn copy_elements<T: Copy>(v: &Vec<T>) -> (r: Vec<T>)
    ensures
        r@ == v@,
{
    let mut r: Vec<T> = Vec::new();
    let mut i: usize = 0;
    while i < v.len()
        invariant
            i <= v@.len(),
            r@ == v@.subrange(0, i as int),
        decreases v@.len() - i,
    {
        r.push(v[i]);
        i = i + 1;
        assert(r@ =~= v@.subrange(0, i as int));
    }
    assert(r@ =~= v@);
    r
}

impl<T: Copy> ManagedHeap<T> {
    /// An empty heap whose buffers are copies when `copies` holds, and pin
    /// their arrays otherwise.
    pub fn new(copies: bool) -> (r: Self)
        ensures
            r.inv(),
            r.model().arrays.is_empty(),
            r.model().buffers.is_empty(),
            r.copies() == copies,
    {
        let r = ManagedHeap { arrays: Vec::new(), slots: Vec::new(), copies };
        assert(r.model().arrays =~= Map::empty());
        assert(r.model().buffers =~= Map::empty());
        r
    }

    /// Whether this heap hands out copies.
    pub closed spec fn copies(&self) -> bool {
        self.copies
    }

    /// Whether the handle names an array of this heap.
    closed spec fn holds(&self, obj: JObject) -> bool {
        1 <= obj.handle <= self.arrays@.len()
    }

    /// Whether the address names a slot of this heap.
    closed spec fn has_slot(&self, ptr: usize) -> bool {
        1 <= ptr <= self.slots@.len()
    }

    /// The record of the buffer at `ptr`.
    closed spec fn slot_model(&self, ptr: usize) -> BufferModel<T> {
        let s = self.slots@[ptr - 1];
        BufferModel { owner: JObject { handle: s.owner }, copied: s.copied, data: s.data@ }
    }

    proof fn lemma_wf(&self)
        requires
            self.inv(),
        ensures
            model_wf(self.model()),
    {
        let m = self.model();
        assert forall|o: JObject| #[trigger] m.arrays.contains_key(o) implies m.arrays[o].len()
            <= i32::MAX by {
            assert(self.arrays@[o.handle - 1]@.len() <= i32::MAX);
        }
        assert forall|p: usize| #[trigger] m.buffers.contains_key(p) implies {
            &&& p != 0
            &&& m.arrays.contains_key(m.buffers[p].owner)
            &&& m.buffers[p].data.len() == m.arrays[m.buffers[p].owner].len()
        } by {
            let s = self.slots@[p - 1];
            assert(1 <= s.owner <= self.arrays@.len());
            assert(self.holds(m.buffers[p].owner));
        }
    }

    /// Adds an array with the elements `elems` and returns its handle.
    pub fn new_array(&mut self, elems: Vec<T>) -> (r: JObject)
        requires
            old(self).inv(),
            elems@.len() <= i32::MAX,
        ensures
            final(self).inv(),
            final(self).copies() == old(self).copies(),
            r.handle != 0,
            !old(self).model().arrays.contains_key(r),
            final(self).model().arrays == old(self).model().arrays.insert(r, elems@),
            final(self).model().buffers == old(self).model().buffers,
    {
        self.arrays.push(elems);
        let r = JObject { handle: self.arrays.len() };
        assert(final(self).model().arrays =~= old(self).model().arrays.insert(r, elems@));
        assert(final(self).model().buffers =~= old(self).model().buffers);
        r
    }

    /// The elements of the array `obj`, or `None` where it is no array of
    /// this heap.
    pub fn array(&self, obj: JObject) -> (r: Option<Vec<T>>)
        requires
            self.inv(),
        ensures
            self.model().arrays.contains_key(obj) <==> r is Some,
            r is Some ==> r->Some_0@ == self.model().arrays[obj],
    {
        if 1 <= obj.handle && obj.handle <= self.arrays.len() {
            Some(copy_elements(&self.arrays[obj.handle - 1]))
        } else {
            None
        }
    }
}

impl<T: Copy> ArrayElements<T> for ManagedHeap<T> {
    closed spec fn inv(&self) -> bool {
        &&& forall|i: int| 0 <= i < self.arrays@.len() ==> #[trigger] self.arrays@[i]@.len() <= i32::MAX
        &&& forall|k: int|
            0 <= k < self.slots@.len() ==> {
                &&& 1 <= (#[trigger] self.slots@[k]).owner <= self.arrays@.len()
                &&& self.slots@[k].data@.len() == self.arrays@[self.slots@[k].owner - 1]@.len()
            }
    }

    closed spec fn model(&self) -> ArrayModel<T> {
        ArrayModel {
            arrays: Map::new(|o: JObject| self.holds(o), |o: JObject| self.arrays@[o.handle - 1]@),
            buffers: Map::new(
                |p: usize| self.has_slot(p) && self.slots@[p - 1].live,
                |p: usize| self.slot_model(p),
            ),
        }
    }

    fn get_elements(&mut self, obj: JObject) -> (r: (usize, jboolean)) {
        proof {
            self.lemma_wf();
        }
        if obj.handle == 0 || obj.handle > self.arrays.len() {
            return (0, 0);
        }
        let data = copy_elements(&self.arrays[obj.handle - 1]);
        let copied = self.copies;
        self.slots.push(Slot { owner: obj.handle, copied, live: true, data });
        let ptr = self.slots.len();
        let flag: jboolean = if copied { 1 } else { 0 };
        assert(final(self).model().arrays =~= old(self).model().arrays);
        assert(final(self).model().buffers =~= old(self).model().buffers.insert(
            ptr,
            BufferModel { owner: obj, copied: flag == 1, data: old(self).model().arrays[obj] },
        ));
        proof {
            self.lemma_wf();
        }
        (ptr, flag)
    }

    fn release_elements(&mut self, obj: JObject, ptr: usize, mode: jint) -> (r: Result<()>) {
        let k = ptr - 1;
        let owner = self.slots[k].owner;
        if self.slots[k].copied && mode != 2 {
            let back = copy_elements(&self.slots[k].data);
            self.arrays[owner - 1] = back;
        }
        if mode != 1 {
            self.slots[k].live = false;
        }
        assert(final(self).model().arrays =~= old(self).model().arrays.insert(
            old(self).model().buffers[ptr].owner,
            released_contents(old(self).model(), ptr, mode as int),
        ));
        if mode == 1 {
            assert(final(self).model().buffers =~= old(self).model().buffers);
        } else {
            assert(final(self).model().buffers =~= old(self).model().buffers.remove(ptr));
        }
        proof {
            self.lemma_wf();
        }
        Ok(())
    }

    fn get_array_length(&self, obj: JObject) -> (r: Result<jsize>) {
        if obj.handle == 0 || obj.handle > self.arrays.len() {
            return Err(Error::InvalidArray);
        }
        Ok(self.arrays[obj.handle - 1].len() as jsize)
    }

    fn read_element(&self, ptr: usize, index: usize) -> (r: T) {
        let k = ptr - 1;
        if self.slots[k].copied {
            self.slots[k].data[index]
        } else {
            self.arrays[self.slots[k].owner - 1][index]
        }
    }

    fn write_element(&mut self, ptr: usize, index: usize, value: T) {
        let k = ptr - 1;
        let owner = self.slots[k].owner;
        if self.slots[k].copied {
            self.slots[k].data[index] = value;
            assert(final(self).model().arrays =~= old(self).model().arrays);
            assert(final(self).model().buffers =~= old(self).model().buffers.insert(
                ptr,
                BufferModel {
                    owner: old(self).model().buffers[ptr].owner,
                    copied: true,
                    data: old(self).model().buffers[ptr].data.update(index as int, value),
                },
            ));
        } else {
            self.arrays[owner - 1][index] = value;
            assert(final(self).model().arrays =~= old(self).model().arrays.insert(
                old(self).model().buffers[ptr].owner,
                old(self).model().arrays[old(self).model().buffers[ptr].owner].update(
                    index as int,
                    value,
                ),
            ));
            assert(final(self).model().buffers =~= old(self).model().buffers);
        }
        proof {
            self.lemma_wf();
        }
    }
}

} // verus!
