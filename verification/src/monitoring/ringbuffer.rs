//! A fixed-size wrapping buffer whose backing store is filled with default
//! values up front, so that every slot can be read from the start.

use vstd::prelude::*;

use crate::ringbuffer::RingModel;

verus! {

/// RingBuffer is a wrapper around std::Vec, which holds a predefined amount
/// of items, and for which inserts on a full buffer will push items off the
/// end of the list.
///
/// Unlike [`crate::ringbuffer::RingBuffer`], every one of its slots is backed
/// from the moment the buffer is created: slots that nothing has been added
/// to yet hold the item type's default value.
pub struct RingBuffer<T> where T: Copy + Default {
    size: usize,
    count: usize,
    head: usize,
    data: Vec<T>,
}

impl<T> RingBuffer<T> where T: Copy + Default {
    /// The abstract state this buffer is in.
    pub closed spec fn model(&self) -> RingModel<T> {
        RingModel {
            cap: self.size as int,
            len: self.count as int,
            cur: self.head as int,
            slots: self.data@,
        }
    }

    /// Every buffer made by `new` and grown by `add` satisfies this: the
    /// backing store always spans the full capacity.
    pub open spec fn wf(&self) -> bool {
        &&& self.model().cap >= 1
        &&& 0 <= self.model().cur < self.model().cap
        &&& 0 <= self.model().len <= self.model().cap
        &&& self.model().slots.len() == self.model().cap
        &&& (self.model().len < self.model().cap ==> self.model().cur == self.model().len)
    }

    /// Creates a new [`RingBuffer`] object of size `size`, with every slot
    /// holding the item type's default value.
    ///
    /// A buffer must have room for at least one item; `size == 0` is a
    /// contract violation at the call site, never silently accepted.
    pub fn new(size: usize) -> (r: Self)
        requires
            size >= 1,
        ensures
            r.wf(),
            r.model().cap == size,
            r.model().len == 0,
            r.model().cur == 0,
    {
        let mut data = Vec::<T>::new();

        while data.len() < size
            invariant
                data@.len() <= size,
            decreases size - data.len(),
        {
            data.push(T::default());
        }

        RingBuffer { head: 0, count: 0, size, data }
    }

    /// Add the new given item `x` to the front of the ring buffer.
    pub fn add(&mut self, x: T)
        requires
            old(self).wf(),
        ensures
            final(self).wf(),
            final(self).model() == old(self).model().push(x),
    {
        let ghost pre = *self;

        self.data.set(self.head, x);
        self.head = (self.head + 1) % self.size;
        if self.count < self.size {
            self.count = self.count + 1;
        }

        proof {
            if pre.head + 1 < pre.size {
                vstd::arithmetic::div_mod::lemma_small_mod(
                    (pre.head + 1) as nat,
                    pre.size as nat,
                );
            } else {
                vstd::arithmetic::div_mod::lemma_mod_self_0(pre.size as int);
            }
        }
    }

    /// Return ring buffer item at position `idx`.
    ///
    /// Indeces greater than the size of the ring buffer will simply wrap
    /// around.
    pub fn peek(&self, idx: usize) -> (r: T)
        requires
            self.wf(),
        ensures
            r == self.model().slots[idx as int % self.model().cap],
    {
        self.data[idx % self.size]
    }

    /// Get the length of the ring buffer
    pub fn size(&self) -> (r: usize)
        ensures
            r == self.model().cap,
    {
        self.size
    }

    /// Get the count of current items in the ring buffer.
    ///
    /// Note that this will never be less than 0, nor more than the size of
    /// the buffer.
    pub fn count(&self) -> (r: usize)
        ensures
            r == self.model().len,
    {
        self.count
    }

    /// How many slots the backing store holds; always the full capacity.
    pub fn stored(&self) -> (r: usize)
        ensures
            r == self.model().slots.len(),
    {
        self.data.len()
    }
}

} // verus!
