//! A `RingBuffer` object for managing wrapping fixed-size buffers.

use vstd::prelude::*;

verus! {

/// The abstract state of a ring buffer: its fixed capacity, how many slots
/// currently hold an item, the slot the next insertion will land in, and the
/// backed slots themselves.
pub ghost struct RingModel<T> {
    pub cap: int,
    pub len: int,
    pub cur: int,
    pub slots: Seq<T>,
}

impl<T> RingModel<T> {
    /// A freshly created buffer of capacity `cap`: nothing stored yet.
    pub open spec fn empty(cap: int) -> RingModel<T> {
        RingModel { cap, len: 0, cur: 0, slots: Seq::empty() }
    }

    /// Whether this state can arise from `empty` by a sequence of insertions.
    pub open spec fn wf(self) -> bool {
        &&& self.cap >= 1
        &&& 0 <= self.cur < self.cap
        &&& 0 <= self.len <= self.cap
        &&& self.slots.len() == self.len
        &&& (self.len < self.cap ==> self.cur == self.len)
    }

    /// One insertion: a not-yet-full buffer grows by one slot, a full buffer
    /// overwrites its oldest slot, and the cursor advances with wrap-around.
    pub open spec fn push(self, x: T) -> RingModel<T> {
        RingModel {
            cap: self.cap,
            len: if self.len < self.cap { self.len + 1 } else { self.cap },
            cur: (self.cur + 1) % self.cap,
            slots: if self.slots.len() < self.cap {
                self.slots.push(x)
            } else {
                self.slots.update(self.cur, x)
            },
        }
    }

    /// The state after inserting `items`, in order, into an empty buffer of
    /// capacity `cap`.
    pub open spec fn push_all(cap: int, items: Seq<T>) -> RingModel<T>
        decreases items.len(),
    {
        if items.len() == 0 {
            RingModel::empty(cap)
        } else {
            RingModel::push_all(cap, items.drop_last()).push(items.last())
        }
    }

    /// The slot that holds the most recently inserted item.
    pub open spec fn newest(self) -> int {
        (self.cur + self.cap - 1) % self.cap
    }
}

/// One insertion into a well-formed buffer keeps it well formed, writes the
/// inserted item into the slot the cursor named, leaves every other backed
/// slot unchanged, and afterwards that same slot is the newest one.
pub proof fn lemma_push_properties<T>(m: RingModel<T>, x: T)
    requires
        m.wf(),
    ensures
        m.push(x).wf(),
        m.push(x).newest() == m.cur,
        m.push(x).slots[m.cur] == x,
        m.push(x).len == if m.len < m.cap {
            m.len + 1
        } else {
            m.cap
        },
        m.push(x).cur == (m.cur + 1) % m.cap,
        forall|i: int| 0 <= i < m.slots.len() && i != m.cur ==> m.push(x).slots[i] == m.slots[i],
{
    if m.cur + 1 < m.cap {
        vstd::arithmetic::div_mod::lemma_small_mod((m.cur + 1) as nat, m.cap as nat);
        vstd::arithmetic::div_mod::lemma_mod_add_multiples_vanish(m.cur, m.cap);
        vstd::arithmetic::div_mod::lemma_small_mod(m.cur as nat, m.cap as nat);
    } else {
        vstd::arithmetic::div_mod::lemma_mod_self_0(m.cap as int);
        vstd::arithmetic::div_mod::lemma_small_mod((m.cap - 1) as nat, m.cap as nat);
    }
}

/// For every capacity and every sequence of insertions into an empty buffer,
/// the stored count is the insertion count clipped to the capacity, the
/// cursor has gone around the ring once per insertion, and the newest slot
/// holds the item that was inserted last.
pub proof fn lemma_push_all_count<T>(cap: int, items: Seq<T>)
    requires
        cap >= 1,
    ensures
        RingModel::push_all(cap, items).wf(),
        RingModel::push_all(cap, items).cap == cap,
        RingModel::push_all(cap, items).len == if items.len() <= cap {
            items.len() as int
        } else {
            cap
        },
        RingModel::push_all(cap, items).cur == items.len() as int % cap,
        items.len() > 0 ==> RingModel::push_all(cap, items).slots[RingModel::push_all(
            cap,
            items,
        ).newest()] == items.last(),
    decreases items.len(),
{
    if items.len() == 0 {
        vstd::arithmetic::div_mod::lemma_small_mod(0, cap as nat);
    } else {
        let prev = items.drop_last();
        lemma_push_all_count(cap, prev);
        let m = RingModel::push_all(cap, prev);
        lemma_push_properties(m, items.last());
        if cap == 1 {
            vstd::arithmetic::div_mod::lemma_mod_division_less_than_divisor(m.cur + 1, 1);
            vstd::arithmetic::div_mod::lemma_mod_division_less_than_divisor(
                items.len() as int,
                1,
            );
        } else {
            vstd::arithmetic::div_mod::lemma_small_mod(1, cap as nat);
            vstd::arithmetic::div_mod::lemma_add_mod_noop(prev.len() as int, 1, cap);
        }
    }
}

/// Inserting at most `cap` items into an empty buffer of capacity `cap`
/// stores them in insertion order: slot `i` holds the `i`-th item.
pub proof fn lemma_insertion_order<T>(cap: int, items: Seq<T>)
    requires
        cap >= 1,
        items.len() <= cap,
    ensures
        RingModel::push_all(cap, items).slots =~= items,
    decreases items.len(),
{
    if items.len() > 0 {
        let prev = items.drop_last();
        lemma_insertion_order(cap, prev);
        lemma_push_all_count(cap, prev);
    }
}

/// Inserting `cap + k` items, for `0 <= k <= cap`, overwrites exactly the
/// oldest `k`: slot `i` then holds item `cap + i` where `i < k`, and still
/// holds item `i` everywhere else.
pub proof fn lemma_overwrite_window<T>(cap: int, items: Seq<T>)
    requires
        cap >= 1,
        cap <= items.len() <= 2 * cap,
    ensures
        forall|i: int|
            0 <= i < cap ==> RingModel::push_all(cap, items).slots[i] == (if i < items.len()
                - cap {
                items[cap + i]
            } else {
                items[i]
            }),
    decreases items.len(),
{
    if items.len() == cap {
        lemma_insertion_order(cap, items);
    } else {
        let prev = items.drop_last();
        lemma_overwrite_window(cap, prev);
        lemma_push_all_count(cap, prev);
        let m = RingModel::push_all(cap, prev);
        lemma_push_properties(m, items.last());
        vstd::arithmetic::div_mod::lemma_mod_sub_multiples_vanish(prev.len() as int, cap);
        vstd::arithmetic::div_mod::lemma_small_mod((prev.len() - cap) as nat, cap as nat);
        assert(m.cur == prev.len() - cap);
    }
}

/// Two positions less than one ring apart never share a slot.
proof fn lemma_mod_distinct(m: int, n: int, c: int)
    requires
        c >= 1,
        0 < n - m < c,
    ensures
        m % c != n % c,
{
    vstd::arithmetic::div_mod::lemma_fundamental_div_mod(m, c);
    vstd::arithmetic::div_mod::lemma_fundamental_div_mod(n, c);
    if m % c == n % c {
        let k = n / c - m / c;
        vstd::arithmetic::mul::lemma_mul_is_distributive_sub(c, n / c, m / c);
        assert(n - m == c * k);
        assert(false) by (nonlinear_arith)
            requires
                c >= 1,
                0 < n - m < c,
                n - m == c * k,
        ;
    }
}

/// However many items go in, the buffer keeps exactly the last `cap` of
/// them: once at least `cap` items were inserted, each of the last `cap`
/// insertions `m` still sits in the slot `m % cap` it landed in, so the
/// oldest items are exactly the ones that have been overwritten.
pub proof fn lemma_retained_window<T>(cap: int, items: Seq<T>)
    requires
        cap >= 1,
        items.len() >= cap,
    ensures
        forall|m: int|
            items.len() - cap <= m < items.len() ==> RingModel::push_all(cap, items).slots[m
                % cap] == #[trigger] items[m],
    decreases items.len(),
{
    if items.len() == cap {
        lemma_insertion_order(cap, items);
        assert forall|m: int| items.len() - cap <= m < items.len() implies RingModel::push_all(
            cap,
            items,
        ).slots[m % cap] == items[m] by {
            vstd::arithmetic::div_mod::lemma_small_mod(m as nat, cap as nat);
        };
    } else {
        let prev = items.drop_last();
        let n = prev.len() as int;
        lemma_retained_window(cap, prev);
        lemma_push_all_count(cap, prev);
        let m0 = RingModel::push_all(cap, prev);
        lemma_push_properties(m0, items.last());
        assert forall|m: int| items.len() - cap <= m < items.len() implies RingModel::push_all(
            cap,
            items,
        ).slots[m % cap] == items[m] by {
            vstd::arithmetic::div_mod::lemma_mod_division_less_than_divisor(m, cap);
            if m < n {
                lemma_mod_distinct(m, n, cap);
                assert(prev[m] == items[m]);
            } else {
                assert(m == n && items[m] == items.last());
            }
        };
    }
}

/// RingBuffer is a wrapper around std::Vec, which holds a predefined amount
/// of items, and for which inserts on a full buffer will push items off the
/// end of the list.
pub struct RingBuffer<T> where T: Clone + Default {
    size: usize,
    count: usize,
    head: usize,
    data: Vec<T>,
}

impl<T> RingBuffer<T> where T: Clone + Default {
    /// The abstract state this buffer is in.
    pub closed spec fn model(&self) -> RingModel<T> {
        RingModel {
            cap: self.size as int,
            len: self.count as int,
            cur: self.head as int,
            slots: self.data@,
        }
    }

    /// Every buffer made by `new` and grown by `add` satisfies this.
    pub open spec fn wf(&self) -> bool {
        self.model().wf()
    }

    /// Creates a new [`RingBuffer`] object of size `size`.
    ///
    /// A buffer must have room for at least one item; `size == 0` is a
    /// contract violation at the call site, never silently accepted.
    pub fn new(size: usize) -> (r: Self)
        requires
            size >= 1,
        ensures
            r.wf(),
            r.model() == RingModel::<T>::empty(size as int),
    {
        let data = Vec::<T>::new();

        RingBuffer { head: 0, count: 0, size, data }
    }

    /// Add the new given item `x` to the front of the ring buffer.
    pub fn add(&mut self, x: T)
        requires
            old(self).wf(),
        ensures
            final(self).wf(),
            final(self).model() == old(self).model().push(x),
    {
        let ghost pre = *self;

        if self.data.len() < self.size {
            self.data.push(x);
        } else {
            self.data.set(self.head, x);
        }

        self.head = (self.head + 1) % self.size;
        if self.count < self.size {
            self.count = self.count + 1;
        }

        proof {
            if pre.head + 1 < pre.size {
                vstd::arithmetic::div_mod::lemma_small_mod(
                    (pre.head + 1) as nat,
                    pre.size as nat,
                );
            } else {
                vstd::arithmetic::div_mod::lemma_mod_self_0(pre.size as int);
            }
        }
    }

    /// Returns the most recently added item, or `None` if nothing has been
    /// added yet.
    pub fn last(&self) -> (r: Option<&T>)
        requires
            self.wf(),
        ensures
            match r {
                None => self.model().len == 0,
                Some(x) => self.model().len > 0 && *x == self.model().slots[self.model().newest()],
            },
    {
        if self.count == 0 {
            None
        } else {
            let idx = if self.head == 0 { self.size - 1 } else { self.head - 1 };
            proof {
                vstd::arithmetic::div_mod::lemma_mod_add_multiples_vanish(
                    idx as int,
                    self.size as int,
                );
                vstd::arithmetic::div_mod::lemma_small_mod(idx as nat, self.size as nat);
            }
            Some(&self.data[idx])
        }
    }

    /// Return ring buffer item at position `idx`.
    ///
    /// Indeces greater than the size of the ring buffer will simply wrap
    /// around; the wrapped position must name a slot that already holds an
    /// item.
    pub fn peek(&self, idx: usize) -> (r: &T)
        requires
            self.wf(),
            idx as int % self.model().cap < self.model().len,
        ensures
            *r == self.model().slots[idx as int % self.model().cap],
    {
        &self.data[idx % self.size]
    }

    /// Get the length of the ring buffer
    pub fn size(&self) -> (r: usize)
        ensures
            r == self.model().cap,
    {
        self.size
    }

    /// Get the count of current items in the ring buffer.
    ///
    /// Note that this will never be less than 0, nor more than the size of
    /// the buffer.
    pub fn count(&self) -> (r: usize)
        ensures
            r == self.model().len,
    {
        self.count
    }

    /// How many slots of the backing store hold an item.
    pub fn stored(&self) -> (r: usize)
        ensures
            r == self.model().slots.len(),
    {
        self.data.len()
    }
}

} // verus!
