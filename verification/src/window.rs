//! Fixed-length rolling window: the first-in, first-out buffer behind every
//! windowed indicator (SMA, standard deviation, Bollinger Bands, median, ...).
//!
//! Once the window holds `capacity` values, each new value evicts the oldest
//! one, which is handed back so the caller can take it out of its running sums.
use std::collections::VecDeque;

use vstd::prelude::*;

verus! {

/// The last `capacity` elements of `history` (all of it while it is shorter).
pub open spec fn window_of<T>(history: Seq<T>, capacity: nat) -> Seq<T> {
    if history.len() <= capacity {
        history
    } else {
        history.subrange(history.len() - capacity, history.len() as int)
    }
}

/// One step of the window: append `x`, dropping the oldest value when full.
pub open spec fn slide<T>(window: Seq<T>, x: T, capacity: nat) -> Seq<T> {
    if window.len() >= capacity {
        window.drop_first().push(x)
    } else {
        window.push(x)
    }
}

/// Sliding a window of the last `capacity` inputs by one more input gives the
/// window of the last `capacity` inputs of the longer history: a window fed a
/// history always holds exactly its most recent `capacity` values.
pub proof fn lemma_slide_keeps_most_recent<T>(history: Seq<T>, x: T, capacity: nat)
    requires
        capacity >= 1,
    ensures
        window_of(history.push(x), capacity) == slide(window_of(history, capacity), x, capacity),
{
    let w = window_of(history, capacity);
    let n = history.len();
    if n < capacity {
        assert(window_of(history.push(x), capacity) =~= history.push(x));
    } else {
        assert(w.len() == capacity);
        assert(window_of(history.push(x), capacity) =~= w.drop_first().push(x));
    }
}

/// Feeding the values of `inputs` one by one into an empty window of the given
/// capacity leaves exactly the window of `inputs`.
pub open spec fn fill<T>(inputs: Seq<T>, capacity: nat) -> Seq<T>
    decreases inputs.len(),
{
    if inputs.len() == 0 {
        Seq::empty()
    } else {
        slide(fill(inputs.drop_last(), capacity), inputs.last(), capacity)
    }
}

/// Streaming the inputs through the window one at a time ends with the most
/// recent `capacity` inputs, in arrival order.
pub proof fn lemma_fill_is_window_of<T>(inputs: Seq<T>, capacity: nat)
    requires
        capacity >= 1,
    ensures
        fill(inputs, capacity) == window_of(inputs, capacity),
    decreases inputs.len(),
{
    if inputs.len() == 0 {
        assert(window_of(inputs, capacity) =~= Seq::<T>::empty());
    } else {
        let prefix = inputs.drop_last();
        lemma_fill_is_window_of(prefix, capacity);
        lemma_slide_keeps_most_recent(prefix, inputs.last(), capacity);
        assert(prefix.push(inputs.last()) =~= inputs);
    }
}

/// A bounded first-in, first-out window.
#[derive(Debug)]
pub struct RollingWindow<T> {
    capacity: usize,
    items: VecDeque<T>,
}

impl<T: Clone> Clone for RollingWindow<T> {
    /// A copy with the same capacity holding clones of the same values.
    fn clone(&self) -> (r: RollingWindow<T>)
        ensures
            r.spec_capacity() == self.spec_capacity(),
            r@.len() == self@.len(),
            forall|i: int| 0 <= i < self@.len() ==> cloned::<T>(self@[i], #[trigger] r@[i]),
    {
        proof {
            use_type_invariant(self);
        }
        RollingWindow { capacity: self.capacity, items: self.items.clone() }
    }
}

impl<T> View for RollingWindow<T> {
    type V = Seq<T>;

    closed spec fn view(&self) -> Seq<T> {
        self.items@
    }
}

impl<T> RollingWindow<T> {
    /// The window length.
    pub closed spec fn spec_capacity(&self) -> nat {
        self.capacity as nat
    }

    #[verifier::type_invariant]
    closed spec fn wf(&self) -> bool {
        &&& self.capacity >= 1
        &&& self.items@.len() <= self.capacity
    }

    /// An empty window of the given length.
    pub fn new(capacity: usize) -> (w: RollingWindow<T>)
        requires
            capacity >= 1,
        ensures
            w@ == Seq::<T>::empty(),
            w.spec_capacity() == capacity,
    {
        RollingWindow { capacity, items: VecDeque::new() }
    }

    /// The window length.
    pub fn capacity(&self) -> (r: usize)
        ensures
            r == self.spec_capacity(),
            r >= 1,
    {
        proof {
            use_type_invariant(self);
        }
        self.capacity
    }

    /// Number of values currently held.
    pub fn len(&self) -> (r: usize)
        ensures
            r == self@.len(),
            r <= self.spec_capacity(),
    {
        proof {
            use_type_invariant(self);
        }
        self.items.len()
    }

    /// Whether no value is held.
    pub fn is_empty(&self) -> (r: bool)
        ensures
            r == (self@.len() == 0),
    {
        self.items.len() == 0
    }

    /// Whether the window holds `capacity` values.
    pub fn is_full(&self) -> (r: bool)
        ensures
            r == (self@.len() == self.spec_capacity()),
    {
        self.items.len() == self.capacity
    }

    /// Append `x`; when the window was full, the oldest value is removed and
    /// returned.
    pub fn push(&mut self, x: T) -> (evicted: Option<T>)
        ensures
            final(self)@ == slide(old(self)@, x, old(self).spec_capacity()),
            final(self).spec_capacity() == old(self).spec_capacity(),
            final(self)@.len() <= final(self).spec_capacity(),
            old(self)@.len() == old(self).spec_capacity() ==> evicted == Some(old(self)@[0]),
            old(self)@.len() < old(self).spec_capacity() ==> evicted.is_none(),
            final(self)@.last() == x,
            final(self)@.len() == if old(self)@.len() == old(self).spec_capacity() {
                old(self)@.len()
            } else {
                old(self)@.len() + 1
            },
            old(self)@.len() == old(self).spec_capacity() ==> forall|i: int|
                0 <= i < final(self)@.len() - 1 ==> #[trigger] final(self)@[i] == old(self)@[i + 1],
            old(self)@.len() < old(self).spec_capacity() ==> forall|i: int|
                0 <= i < old(self)@.len() ==> #[trigger] final(self)@[i] == old(self)@[i],
    {
        proof {
            use_type_invariant(&*self);
        }
        let mut items: VecDeque<T> = VecDeque::new();
        std::mem::swap(&mut items, &mut self.items);
        let evicted = if items.len() == self.capacity {
            items.pop_front()
        } else {
            None
        };
        items.push_back(x);
        self.items = items;
        evicted
    }

    /// Remove every value, keeping the capacity.
    pub fn clear(&mut self)
        ensures
            final(self)@ == Seq::<T>::empty(),
            final(self).spec_capacity() == old(self).spec_capacity(),
    {
        proof {
            use_type_invariant(&*self);
        }
        self.items = VecDeque::new();
    }

    /// The held values, oldest first.
    pub fn to_vec(&self) -> (v: Vec<T>)
        where
            T: Copy,
        ensures
            v@ == self@,
    {
        let mut v: Vec<T> = Vec::new();
        let mut i: usize = 0;
        while i < self.items.len()
            invariant
                i <= self.items@.len(),
                v@ == self.items@.subrange(0, i as int),
            decreases self.items@.len() - i,
        {
            v.push(self.items[i]);
            i = i + 1;
        }
        assert(v@ =~= self.items@);
        v
    }

    /// The `i`-th held value, oldest first.
    pub fn get(&self, i: usize) -> (r: &T)
        requires
            i < self@.len(),
        ensures
            *r == self@[i as int],
    {
        &self.items[i]
    }
}

} // verus!
