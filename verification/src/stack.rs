//! The stack container and its laws.

use vstd::prelude::*;

verus! {

/// A last-in-first-out container over a contiguous growable array.
///
/// The abstract value (the view) is the sequence of elements in insertion
/// order: the last element of the sequence is the top of the stack.
pub struct Stack<T> {
    data: Vec<T>,
}

impl<T> View for Stack<T> {
    type V = Seq<T>;

    closed spec fn view(&self) -> Seq<T> {
        self.data@
    }
}

impl<T> Stack<T> {
    /// Returns an empty stack with no preallocated storage.
    pub fn new() -> (s: Self)
        ensures
            s@ == Seq::<T>::empty(),
    {
        Stack { data: Vec::new() }
    }

    /// Returns an empty stack with storage reserved for at least `capacity`
    /// elements.
    pub fn with_capacity(capacity: usize) -> (s: Self)
        ensures
            s@ == Seq::<T>::empty(),
    {
        Stack { data: Vec::with_capacity(capacity) }
    }

    /// Appends `value` as the new top. Always succeeds.
    pub fn push(&mut self, value: T)
        ensures
            final(self)@ == old(self)@.push(value),
            final(self)@.len() == old(self)@.len() + 1,
            final(self)@.last() == value,
    {
        self.data.push(value);
    }

    /// Removes and returns the top element, or `None` when the stack is
    /// empty. Never fails.
    pub fn pop(&mut self) -> (r: Option<T>)
        ensures
            old(self)@.len() == 0 ==> r.is_none() && final(self)@ == old(self)@,
            old(self)@.len() > 0 ==> r == Some(old(self)@.last())
                && final(self)@ == old(self)@.drop_last()
                && final(self)@.len() == old(self)@.len() - 1,
    {
        self.data.pop()
    }

    /// Removes and returns the top element of a stack known to be non-empty.
    pub fn pop_unchecked(&mut self) -> (r: T)
        requires
            old(self)@.len() > 0,
        ensures
            r == old(self)@.last(),
            final(self)@ == old(self)@.drop_last(),
            final(self)@.len() == old(self)@.len() - 1,
    {
        self.data.pop().unwrap()
    }

    /// Removes all elements; the stack is empty afterwards.
    pub fn clear(&mut self)
        ensures
            final(self)@ == Seq::<T>::empty(),
    {
        self.data.clear();
    }

    /// Returns a reference to the top element, or `None` when the stack is
    /// empty.
    pub fn top(&self) -> (r: Option<&T>)
        ensures
            self@.len() == 0 ==> r.is_none(),
            self@.len() > 0 ==> r.is_some() && r.unwrap() == self@.last(),
    {
        self.data.as_slice().last()
    }

    /// Returns a reference to the top element of a stack known to be
    /// non-empty.
    pub fn top_unchecked(&self) -> (r: &T)
        requires
            self@.len() > 0,
        ensures
            *r == self@.last(),
    {
        let i = self.data.len() - 1;
        &self.data[i]
    }

    /// Returns a mutable reference to the top element, or `None` when the
    /// stack is empty. Only the top element can be changed through it.
    pub fn top_mut(&mut self) -> (r: Option<&mut T>)
        ensures
            old(self)@.len() == 0 ==> r.is_none() && final(self)@ == old(self)@,
            old(self)@.len() > 0 ==> r.is_some()
                && *r.unwrap() == old(self)@.last()
                && final(self)@ == old(self)@.update(
                    old(self)@.len() - 1,
                    *final(r.unwrap()),
                ),
    {
        self.data.as_mut_slice().last_mut()
    }

    /// Returns a mutable reference to the top element of a stack known to be
    /// non-empty.
    pub fn top_mut_unchecked(&mut self) -> (r: &mut T)
        requires
            old(self)@.len() > 0,
        ensures
            *r == old(self)@.last(),
            final(self)@ == old(self)@.update(old(self)@.len() - 1, *final(r)),
    {
        let i = self.data.len() - 1;
        &mut self.data[i]
    }

    /// True exactly when the stack holds no elements.
    pub fn is_empty(&self) -> (r: bool)
        ensures
            r == (self@.len() == 0),
    {
        self.data.is_empty()
    }

    /// The number of elements currently held.
    pub fn len(&self) -> (r: usize)
        ensures
            r == self@.len(),
    {
        self.data.len()
    }

    /// The allocated storage size, always at least the length. Informational
    /// only: no other contract depends on it.
    ///
    /// Relies on `Vec::capacity`: the vector can hold at least its current
    /// elements without reallocating, so the capacity is at least the length.
    #[verifier::external_body]
    pub fn capacity(&self) -> (r: usize)
        ensures
            r >= self@.len(),
    {
        self.data.capacity()
    }

    /// Exchanges the entire contents (and storage) of two stacks.
    pub fn swap(&mut self, other: &mut Self)
        ensures
            final(self)@ == old(other)@,
            final(other)@ == old(self)@,
    {
        core::mem::swap(&mut self.data, &mut other.data);
    }

    /// Borrowing traversal: references to the elements in top-to-bottom
    /// order. The stack is left unchanged and remains usable.
    pub fn iter(&self) -> (r: Vec<&T>)
        ensures
            r@.len() == self@.len(),
            forall|i: int| 0 <= i < r@.len() ==> *r@[i] == self@[self@.len() - 1 - i],
    {
        let mut out: Vec<&T> = Vec::new();
        let mut j: usize = self.data.len();
        while j > 0
            invariant
                j <= self@.len(),
                out@.len() == self@.len() - j,
                forall|i: int| 0 <= i < out@.len() ==> *out@[i] == self@[self@.len() - 1 - i],
            decreases j,
        {
            j = j - 1;
            out.push(&self.data[j]);
        }
        out
    }

    /// Owning traversal: consumes the stack and returns its elements in
    /// top-to-bottom order, that is the reverse of insertion order.
    pub fn into_iter(self) -> (r: Vec<T>)
        ensures
            r@ == self@.reverse(),
    {
        let ghost orig = self@;
        let mut data = self.data;
        let mut out: Vec<T> = Vec::new();
        while data.len() > 0
            invariant
                data@ == orig.subrange(0, data@.len() as int),
                out@.len() + data@.len() == orig.len(),
                forall|i: int| 0 <= i < out@.len() ==> out@[i] == orig[orig.len() - 1 - i],
            decreases data@.len(),
        {
            let x = data.pop().unwrap();
            out.push(x);
            proof {
                assert(data@ =~= orig.subrange(0, data@.len() as int));
            }
        }
        proof {
            assert(out@ =~= orig.reverse());
        }
        out
    }
}

impl<T> Default for Stack<T> {
    /// A stack with no explicit initial values: the same as `new()`.
    fn default() -> (s: Self)
        ensures
            s@ == Seq::<T>::empty(),
    {
        Stack::new()
    }
}

impl<T> From<Vec<T>> for Stack<T> {
    /// Adopts an ordered sequence directly: the last element of `v` becomes
    /// the top, with no reordering.
    fn from(v: Vec<T>) -> (s: Self)
        ensures
            s@ == v@,
    {
        Stack { data: v }
    }
}

impl<T> vstd::std_specs::convert::FromSpecImpl<Vec<T>> for Stack<T> {
    open spec fn obeys_from_spec() -> bool {
        true
    }

    closed spec fn from_spec(v: Vec<T>) -> Stack<T> {
        Stack { data: v }
    }
}

/// The values returned, in order, by `k` successive pops from a stack whose
/// contents are the sequence `s` (insertion order, last element on top).
pub open spec fn pop_sequence<T>(s: Seq<T>, k: nat) -> Seq<T>
    decreases k,
{
    if k == 0 || s.len() == 0 {
        Seq::empty()
    } else {
        seq![s.last()] + pop_sequence(s.drop_last(), (k - 1) as nat)
    }
}

/// The LIFO law: pushing the values `vs` in order onto a stack whose contents
/// are `s` and then popping as many times returns the values of `vs` in
/// reverse order of pushing, and leaves the stack's contents at `s` again.
///
/// Pushing `vs` in order makes the contents `s + vs` (`push`'s contract);
/// each pop returns the current last element and drops it (`pop`'s contract),
/// exactly as `pop_sequence` records.
pub proof fn lemma_lifo<T>(s: Seq<T>, vs: Seq<T>)
    ensures
        pop_sequence(s + vs, vs.len()) == vs.reverse(),
        (s + vs).subrange(0, s.len() as int) == s,
    decreases vs.len(),
{
    assert((s + vs).subrange(0, s.len() as int) =~= s);
    if vs.len() == 0 {
        assert(vs.reverse() =~= Seq::<T>::empty());
    } else {
        assert((s + vs).drop_last() =~= s + vs.drop_last());
        lemma_lifo(s, vs.drop_last());
        assert(seq![vs.last()] + vs.drop_last().reverse() =~= vs.reverse());
    }
}

/// The round trip: a stack that adopted the ordered sequence `v` (so its
/// contents equal `v`, as `From`'s contract states) hands back, through
/// owning iteration (`into_iter`'s contract), exactly `v` reversed; for a
/// three-element sequence that is the last, middle and first element, in that
/// order.
pub proof fn lemma_round_trip<T>(v: Seq<T>, s: Stack<T>, drained: Seq<T>)
    requires
        s@ == v,
        drained == s@.reverse(),
    ensures
        drained == v.reverse(),
        v.len() == 3 ==> drained == seq![v[2], v[1], v[0]],
{
    if v.len() == 3 {
        assert(drained =~= seq![v[2], v[1], v[0]]);
    }
}

} // verus!
