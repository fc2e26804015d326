//! A mutable, ordered container with an attached cursor for single-pass,
//! restartable iteration.
//!
//! [`VecOnce<T>`] wraps a `Vec<T>` and produces each element once, as a
//! clone, while leaving the backing vector fully readable and writable
//! between steps. The cursor is plain state layered on top of the vector:
//! edits to the vector never adjust it, and each step reads the vector as
//! it is at that moment, not as it was when the wrapper was built.

use vstd::prelude::*;

verus! {

/// What one iteration step produces when the elements are `s` and the
/// cursor stands at `c`: the element at `c`, or nothing once `c` has
/// reached or passed the end.
pub open spec fn step_output<T>(s: Seq<T>, c: nat) -> Option<T> {
    if c < s.len() {
        Some(s[c as int])
    } else {
        None
    }
}

/// The outputs of `n` consecutive steps over a fixed element sequence
/// `s`, starting with the cursor at `c`. Each step moves the cursor up by
/// one, whether or not it produced an element.
pub open spec fn outputs_from<T>(s: Seq<T>, c: nat, n: nat) -> Seq<Option<T>>
    decreases n,
{
    if n == 0 {
        Seq::empty()
    } else {
        seq![step_output(s, c)] + outputs_from(s, c + 1, (n - 1) as nat)
    }
}

/// An ordered, mutable container of cloneable elements with a cursor used
/// for single-pass, restartable iteration.
///
/// The cursor is the index of the next element a step would produce. It
/// starts at 0 and moves only through [`next`](VecOnce::next),
/// [`set_index`](VecOnce::set_index) and [`restart`](VecOnce::restart);
/// edits to the elements never adjust it. Repeated steps past the end
/// keep counting up, so the cursor can exceed the current length.
pub struct VecOnce<T: Clone> {
    index: usize,
    inner: Vec<T>,
}

impl<T: Clone> VecOnce<T> {
    /// The elements, in order.
    pub closed spec fn elements(&self) -> Seq<T> {
        self.inner@
    }

    /// The cursor: the index of the next element a step would produce,
    /// which equals the number of steps taken since the last reset.
    pub closed spec fn cursor(&self) -> nat {
        self.index as nat
    }

    /// Wraps a vector: takes ownership of it and sets the cursor to 0.
    /// Accepts an empty vector.
    pub fn new(vector: Vec<T>) -> (result: Self)
        ensures
            result.elements() == vector@,
            result.cursor() == 0,
    {
        Self::from(vector)
    }

    /// One iteration step: produces a clone of the element under the
    /// cursor, or `None` once the cursor has reached or passed the end,
    /// and moves the cursor up by one either way, so the cursor keeps
    /// counting past exhaustion.
    ///
    /// Each step reads the elements as they are now: growth between steps
    /// extends the pass, shrinkage can exhaust it early or shift which
    /// element a given cursor value reaches.
    pub fn next(&mut self) -> (produced: Option<T>)
        requires
            old(self).cursor() < usize::MAX,
        ensures
            final(self).elements() == old(self).elements(),
            final(self).cursor() == old(self).cursor() + 1,
            produced is Some <==> step_output(old(self).elements(), old(self).cursor()) is Some,
            produced is Some ==> cloned::<T>(
                step_output(old(self).elements(), old(self).cursor())->0,
                produced->0,
            ),
    {
        let value: Option<T> = if self.index < self.inner.len() {
            Some(self.inner[self.index].clone())
        } else {
            None
        };
        self.index = self.index + 1;
        value
    }

    /// The cursor's current value, reported raw: after overshooting the
    /// end it exceeds the length. The backing vector must be non-empty:
    /// a position in an empty container is meaningless, so this operation
    /// refuses it whatever the cursor holds, even 0.
    pub fn index(&self) -> (position: usize)
        requires
            self.elements().len() > 0,
        ensures
            position == self.cursor(),
    {
        self.index
    }

    /// Sets the cursor to `new_index`, which must lie strictly below the
    /// current length: the exhausted position equal to the length is
    /// refused here, though [`next`](VecOnce::next) reaches and passes it
    /// on its own. On an empty container every value is refused.
    pub fn set_index(&mut self, new_index: usize)
        requires
            new_index < old(self).elements().len(),
        ensures
            final(self).elements() == old(self).elements(),
            final(self).cursor() == new_index,
    {
        self.index = new_index;
    }

    /// Puts the cursor back to 0, so that iteration restarts from the
    /// first element. Never refuses, even on an empty container, and
    /// never reads the elements.
    pub fn restart(&mut self)
        ensures
            final(self).elements() == old(self).elements(),
            final(self).cursor() == 0,
    {
        self.index = 0;
    }

    /// The number of elements.
    pub fn len(&self) -> (n: usize)
        ensures
            n == self.elements().len(),
    {
        self.inner.len()
    }

    /// A reference to the element at `i`.
    pub fn get(&self, i: usize) -> (element: &T)
        requires
            i < self.elements().len(),
        ensures
            *element == self.elements()[i as int],
    {
        &self.inner[i]
    }

    /// Replaces the element at `i`. The cursor stays where it is.
    pub fn set_element(&mut self, i: usize, value: T)
        requires
            i < old(self).elements().len(),
        ensures
            final(self).elements() == old(self).elements().update(i as int, value),
            final(self).cursor() == old(self).cursor(),
    {
        self.inner[i] = value;
    }

    /// Appends an element. The cursor stays where it is, so a pass that
    /// is not yet exhausted will also visit the new element.
    pub fn push(&mut self, value: T)
        ensures
            final(self).elements() == old(self).elements().push(value),
            final(self).cursor() == old(self).cursor(),
    {
        self.inner.push(value);
    }

    /// Inserts an element at `i`, shifting what follows it up. The cursor
    /// stays where it is.
    pub fn insert(&mut self, i: usize, value: T)
        requires
            i <= old(self).elements().len(),
        ensures
            final(self).elements() == old(self).elements().insert(i as int, value),
            final(self).cursor() == old(self).cursor(),
    {
        self.inner.insert(i, value);
    }

    /// Removes and returns the element at `i`, shifting what follows it
    /// down. The cursor stays where it is, so it now refers to the
    /// shifted contents.
    pub fn remove(&mut self, i: usize) -> (element: T)
        requires
            i < old(self).elements().len(),
        ensures
            element == old(self).elements()[i as int],
            final(self).elements() == old(self).elements().remove(i as int),
            final(self).cursor() == old(self).cursor(),
    {
        self.inner.remove(i)
    }

    /// Removes every element. The cursor stays where it is.
    pub fn clear(&mut self)
        ensures
            final(self).elements() == Seq::<T>::empty(),
            final(self).cursor() == old(self).cursor(),
    {
        self.inner.clear();
    }

    /// A read-only borrow of the backing vector.
    pub fn as_vec(&self) -> (vector: &Vec<T>)
        ensures
            vector@ == self.elements(),
    {
        &self.inner
    }

    /// A mutable borrow of the backing vector: the full capability set of
    /// `Vec` is available through it. The cursor stays where it is,
    /// whatever is done through the borrow.
    pub fn as_mut_vec(&mut self) -> (vector: &mut Vec<T>)
        ensures
            (*vector)@ == old(self).elements(),
            final(self).elements() == (*final(vector))@,
            final(self).cursor() == old(self).cursor(),
    {
        &mut self.inner
    }

    /// Unwraps: hands the backing vector back and discards the cursor.
    pub fn into_vec(self) -> (vector: Vec<T>)
        ensures
            vector@ == self.elements(),
    {
        self.inner
    }
}

impl<T: Clone> Clone for VecOnce<T> {
    /// Duplicates the whole structure: the cursor, and each element via
    /// `T::clone`.
    fn clone(&self) -> (result: Self)
        ensures
            result.cursor() == self.cursor(),
            result.elements().len() == self.elements().len(),
            forall|i: int|
                0 <= i < self.elements().len() ==> cloned::<T>(
                    self.elements()[i],
                    #[trigger] result.elements()[i],
                ),
    {
        VecOnce { index: self.index, inner: self.inner.clone() }
    }
}

impl<T: Clone> vstd::std_specs::convert::FromSpecImpl<Vec<T>> for VecOnce<T> {
    open spec fn obeys_from_spec() -> bool {
        true
    }

    closed spec fn from_spec(vector: Vec<T>) -> VecOnce<T> {
        VecOnce { index: 0, inner: vector }
    }
}

impl<T: Clone> From<Vec<T>> for VecOnce<T> {
    /// Wraps a vector, exactly as [`VecOnce::new`] does.
    fn from(vector: Vec<T>) -> (result: Self)
        ensures
            result.elements() == vector@,
            result.cursor() == 0,
    {
        VecOnce { index: 0, inner: vector }
    }
}

/// Each of `n` consecutive steps produces the output of its own cursor
/// value: step `i` of a run that starts at `c` produces
/// `step_output(s, c + i)`.
proof fn lemma_outputs_from_pointwise<T>(s: Seq<T>, c: nat, n: nat)
    ensures
        outputs_from(s, c, n).len() == n,
        forall|i: int|
            0 <= i < n ==> #[trigger] outputs_from(s, c, n)[i] == step_output(s, (c + i) as nat),
    decreases n,
{
    if n > 0 {
        lemma_outputs_from_pointwise(s, c + 1, (n - 1) as nat);
        assert forall|i: int|
            0 <= i < n implies #[trigger] outputs_from(s, c, n)[i] == step_output(
            s,
            (c + i) as nat,
        ) by {
            if i > 0 {
                assert(outputs_from(s, c, n)[i] == outputs_from(s, c + 1, (n - 1) as nat)[i - 1]);
            }
        }
    }
}

/// A full pass with no edits is exact: with the cursor at 0 over elements
/// `s`, the first `s.len()` steps produce exactly the elements of `s`, in
/// order and each present, and the step after those produces nothing.
pub proof fn lemma_single_pass<T>(s: Seq<T>)
    ensures
        outputs_from(s, 0, s.len()).len() == s.len(),
        forall|i: int| 0 <= i < s.len() ==> #[trigger] outputs_from(s, 0, s.len())[i] == Some(s[i]),
        step_output(s, s.len()) is None,
{
    lemma_outputs_from_pointwise(s, 0, s.len());
}

/// Past exhaustion every step produces nothing, however many steps are
/// taken and however far the cursor has overshot the length; the cursor
/// itself still moves up by one per step (see `next`), and repositioning
/// stays governed by the current length alone (see `set_index`).
pub proof fn lemma_post_exhaustion<T>(s: Seq<T>, c: nat, n: nat)
    requires
        c >= s.len(),
    ensures
        outputs_from(s, c, n).len() == n,
        forall|i: int| 0 <= i < n ==> #[trigger] outputs_from(s, c, n)[i] is None,
{
    lemma_outputs_from_pointwise(s, c, n);
}

/// Restarting wipes out any prior cursor state: once the cursor is back
/// at 0 (what `restart` ensures, whatever value `prior` it held before,
/// including one far past the end), a full pass is exact again, as from a
/// fresh wrap.
pub proof fn lemma_restart_reproduces<T>(s: Seq<T>, prior: nat)
    ensures
        outputs_from(s, 0, s.len()).len() == s.len(),
        forall|i: int| 0 <= i < s.len() ==> #[trigger] outputs_from(s, 0, s.len())[i] == Some(s[i]),
        step_output(s, s.len()) is None,
{
    lemma_single_pass(s);
}

/// Appending one element mid-pass extends the pass: with the cursor at
/// `p` within elements `s`, after the elements grow to `s.push(x)` the
/// remaining steps produce the rest of `s` in order and then `x`, with no
/// position skipped or repeated.
pub proof fn lemma_append_extends<T>(s: Seq<T>, x: T, p: nat)
    requires
        p <= s.len(),
    ensures
        outputs_from(s.push(x), p, (s.len() - p + 1) as nat).len() == s.len() - p + 1,
        forall|i: int|
            0 <= i < s.len() - p ==> #[trigger] outputs_from(
                s.push(x),
                p,
                (s.len() - p + 1) as nat,
            )[i] == Some(s[p + i]),
        outputs_from(s.push(x), p, (s.len() - p + 1) as nat)[s.len() - p] == Some(x),
{
    lemma_outputs_from_pointwise(s.push(x), p, (s.len() - p + 1) as nat);
}

} // verus!
