//! A minimal generic last-in-first-out container.
//!
//! [`Stack`] owns an ordered, growable sequence of elements; the end of the
//! sequence is the top of the stack. Its operations are specified against the
//! abstract view `self@: Seq<T>`, and the LIFO and length laws are stated and
//! proved as public proof functions at the bottom of this file.

use vstd::prelude::*;

verus! {

/// A generic last-in-first-out container backed by a contiguous growable
/// vector. The last element of the backing vector is the top of the stack.
///
/// The type deliberately implements neither `Clone` nor `Copy`: a stack
/// exclusively owns its elements, and transferring it moves that ownership,
/// leaving the previous owner without access.
pub struct Stack<T> {
    items: Vec<T>,
}

impl<T> View for Stack<T> {
    type V = Seq<T>;

    /// The contents of the stack, bottom first; the top is `self@.last()`.
    closed spec fn view(&self) -> Seq<T> {
        self.items@
    }
}

impl<T> Stack<T> {
    /// Constructor returning a new empty stack.
    pub fn new() -> (s: Self)
        ensures
            s@ == Seq::<T>::empty(),
    {
        Stack { items: Vec::<T>::new() }
    }

    /// Pushes an item onto the stack, making it the new top. Always succeeds;
    /// the stack grows as needed.
    pub fn push(&mut self, item: T)
        ensures
            final(self)@ == old(self)@.push(item),
    {
        self.items.push(item)
    }

    /// Removes and returns the top-most item, transferring its ownership to
    /// the caller. On an empty stack it returns `None` and changes nothing.
    pub fn pop(&mut self) -> (r: Option<T>)
        ensures
            old(self)@.len() == 0 ==> r is None && final(self)@ == old(self)@,
            old(self)@.len() > 0 ==> r == Some(old(self)@.last()) && final(self)@ == old(self)@.drop_last(),
    {
        self.items.pop()
    }

    /// Returns a reference to the top-most item without removing it, or
    /// `None` if the stack is empty. The receiver is a shared reference, so a
    /// peek can change neither the contents nor the length, nor the result of
    /// a subsequent `pop`.
    pub fn peek(&self) -> (r: Option<&T>)
        ensures
            self@.len() == 0 ==> r is None,
            self@.len() > 0 ==> (r matches Some(x) && *x == self@.last()),
    {
        let n: usize = self.items.len();
        if n == 0 {
            None
        } else {
            Some(&self.items[n - 1])
        }
    }

    /// Returns true if and only if the stack holds no items. No side effects.
    pub fn is_empty(&self) -> (r: bool)
        ensures
            r <==> self@.len() == 0,
    {
        self.items.is_empty()
    }

    /// Returns the number of items currently on the stack. No side effects.
    pub fn len(&self) -> (n: usize)
        ensures
            n == self@.len(),
    {
        self.items.len()
    }
}

/// The contents of a stack after `m` successive pops, exactly as `pop`
/// specifies a single one: each pop removes the last element of a non-empty
/// stack and leaves an empty stack unchanged.
pub open spec fn after_pops<T>(s: Seq<T>, m: nat) -> Seq<T>
    decreases m,
{
    if m == 0 {
        s
    } else if s.len() == 0 {
        s
    } else {
        after_pops(s.drop_last(), (m - 1) as nat)
    }
}

/// Length law: a stack holding `s` holds exactly `s.len() - m` items after
/// `m <= s.len()` pops. In particular, after `n` pushes onto a fresh stack
/// (whose contents are then the `n` pushed values, by `new` and `push`)
/// followed by `m <= n` pops with no pushes interleaved, `len` is `n - m`.
pub proof fn lemma_len_after_pops<T>(s: Seq<T>, m: nat)
    requires
        m <= s.len(),
    ensures
        after_pops(s, m).len() == s.len() - m,
    decreases m,
{
    if m > 0 {
        lemma_len_after_pops(s.drop_last(), (m - 1) as nat);
    }
}

/// LIFO law: take a stack whose contents are the pushed values `s`, earliest
/// at the bottom. The pop at position `i` (counting from zero) acts on a stack
/// holding `after_pops(s, i)`, which is non-empty, and by `pop`'s contract
/// returns its last element — which is `s[s.len() - 1 - i]`. Over all
/// `i < s.len()`, the pops therefore return the pushed values in exactly the
/// reverse order of the pushes.
pub proof fn lemma_lifo_order<T>(s: Seq<T>, i: nat)
    requires
        i < s.len(),
    ensures
        after_pops(s, i).len() == s.len() - i,
        after_pops(s, i).last() == s[s.len() - 1 - i],
    decreases i,
{
    if i > 0 {
        lemma_lifo_order(s.drop_last(), (i - 1) as nat);
    }
}

} // verus!
