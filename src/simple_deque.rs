use vstd::prelude::*;
use crate::deque::{after_pop_back, after_pop_front, first_of, last_of};

verus! {

/// A double-ended queue with the basic operations at both ends: push, pop
/// and peek.
pub struct List<T> {
    elems: Vec<T>,
}

impl<T> View for List<T> {
    type V = Seq<T>;

    /// The elements from the front to the back.
    closed spec fn view(&self) -> Seq<T> {
        self.elems@
    }
}

impl<T> List<T> {
    /// An empty queue.
    pub fn new() -> (r: Self)
        ensures
            r@ == Seq::<T>::empty(),
    {
        List { elems: Vec::new() }
    }

    /// Puts `elem` in front of the first element.
    pub fn push_front(&mut self, elem: T)
        ensures
            final(self)@ == seq![elem] + old(self)@,
    {
        self.elems.insert(0, elem);
        assert(self.elems@ =~= seq![elem] + old(self)@);
    }

    /// Puts `elem` behind the last element.
    pub fn push_back(&mut self, elem: T)
        ensures
            final(self)@ == old(self)@.push(elem),
    {
        self.elems.push(elem);
    }

    /// Takes the first element off, or `None` when empty.
    pub fn pop_front(&mut self) -> (r: Option<T>)
        ensures
            r == first_of(old(self)@),
            final(self)@ == after_pop_front(old(self)@),
    {
        if self.elems.len() == 0 {
            None
        } else {
            let e = self.elems.remove(0);
            assert(self.elems@ =~= old(self)@.drop_first());
            Some(e)
        }
    }

    /// Takes the last element off, or `None` when empty.
    pub fn pop_back(&mut self) -> (r: Option<T>)
        ensures
            r == last_of(old(self)@),
            final(self)@ == after_pop_back(old(self)@),
    {
        self.elems.pop()
    }

    /// The first element, if any.
    pub fn peek_front(&self) -> (r: Option<&T>)
        ensures
            self@.len() == 0 ==> r is None,
            self@.len() > 0 ==> r is Some && *r->0 == self@[0],
    {
        if self.elems.len() == 0 {
            None
        } else {
            Some(&self.elems[0])
        }
    }

    /// The last element, if any.
    pub fn peek_back(&self) -> (r: Option<&T>)
        ensures
            self@.len() == 0 ==> r is None,
            self@.len() > 0 ==> r is Some && *r->0 == self@.last(),
    {
        let n = self.elems.len();
        if n == 0 {
            None
        } else {
            Some(&self.elems[n - 1])
        }
    }

    /// The first element, to be changed in place, if any.
    pub fn peek_front_mut(&mut self) -> (r: Option<&mut T>)
        ensures
            old(self)@.len() == 0 ==> r is None && final(self)@ == old(self)@,
            old(self)@.len() > 0 ==> r is Some && *r->0 == old(self)@[0] && final(self)@
                == old(self)@.update(0, *final(r->0)),
    {
        if self.elems.len() == 0 {
            None
        } else {
            Some(&mut self.elems[0])
        }
    }

    /// The last element, to be changed in place, if any.
    pub fn peek_back_mut(&mut self) -> (r: Option<&mut T>)
        ensures
            old(self)@.len() == 0 ==> r is None && final(self)@ == old(self)@,
            old(self)@.len() > 0 ==> r is Some && *r->0 == old(self)@.last() && final(self)@
                == old(self)@.update(old(self)@.len() - 1, *final(r->0)),
    {
        let n = self.elems.len();
        if n == 0 {
            None
        } else {
            Some(&mut self.elems[n - 1])
        }
    }

    /// Takes the queue over and hands its elements out by value, from
    /// either end.
    pub fn into_iter(self) -> (r: IntoIter<T>)
        ensures
            r@ == self@,
    {
        IntoIter(self)
    }
}

/// Takes the elements out of an owned queue from both ends.
pub struct IntoIter<T>(List<T>);

impl<T> View for IntoIter<T> {
    type V = Seq<T>;

    /// The elements not taken out yet, from front to back.
    closed spec fn view(&self) -> Seq<T> {
        self.0@
    }
}

impl<T> IntoIter<T> {
    /// Takes out the frontmost element left.
    pub fn next(&mut self) -> (r: Option<T>)
        ensures
            r == first_of(old(self)@),
            final(self)@ == after_pop_front(old(self)@),
    {
        self.0.pop_front()
    }

    /// Takes out the backmost element left.
    pub fn next_back(&mut self) -> (r: Option<T>)
        ensures
            r == last_of(old(self)@),
            final(self)@ == after_pop_back(old(self)@),
    {
        self.0.pop_back()
    }
}

impl<T> Default for List<T> {
    fn default() -> (r: Self)
        ensures
            r@ == Seq::<T>::empty(),
    {
        List::new()
    }
}

} // verus!
