use vstd::prelude::*;
use crate::deque::{after_pop_front, first_of};

verus! {

/// A first-in, first-out queue: elements go in at the back and come out at
/// the front.
pub struct List<T> {
    elems: Vec<T>,
}

impl<T> View for List<T> {
    type V = Seq<T>;

    /// The elements from the front (oldest) to the back (newest).
    closed spec fn view(&self) -> Seq<T> {
        self.elems@
    }
}

impl<T> List<T> {
    /// An empty queue.
    pub fn new() -> (r: Self)
        ensures
            r@ == Seq::<T>::empty(),
    {
        List { elems: Vec::new() }
    }

    /// Puts `elem` at the back.
    pub fn push(&mut self, elem: T)
        ensures
            final(self)@ == old(self)@.push(elem),
    {
        self.elems.push(elem);
    }

    /// Takes the front element off, or `None` when empty.
    pub fn pop(&mut self) -> (r: Option<T>)
        ensures
            r == first_of(old(self)@),
            final(self)@ == after_pop_front(old(self)@),
    {
        if self.elems.len() == 0 {
            None
        } else {
            let e = self.elems.remove(0);
            assert(self.elems@ =~= old(self)@.drop_first());
            Some(e)
        }
    }

    /// The front element, if any.
    pub fn peek(&self) -> (r: Option<&T>)
        ensures
            self@.len() == 0 ==> r is None,
            self@.len() > 0 ==> r is Some && *r->0 == self@[0],
    {
        if self.elems.len() == 0 {
            None
        } else {
            Some(&self.elems[0])
        }
    }

    /// The front element, to be changed in place, if any.
    pub fn peek_mut(&mut self) -> (r: Option<&mut T>)
        ensures
            old(self)@.len() == 0 ==> r is None && final(self)@ == old(self)@,
            old(self)@.len() > 0 ==> r is Some && *r->0 == old(self)@[0] && final(self)@
                == old(self)@.update(0, *final(r->0)),
    {
        if self.elems.len() == 0 {
            None
        } else {
            Some(&mut self.elems[0])
        }
    }

    /// Takes the queue over and hands its elements out by value, front first.
    pub fn into_iter(self) -> (r: IntoIter<T>)
        ensures
            r@ == self@,
    {
        IntoIter(self)
    }

    /// Walks the elements from the front, handing out shared references.
    pub fn iter(&self) -> (r: Iter<'_, T>)
        ensures
            r@ == self@,
    {
        Iter { rest: self.elems.as_slice() }
    }

    /// Walks the elements from the front, handing out references to change
    /// them through.
    pub fn iter_mut(&mut self) -> (r: IterMut<'_, T>)
        ensures
            r@ == old(self)@,
    {
        IterMut { rest: Some(self.elems.as_mut_slice()) }
    }
}

/// Takes the elements out of an owned queue, front first.
pub struct IntoIter<T>(List<T>);

impl<T> View for IntoIter<T> {
    type V = Seq<T>;

    /// The elements not taken out yet, from front to back.
    closed spec fn view(&self) -> Seq<T> {
        self.0@
    }
}

impl<T> IntoIter<T> {
    /// Takes out the frontmost element left.
    pub fn next(&mut self) -> (r: Option<T>)
        ensures
            r == first_of(old(self)@),
            final(self)@ == after_pop_front(old(self)@),
    {
        self.0.pop()
    }
}

/// Walks a borrowed queue from the front, handing out shared references.
pub struct Iter<'a, T> {
    rest: &'a [T],
}

impl<'a, T> View for Iter<'a, T> {
    type V = Seq<T>;

    /// The elements not handed out yet, from front to back.
    closed spec fn view(&self) -> Seq<T> {
        self.rest@
    }
}

impl<'a, T> Iter<'a, T> {
    /// Hands out the frontmost element not handed out yet.
    pub fn next(&mut self) -> (r: Option<&'a T>)
        ensures
            old(self)@.len() == 0 ==> r is None,
            old(self)@.len() > 0 ==> r is Some && *r->0 == old(self)@[0],
            final(self)@ == after_pop_front(old(self)@),
    {
        let rest: &'a [T] = self.rest;
        if rest.len() == 0 {
            None
        } else {
            let (head, tail) = rest.split_at(1);
            self.rest = tail;
            assert(tail@ =~= old(self)@.drop_first());
            Some(&head[0])
        }
    }
}

/// Walks a borrowed queue from the front, handing out references to change
/// the elements through; each element is handed out at most once.
pub struct IterMut<'a, T> {
    rest: Option<&'a mut [T]>,
}

impl<'a, T> View for IterMut<'a, T> {
    type V = Seq<T>;

    /// The elements not handed out yet, from front to back.
    closed spec fn view(&self) -> Seq<T> {
        match self.rest {
            Some(s) => s@,
            None => Seq::empty(),
        }
    }
}

impl<'a, T> IterMut<'a, T> {
    /// Hands out the frontmost element not handed out yet.
    pub fn next(&mut self) -> (r: Option<&'a mut T>)
        ensures
            old(self)@.len() == 0 ==> r is None,
            old(self)@.len() > 0 ==> r is Some && *r->0 == old(self)@[0],
            final(self)@ == after_pop_front(old(self)@),
    {
        match self.rest.take() {
            None => None,
            Some(rest) => {
                if rest.len() == 0 {
                    self.rest = Some(rest);
                    None
                } else {
                    let (head, tail) = rest.split_at_mut(1);
                    assert(tail@ =~= old(self)@.drop_first());
                    self.rest = Some(tail);
                    head.first_mut()
                }
            },
        }
    }
}

impl<T> Default for List<T> {
    fn default() -> (r: Self)
        ensures
            r@ == Seq::<T>::empty(),
    {
        List::new()
    }
}

} // verus!
