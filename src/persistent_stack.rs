use vstd::prelude::*;
use std::sync::Arc;
use crate::deque::{after_pop_front, first_of};

verus! {

/// An immutable stack whose nodes are shared, by reference count, between all
/// the stacks built on them: `prepend` and `tail` make new stacks and leave
/// this one as it is.
pub struct List<T> {
    head: Option<Arc<Node<T>>>,
}

struct Node<T> {
    elem: T,
    next: Option<Arc<Node<T>>>,
}

/// The elements reachable from `link`, from the top down.
spec fn link_view<T>(link: Option<Arc<Node<T>>>) -> Seq<T>
    decreases link,
{
    match link {
        None => Seq::empty(),
        Some(node) => seq![node.elem] + link_view(node.next),
    }
}

impl<T> View for List<T> {
    type V = Seq<T>;

    /// The elements from the top of the stack down.
    closed spec fn view(&self) -> Seq<T> {
        link_view(self.head)
    }
}

impl<T> List<T> {
    /// An empty stack.
    pub fn new() -> (r: Self)
        ensures
            r@ == Seq::<T>::empty(),
    {
        List { head: None }
    }

    /// A stack with `elem` on top of the elements of this one, which it shares.
    pub fn prepend(&self, elem: T) -> (r: List<T>)
        ensures
            r@ == seq![elem] + self@,
    {
        let next = match &self.head {
            None => None,
            Some(node) => Some(Arc::clone(node)),
        };
        List { head: Some(Arc::new(Node { elem, next })) }
    }

    /// The stack below the top element, sharing its nodes; empty for an
    /// empty stack.
    pub fn tail(&self) -> (r: List<T>)
        ensures
            r@ == after_pop_front(self@),
    {
        match &self.head {
            None => List { head: None },
            Some(node) => {
                let next = match &node.next {
                    None => None,
                    Some(below) => Some(Arc::clone(below)),
                };
                List { head: next }
            },
        }
    }

    /// The top element, if any.
    pub fn head(&self) -> (r: Option<&T>)
        ensures
            self@.len() == 0 ==> r is None,
            self@.len() > 0 ==> r is Some && *r->0 == self@[0],
    {
        match &self.head {
            None => None,
            Some(node) => Some(&node.elem),
        }
    }

    /// Walks the elements from the top down.
    pub fn iter(&self) -> (r: Iter<'_, T>)
        ensures
            r@ == self@,
    {
        match &self.head {
            None => Iter { next: None },
            Some(node) => Iter { next: Some(&**node) },
        }
    }
}

/// Walks a borrowed stack from the top down, handing out shared references.
pub struct Iter<'a, T> {
    next: Option<&'a Node<T>>,
}

impl<'a, T> View for Iter<'a, T> {
    type V = Seq<T>;

    /// The elements not handed out yet, from the top down.
    closed spec fn view(&self) -> Seq<T> {
        match self.next {
            None => Seq::empty(),
            Some(node) => seq![node.elem] + link_view(node.next),
        }
    }
}

impl<'a, T> Iter<'a, T> {
    /// Hands out the topmost element not handed out yet.
    pub fn next(&mut self) -> (r: Option<&'a T>)
        ensures
            old(self)@.len() == 0 ==> r is None,
            old(self)@.len() > 0 ==> r is Some && *r->0 == old(self)@[0],
            final(self)@ == after_pop_front(old(self)@),
    {
        match self.next {
            None => None,
            Some(node) => {
                self.next = match &node.next {
                    None => None,
                    Some(below) => Some(&**below),
                };
                assert(self@ =~= old(self)@.drop_first());
                Some(&node.elem)
            },
        }
    }
}

} // verus!
