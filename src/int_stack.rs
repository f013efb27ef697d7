use vstd::prelude::*;
use crate::deque::{after_pop_front, first_of};

verus! {

/// A last-in, first-out stack of integers, kept as a chain of boxed nodes.
pub struct List {
    head: Link,
}

enum Link {
    Empty,
    Next(Box<Node>),
}

struct Node {
    elem: i32,
    next: Link,
}

/// The integers reachable from `link`, from the top down.
spec fn link_view(link: Link) -> Seq<i32>
    decreases link,
{
    match link {
        Link::Empty => Seq::empty(),
        Link::Next(node) => seq![node.elem] + link_view(node.next),
    }
}

impl View for List {
    type V = Seq<i32>;

    /// The integers from the top of the stack down.
    closed spec fn view(&self) -> Seq<i32> {
        link_view(self.head)
    }
}

impl List {
    /// An empty stack.
    pub fn new() -> (r: Self)
        ensures
            r@ == Seq::<i32>::empty(),
    {
        List { head: Link::Empty }
    }

    /// Puts `elem` on top.
    pub fn push(&mut self, elem: i32)
        ensures
            final(self)@ == seq![elem] + old(self)@,
    {
        let mut next = Link::Empty;
        std::mem::swap(&mut next, &mut self.head);
        self.head = Link::Next(Box::new(Node { elem, next }));
    }

    /// Takes the top integer off, or `None` on an empty stack.
    pub fn pop(&mut self) -> (r: Option<i32>)
        ensures
            r == first_of(old(self)@),
            final(self)@ == after_pop_front(old(self)@),
    {
        let mut top = Link::Empty;
        std::mem::swap(&mut top, &mut self.head);
        match top {
            Link::Empty => None,
            Link::Next(node) => {
                let node = *node;
                self.head = node.next;
                Some(node.elem)
            },
        }
    }
}

impl Default for List {
    fn default() -> (r: Self)
        ensures
            r@ == Seq::<i32>::empty(),
    {
        List::new()
    }
}

} // verus!
