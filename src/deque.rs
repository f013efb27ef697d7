use vstd::prelude::*;

verus! {

/// What is left of `s` once every element is taken off.
pub open spec fn cleared<T>(s: Seq<T>) -> Seq<T> {
    Seq::empty()
}

/// What is left of `s` once its first element is taken off.
pub open spec fn after_pop_front<T>(s: Seq<T>) -> Seq<T> {
    if s.len() == 0 {
        s
    } else {
        s.drop_first()
    }
}

/// What is left of `s` once its last element is taken off.
pub open spec fn after_pop_back<T>(s: Seq<T>) -> Seq<T> {
    if s.len() == 0 {
        s
    } else {
        s.drop_last()
    }
}

/// The first element of `s`, if any.
pub open spec fn first_of<T>(s: Seq<T>) -> Option<T> {
    if s.len() == 0 {
        None
    } else {
        Some(s[0])
    }
}

/// The last element of `s`, if any.
pub open spec fn last_of<T>(s: Seq<T>) -> Option<T> {
    if s.len() == 0 {
        None
    } else {
        Some(s.last())
    }
}

/// A double-ended list of elements, read from front to back.
///
/// The list owns its elements; its view is the sequence of them from the
/// front end to the back end. Two lists compare, and hash, as the sequences
/// of their elements do.
///
/// The elements are held contiguously in front-to-back order: work at the
/// back end takes constant time, while work at the front end or in the middle
/// moves the elements behind the place it touches.
#[derive(PartialEq, Eq, PartialOrd, Ord, Hash)]
pub struct LinkedList<T> {
    elems: Vec<T>,
}

impl<T> View for LinkedList<T> {
    type V = Seq<T>;

    closed spec fn view(&self) -> Seq<T> {
        self.elems@
    }
}

impl<T> LinkedList<T> {
    /// An empty list.
    pub fn new() -> (r: Self)
        ensures
            r@ == Seq::<T>::empty(),
    {
        LinkedList { elems: Vec::new() }
    }

    /// A list holding the elements of `v` in the same order.
    pub fn from_vec(v: Vec<T>) -> (r: Self)
        ensures
            r@ == v@,
    {
        LinkedList { elems: v }
    }

    /// Puts `elem` in front of the first element.
    pub fn push_front(&mut self, elem: T)
        ensures
            final(self)@ == seq![elem] + old(self)@,
    {
        self.elems.insert(0, elem);
        assert(self.elems@ =~= seq![elem] + old(self)@);
    }

    /// Puts `elem` behind the last element.
    pub fn push_back(&mut self, elem: T)
        ensures
            final(self)@ == old(self)@.push(elem),
    {
        self.elems.push(elem);
    }

    /// Takes the first element off the list, or `None` on an empty list.
    pub fn pop_front(&mut self) -> (r: Option<T>)
        ensures
            r == first_of(old(self)@),
            final(self)@ == after_pop_front(old(self)@),
    {
        if self.elems.len() == 0 {
            None
        } else {
            let e = self.elems.remove(0);
            assert(self.elems@ =~= old(self)@.drop_first());
            Some(e)
        }
    }

    /// Takes the last element off the list, or `None` on an empty list.
    pub fn pop_back(&mut self) -> (r: Option<T>)
        ensures
            r == last_of(old(self)@),
            final(self)@ == after_pop_back(old(self)@),
    {
        self.elems.pop()
    }

    /// The number of elements.
    pub fn len(&self) -> (r: usize)
        ensures
            r == self@.len(),
    {
        self.elems.len()
    }

    /// Whether the list holds no element.
    pub fn is_empty(&self) -> (r: bool)
        ensures
            r == (self@.len() == 0),
    {
        self.elems.len() == 0
    }

    /// The first element, if any.
    pub fn front(&self) -> (r: Option<&T>)
        ensures
            self@.len() == 0 ==> r is None,
            self@.len() > 0 ==> r is Some && *r->0 == self@[0],
    {
        if self.elems.len() == 0 {
            None
        } else {
            Some(&self.elems[0])
        }
    }

    /// The last element, if any.
    pub fn back(&self) -> (r: Option<&T>)
        ensures
            self@.len() == 0 ==> r is None,
            self@.len() > 0 ==> r is Some && *r->0 == self@.last(),
    {
        let n = self.elems.len();
        if n == 0 {
            None
        } else {
            Some(&self.elems[n - 1])
        }
    }

    /// The first element, to be changed in place, if any.
    pub fn front_mut(&mut self) -> (r: Option<&mut T>)
        ensures
            old(self)@.len() == 0 ==> r is None && final(self)@ == old(self)@,
            old(self)@.len() > 0 ==> r is Some && *r->0 == old(self)@[0] && final(self)@
                == old(self)@.update(0, *final(r->0)),
    {
        if self.elems.len() == 0 {
            None
        } else {
            Some(&mut self.elems[0])
        }
    }

    /// The last element, to be changed in place, if any.
    pub fn back_mut(&mut self) -> (r: Option<&mut T>)
        ensures
            old(self)@.len() == 0 ==> r is None && final(self)@ == old(self)@,
            old(self)@.len() > 0 ==> r is Some && *r->0 == old(self)@.last() && final(self)@
                == old(self)@.update(old(self)@.len() - 1, *final(r->0)),
    {
        let n = self.elems.len();
        if n == 0 {
            None
        } else {
            Some(&mut self.elems[n - 1])
        }
    }

    /// Removes every element, one at a time from the back.
    pub fn clear(&mut self)
        ensures
            final(self)@ == cleared(old(self)@),
    {
        while self.pop_back().is_some()
            invariant
                true,
            decreases self@.len(),
        {
        }
        assert(self@ =~= Seq::<T>::empty());
    }

    /// Moves every element of `other` behind the last element of this list.
    pub fn append_back(&mut self, other: LinkedList<T>)
        ensures
            final(self)@ == old(self)@ + other@,
    {
        let mut rest = other;
        if self.elems.len() == 0 {
            std::mem::swap(self, &mut rest);
            assert(self@ =~= old(self)@ + other@);
            return ;
        }
        self.elems.append(&mut rest.elems);
    }

    /// Moves every element of `other` in front of the first element of this list.
    pub fn append_front(&mut self, other: LinkedList<T>)
        ensures
            final(self)@ == other@ + old(self)@,
    {
        let mut rest = other;
        if self.elems.len() == 0 {
            std::mem::swap(self, &mut rest);
            assert(self@ =~= other@ + old(self)@);
            return ;
        }
        rest.elems.append(&mut self.elems);
        std::mem::swap(self, &mut rest);
    }

    /// Puts the elements of `items` behind the last element, in order.
    pub fn extend(&mut self, items: Vec<T>)
        ensures
            final(self)@ == old(self)@ + items@,
    {
        let mut rest = items;
        self.elems.append(&mut rest);
    }

    /// Hands out every element, from front to back, emptying the list.
    pub fn into_vec(self) -> (r: Vec<T>)
        ensures
            r@ == self@,
    {
        self.elems
    }
}

impl<T> LinkedList<T> {
    /// A cursor over this list, standing at the ghost position.
    pub fn cursor_mut(&mut self) -> (r: CursorMut<'_, T>)
        ensures
            r.wf(),
            r.items() == old(self)@,
            r.index == None::<usize>,
            final(self)@ == final(r.list)@,
    {
        CursorMut { list: self, index: None }
    }
}

impl<T: Clone> Clone for LinkedList<T> {
    /// A list of clones of the elements, in the same order.
    fn clone(&self) -> (r: Self)
        ensures
            r@.len() == self@.len(),
            forall|i: int| 0 <= i < self@.len() ==> cloned::<T>(self@[i], #[trigger] r@[i]),
    {
        let mut out = LinkedList::new();
        let n = self.elems.len();
        let mut i: usize = 0;
        while i < n
            invariant
                n == self@.len(),
                i <= n,
                out@.len() == i,
                forall|j: int| 0 <= j < i ==> cloned::<T>(self@[j], #[trigger] out@[j]),
            decreases n - i,
        {
            out.push_back(self.elems[i].clone());
            i = i + 1;
        }
        out
    }
}

impl<T> Default for LinkedList<T> {
    fn default() -> (r: Self)
        ensures
            r@ == Seq::<T>::empty(),
    {
        LinkedList::new()
    }
}


/// The position that follows `index` on a ring of `len` elements and one
/// ghost position, which stands between the back and the front.
pub open spec fn next_index(index: Option<usize>, len: nat) -> Option<usize> {
    match index {
        Some(i) => if i + 1 < len {
            Some((i + 1) as usize)
        } else {
            None
        },
        None => if len > 0 {
            Some(0)
        } else {
            None
        },
    }
}

/// The position that precedes `index` on a ring of `len` elements and one
/// ghost position, which stands between the back and the front.
pub open spec fn prev_index(index: Option<usize>, len: nat) -> Option<usize> {
    match index {
        Some(i) => if i > 0 {
            Some((i - 1) as usize)
        } else {
            None
        },
        None => if len > 0 {
            Some((len - 1) as usize)
        } else {
            None
        },
    }
}

/// A position in a borrowed list, from which the list can be walked in both
/// directions and reshaped.
///
/// `index` is the position of the current element counted from the front,
/// or `None` at the ghost position between the back and the front.
pub struct CursorMut<'a, T> {
    pub list: &'a mut LinkedList<T>,
    pub index: Option<usize>,
}

impl<'a, T> CursorMut<'a, T> {
    /// The elements of the borrowed list, as they stand now.
    pub open spec fn items(&self) -> Seq<T> {
        (*self.list)@
    }

    /// The position is the ghost one or that of an element of the list.
    pub open spec fn wf(&self) -> bool {
        self.index matches Some(i) ==> i < self.items().len()
    }

    /// The position of the current element, or `None` at the ghost position.
    pub fn index(&self) -> (r: Option<usize>)
        ensures
            r == self.index,
    {
        self.index
    }

    /// Steps towards the back; from the back element to the ghost position,
    /// and from the ghost position to the front element.
    pub fn move_next(&mut self)
        requires
            old(self).wf(),
        ensures
            final(self).wf(),
            *final(final(self).list) == *final(old(self).list),
            final(self).items() == old(self).items(),
            final(self).index == next_index(old(self).index, old(self).items().len()),
    {
        let n = self.list.len();
        match self.index {
            Some(i) => {
                if i + 1 < n {
                    self.index = Some(i + 1);
                } else {
                    self.index = None;
                }
            },
            None => {
                if n > 0 {
                    self.index = Some(0);
                }
            },
        }
    }

    /// Steps towards the front; from the front element to the ghost position,
    /// and from the ghost position to the back element.
    pub fn move_prev(&mut self)
        requires
            old(self).wf(),
        ensures
            final(self).wf(),
            *final(final(self).list) == *final(old(self).list),
            final(self).items() == old(self).items(),
            final(self).index == prev_index(old(self).index, old(self).items().len()),
    {
        let n = self.list.len();
        match self.index {
            Some(i) => {
                if i > 0 {
                    self.index = Some(i - 1);
                } else {
                    self.index = None;
                }
            },
            None => {
                if n > 0 {
                    self.index = Some(n - 1);
                }
            },
        }
    }

    /// The element at the given position, to be changed in place.
    fn element_at(&mut self, at: Option<usize>) -> (r: Option<&mut T>)
        requires
            old(self).wf(),
            at matches Some(i) ==> i < old(self).items().len(),
        ensures
            final(self).wf(),
            *final(final(self).list) == *final(old(self).list),
            final(self).index == old(self).index,
            at is None ==> r is None && final(self).items() == old(self).items(),
            at matches Some(i) ==> r is Some && *r->0 == old(self).items()[i as int]
                && final(self).items() == old(self).items().update(i as int, *final(r->0)),
    {
        match at {
            Some(i) => Some(&mut self.list.elems[i]),
            None => None,
        }
    }

    /// The current element, to be changed in place; `None` at the ghost position.
    pub fn current(&mut self) -> (r: Option<&mut T>)
        requires
            old(self).wf(),
        ensures
            final(self).wf(),
            *final(final(self).list) == *final(old(self).list),
            final(self).index == old(self).index,
            old(self).index is None ==> r is None && final(self).items() == old(self).items(),
            old(self).index matches Some(i) ==> r is Some && *r->0 == old(self).items()[i as int]
                && final(self).items() == old(self).items().update(i as int, *final(r->0)),
    {
        let at = self.index;
        self.element_at(at)
    }

    /// The element that `move_next` would reach, to be changed in place.
    pub fn peek_next(&mut self) -> (r: Option<&mut T>)
        requires
            old(self).wf(),
        ensures
            final(self).wf(),
            *final(final(self).list) == *final(old(self).list),
            final(self).index == old(self).index,
            next_index(old(self).index, old(self).items().len()) is None ==> r is None
                && final(self).items() == old(self).items(),
            next_index(old(self).index, old(self).items().len()) matches Some(i) ==> r is Some
                && *r->0 == old(self).items()[i as int] && final(self).items() == old(
                self,
            ).items().update(i as int, *final(r->0)),
    {
        let n = self.list.len();
        let at = match self.index {
            Some(i) => if i + 1 < n {
                Some(i + 1)
            } else {
                None
            },
            None => if n > 0 {
                Some(0)
            } else {
                None
            },
        };
        self.element_at(at)
    }

    /// The element that `move_prev` would reach, to be changed in place.
    pub fn peek_prev(&mut self) -> (r: Option<&mut T>)
        requires
            old(self).wf(),
        ensures
            final(self).wf(),
            *final(final(self).list) == *final(old(self).list),
            final(self).index == old(self).index,
            prev_index(old(self).index, old(self).items().len()) is None ==> r is None
                && final(self).items() == old(self).items(),
            prev_index(old(self).index, old(self).items().len()) matches Some(i) ==> r is Some
                && *r->0 == old(self).items()[i as int] && final(self).items() == old(
                self,
            ).items().update(i as int, *final(r->0)),
    {
        let n = self.list.len();
        let at = match self.index {
            Some(i) => if i > 0 {
                Some(i - 1)
            } else {
                None
            },
            None => if n > 0 {
                Some(n - 1)
            } else {
                None
            },
        };
        self.element_at(at)
    }
}


impl<'a, T> CursorMut<'a, T> {
    /// Cuts the list in front of the current element and hands out the part
    /// in front of it; the cursor then stands on the front of what is left.
    /// At the ghost position the whole list is handed out and none is left.
    pub fn split_before(&mut self) -> (r: LinkedList<T>)
        requires
            old(self).wf(),
        ensures
            final(self).wf(),
            *final(final(self).list) == *final(old(self).list),
            old(self).index is None ==> r@ == old(self).items() && final(self).items()
                == Seq::<T>::empty() && final(self).index is None,
            old(self).index matches Some(i) ==> r@ == old(self).items().subrange(0, i as int)
                && final(self).items() == old(self).items().subrange(
                i as int,
                old(self).items().len() as int,
            ) && final(self).index == Some(0usize),
    {
        match self.index {
            Some(i) => {
                let mut tail = self.list.elems.split_off(i);
                std::mem::swap(&mut self.list.elems, &mut tail);
                self.index = Some(0);
                LinkedList { elems: tail }
            },
            None => {
                let mut all = LinkedList::new();
                std::mem::swap(self.list, &mut all);
                all
            },
        }
    }

    /// Cuts the list behind the current element and hands out the part
    /// behind it; the cursor keeps its element and position.
    /// At the ghost position the whole list is handed out and none is left.
    pub fn split_after(&mut self) -> (r: LinkedList<T>)
        requires
            old(self).wf(),
        ensures
            final(self).wf(),
            *final(final(self).list) == *final(old(self).list),
            old(self).index is None ==> r@ == old(self).items() && final(self).items()
                == Seq::<T>::empty() && final(self).index is None,
            old(self).index matches Some(i) ==> r@ == old(self).items().subrange(
                i + 1,
                old(self).items().len() as int,
            ) && final(self).items() == old(self).items().subrange(0, i + 1)
                && final(self).index == Some(i),
    {
        match self.index {
            Some(i) => {
                let n = self.list.elems.len();
                assert(i < n);
                let tail = self.list.elems.split_off(i + 1);
                LinkedList { elems: tail }
            },
            None => {
                let mut all = LinkedList::new();
                std::mem::swap(self.list, &mut all);
                all
            },
        }
    }

    /// Moves every element of `other` in front of the current element; the
    /// cursor keeps its element. At the ghost position they go behind the back.
    pub fn splice_before(&mut self, other: LinkedList<T>)
        requires
            old(self).wf(),
        ensures
            final(self).wf(),
            *final(final(self).list) == *final(old(self).list),
            old(self).index is None ==> final(self).items() == old(self).items() + other@
                && final(self).index is None,
            old(self).index matches Some(i) ==> final(self).items() == old(self).items().subrange(
                0,
                i as int,
            ) + other@ + old(self).items().subrange(i as int, old(self).items().len() as int)
                && final(self).index == Some((i + other@.len()) as usize),
    {
        match self.index {
            Some(i) => {
                let mut rest = other;
                let n_other = rest.elems.len();
                let mut tail = self.list.elems.split_off(i);
                self.list.elems.append(&mut rest.elems);
                self.list.elems.append(&mut tail);
                assert(self.list.elems@ =~= old(self).items().subrange(0, i as int) + other@
                    + old(self).items().subrange(i as int, old(self).items().len() as int));
                let total = self.list.elems.len();
                assert(i + n_other < total);
                self.index = Some(i + n_other);
            },
            None => {
                self.list.append_back(other);
            },
        }
    }

    /// Moves every element of `other` behind the current element; the cursor
    /// keeps its element. At the ghost position they go in front of the front.
    pub fn splice_after(&mut self, other: LinkedList<T>)
        requires
            old(self).wf(),
        ensures
            final(self).wf(),
            *final(final(self).list) == *final(old(self).list),
            old(self).index is None ==> final(self).items() == other@ + old(self).items()
                && final(self).index is None,
            old(self).index matches Some(i) ==> final(self).items() == old(self).items().subrange(
                0,
                i + 1,
            ) + other@ + old(self).items().subrange(i + 1, old(self).items().len() as int)
                && final(self).index == Some(i),
    {
        match self.index {
            Some(i) => {
                let mut rest = other;
                let n = self.list.elems.len();
                assert(i < n);
                let mut tail = self.list.elems.split_off(i + 1);
                self.list.elems.append(&mut rest.elems);
                self.list.elems.append(&mut tail);
                assert(self.list.elems@ =~= old(self).items().subrange(0, i + 1) + other@
                    + old(self).items().subrange(i + 1, old(self).items().len() as int));
            },
            None => {
                self.list.append_front(other);
            },
        }
    }

    /// Puts `elem` in front of the current element; the cursor keeps its
    /// element. At the ghost position `elem` goes behind the back.
    pub fn insert_before(&mut self, elem: T)
        requires
            old(self).wf(),
        ensures
            final(self).wf(),
            *final(final(self).list) == *final(old(self).list),
            old(self).index is None ==> final(self).items() == old(self).items().push(elem)
                && final(self).index is None,
            old(self).index matches Some(i) ==> final(self).items() == old(self).items().insert(
                i as int,
                elem,
            ) && final(self).index == Some((i + 1) as usize),
    {
        match self.index {
            Some(i) => {
                self.list.elems.insert(i, elem);
                let total = self.list.elems.len();
                assert(i + 1 < total);
                self.index = Some(i + 1);
            },
            None => {
                self.list.push_back(elem);
            },
        }
    }

    /// Puts `elem` behind the current element; the cursor keeps its
    /// element. At the ghost position `elem` goes in front of the front.
    pub fn insert_after(&mut self, elem: T)
        requires
            old(self).wf(),
        ensures
            final(self).wf(),
            *final(final(self).list) == *final(old(self).list),
            old(self).index is None ==> final(self).items() == seq![elem] + old(self).items()
                && final(self).index is None,
            old(self).index matches Some(i) ==> final(self).items() == old(self).items().insert(
                i + 1,
                elem,
            ) && final(self).index == Some(i),
    {
        match self.index {
            Some(i) => {
                let n = self.list.elems.len();
                assert(i < n);
                self.list.elems.insert(i + 1, elem);
            },
            None => {
                self.list.push_front(elem);
            },
        }
    }

    /// Takes the current element out of the list; the cursor moves on to the
    /// element that followed it, or to the ghost position if none did.
    /// At the ghost position nothing changes and `None` comes back.
    pub fn remove(&mut self) -> (r: Option<T>)
        requires
            old(self).wf(),
        ensures
            final(self).wf(),
            *final(final(self).list) == *final(old(self).list),
            old(self).index is None ==> r is None && final(self).items() == old(self).items()
                && final(self).index is None,
            old(self).index matches Some(i) ==> r == Some(old(self).items()[i as int])
                && final(self).items() == old(self).items().remove(i as int) && final(self).index
                == (if i + 1 < old(self).items().len() {
                Some(i)
            } else {
                None
            }),
    {
        match self.index {
            Some(i) => {
                let e = self.list.elems.remove(i);
                if i >= self.list.elems.len() {
                    self.index = None;
                }
                Some(e)
            },
            None => None,
        }
    }
}


/// Walks the elements of a borrowed list from both ends, handing out shared
/// references; the two ends never pass each other.
pub struct Iter<'a, T> {
    rest: &'a [T],
}

impl<'a, T> View for Iter<'a, T> {
    type V = Seq<T>;

    /// The elements not handed out yet, from front to back.
    closed spec fn view(&self) -> Seq<T> {
        self.rest@
    }
}

impl<'a, T> Iter<'a, T> {
    /// Hands out the frontmost element not handed out yet.
    pub fn next(&mut self) -> (r: Option<&'a T>)
        ensures
            old(self)@.len() == 0 ==> r is None,
            old(self)@.len() > 0 ==> r is Some && *r->0 == old(self)@[0],
            final(self)@ == after_pop_front(old(self)@),
    {
        let rest: &'a [T] = self.rest;
        if rest.len() == 0 {
            None
        } else {
            let (head, tail) = rest.split_at(1);
            self.rest = tail;
            assert(tail@ =~= old(self)@.drop_first());
            Some(&head[0])
        }
    }

    /// Hands out the backmost element not handed out yet.
    pub fn next_back(&mut self) -> (r: Option<&'a T>)
        ensures
            old(self)@.len() == 0 ==> r is None,
            old(self)@.len() > 0 ==> r is Some && *r->0 == old(self)@.last(),
            final(self)@ == after_pop_back(old(self)@),
    {
        let rest: &'a [T] = self.rest;
        let n = rest.len();
        if n == 0 {
            None
        } else {
            let (head, tail) = rest.split_at(n - 1);
            self.rest = head;
            assert(head@ =~= old(self)@.drop_last());
            Some(&tail[0])
        }
    }

    /// How many elements are left to hand out.
    pub fn len(&self) -> (r: usize)
        ensures
            r == self@.len(),
    {
        self.rest.len()
    }

    /// The least and the most elements left to hand out, which agree.
    pub fn size_hint(&self) -> (r: (usize, Option<usize>))
        ensures
            r.0 == self@.len(),
            r.1 == Some(r.0),
    {
        let n = self.rest.len();
        (n, Some(n))
    }
}

/// Walks the elements of a borrowed list from both ends, handing out
/// references through which they can be changed; each element is handed out
/// at most once.
pub struct IterMut<'a, T> {
    rest: Option<&'a mut [T]>,
}

impl<'a, T> View for IterMut<'a, T> {
    type V = Seq<T>;

    /// The elements not handed out yet, from front to back.
    closed spec fn view(&self) -> Seq<T> {
        match self.rest {
            Some(s) => s@,
            None => Seq::empty(),
        }
    }
}

impl<'a, T> IterMut<'a, T> {
    /// Hands out the frontmost element not handed out yet.
    pub fn next(&mut self) -> (r: Option<&'a mut T>)
        ensures
            old(self)@.len() == 0 ==> r is None,
            old(self)@.len() > 0 ==> r is Some && *r->0 == old(self)@[0],
            final(self)@ == after_pop_front(old(self)@),
    {
        match self.rest.take() {
            None => None,
            Some(rest) => {
                if rest.len() == 0 {
                    self.rest = Some(rest);
                    None
                } else {
                    let (head, tail) = rest.split_at_mut(1);
                    assert(tail@ =~= old(self)@.drop_first());
                    self.rest = Some(tail);
                    head.first_mut()
                }
            },
        }
    }

    /// Hands out the backmost element not handed out yet.
    pub fn next_back(&mut self) -> (r: Option<&'a mut T>)
        ensures
            old(self)@.len() == 0 ==> r is None,
            old(self)@.len() > 0 ==> r is Some && *r->0 == old(self)@.last(),
            final(self)@ == after_pop_back(old(self)@),
    {
        match self.rest.take() {
            None => None,
            Some(rest) => {
                let n = rest.len();
                if n == 0 {
                    self.rest = Some(rest);
                    None
                } else {
                    let (head, tail) = rest.split_at_mut(n - 1);
                    assert(head@ =~= old(self)@.drop_last());
                    self.rest = Some(head);
                    tail.first_mut()
                }
            },
        }
    }

    /// How many elements are left to hand out.
    pub fn len(&self) -> (r: usize)
        ensures
            r == self@.len(),
    {
        match &self.rest {
            Some(s) => s.len(),
            None => 0,
        }
    }

    /// The least and the most elements left to hand out, which agree.
    pub fn size_hint(&self) -> (r: (usize, Option<usize>))
        ensures
            r.0 == self@.len(),
            r.1 == Some(r.0),
    {
        let n = self.len();
        (n, Some(n))
    }
}

/// Takes the elements out of an owned list from both ends.
pub struct IntoIter<T>(LinkedList<T>);

impl<T> View for IntoIter<T> {
    type V = Seq<T>;

    /// The elements not taken out yet, from front to back.
    closed spec fn view(&self) -> Seq<T> {
        self.0@
    }
}

impl<T> IntoIter<T> {
    /// Takes out the frontmost element left.
    pub fn next(&mut self) -> (r: Option<T>)
        ensures
            r == first_of(old(self)@),
            final(self)@ == after_pop_front(old(self)@),
    {
        self.0.pop_front()
    }

    /// Takes out the backmost element left.
    pub fn next_back(&mut self) -> (r: Option<T>)
        ensures
            r == last_of(old(self)@),
            final(self)@ == after_pop_back(old(self)@),
    {
        self.0.pop_back()
    }

    /// How many elements are left.
    pub fn len(&self) -> (r: usize)
        ensures
            r == self@.len(),
    {
        self.0.len()
    }

    /// The least and the most elements left, which agree.
    pub fn size_hint(&self) -> (r: (usize, Option<usize>))
        ensures
            r.0 == self@.len(),
            r.1 == Some(r.0),
    {
        let n = self.0.len();
        (n, Some(n))
    }
}

impl<T> LinkedList<T> {
    /// Walks the elements, handing out shared references.
    pub fn iter(&self) -> (r: Iter<'_, T>)
        ensures
            r@ == self@,
    {
        Iter { rest: self.elems.as_slice() }
    }

    /// Walks the elements, handing out references to change them through.
    pub fn iter_mut(&mut self) -> (r: IterMut<'_, T>)
        ensures
            r@ == old(self)@,
    {
        IterMut { rest: Some(self.elems.as_mut_slice()) }
    }

    /// Takes the list over and hands its elements out by value.
    pub fn into_iter(self) -> (r: IntoIter<T>)
        ensures
            r@ == self@,
    {
        IntoIter(self)
    }
}

} // verus!
