use vstd::prelude::*;
use crate::deque::{
    after_pop_back, after_pop_front, cleared, first_of, last_of, next_index, prev_index,
};

verus! {

/// The list left by pushing each element of `s` in turn at the front of `l`.
pub open spec fn pushed_front<T>(l: Seq<T>, s: Seq<T>) -> Seq<T>
    decreases s.len(),
{
    if s.len() == 0 {
        l
    } else {
        pushed_front(seq![s[0]] + l, s.drop_first())
    }
}

/// The list left by pushing each element of `s` in turn at the back of `l`.
pub open spec fn pushed_back<T>(l: Seq<T>, s: Seq<T>) -> Seq<T>
    decreases s.len(),
{
    if s.len() == 0 {
        l
    } else {
        pushed_back(l.push(s[0]), s.drop_first())
    }
}

/// The elements that `n` pops from the front of `l` hand out, in order.
pub open spec fn popped_front<T>(l: Seq<T>, n: nat) -> Seq<T>
    decreases n,
{
    if n == 0 {
        Seq::empty()
    } else {
        match first_of(l) {
            Some(e) => seq![e] + popped_front(after_pop_front(l), (n - 1) as nat),
            None => Seq::empty(),
        }
    }
}

/// The elements that `n` pops from the back of `l` hand out, in order.
pub open spec fn popped_back<T>(l: Seq<T>, n: nat) -> Seq<T>
    decreases n,
{
    if n == 0 {
        Seq::empty()
    } else {
        match last_of(l) {
            Some(e) => seq![e] + popped_back(after_pop_back(l), (n - 1) as nat),
            None => Seq::empty(),
        }
    }
}

/// The elements handed out by popping from the front of `l` until nothing
/// comes back.
pub open spec fn drained_front<T>(l: Seq<T>) -> Seq<T>
    decreases l.len(),
{
    match first_of(l) {
        Some(e) => seq![e] + drained_front(after_pop_front(l)),
        None => Seq::empty(),
    }
}

/// The elements handed out by popping from the back of `l` until nothing
/// comes back.
pub open spec fn drained_back<T>(l: Seq<T>) -> Seq<T>
    decreases l.len(),
{
    match last_of(l) {
        Some(e) => seq![e] + drained_back(after_pop_back(l)),
        None => Seq::empty(),
    }
}

proof fn lemma_pushed_front_is_reverse<T>(l: Seq<T>, s: Seq<T>)
    ensures
        pushed_front(l, s) == s.reverse() + l,
    decreases s.len(),
{
    if s.len() > 0 {
        lemma_pushed_front_is_reverse(seq![s[0]] + l, s.drop_first());
        assert(s.reverse() =~= s.drop_first().reverse() + seq![s[0]]);
        assert(s.drop_first().reverse() + (seq![s[0]] + l) =~= s.reverse() + l);
    } else {
        assert(s.reverse() + l =~= l);
    }
}

proof fn lemma_pushed_back_is_concat<T>(l: Seq<T>, s: Seq<T>)
    ensures
        pushed_back(l, s) == l + s,
    decreases s.len(),
{
    if s.len() > 0 {
        lemma_pushed_back_is_concat(l.push(s[0]), s.drop_first());
        assert(l.push(s[0]) + s.drop_first() =~= l + s);
    } else {
        assert(l + s =~= l);
    }
}

proof fn lemma_popped_front_all<T>(l: Seq<T>)
    ensures
        popped_front(l, l.len()) == l,
    decreases l.len(),
{
    if l.len() > 0 {
        lemma_popped_front_all(l.drop_first());
        assert(seq![l[0]] + l.drop_first() =~= l);
    } else {
        assert(l =~= Seq::<T>::empty());
    }
}

proof fn lemma_popped_back_all<T>(l: Seq<T>)
    ensures
        popped_back(l, l.len()) == l.reverse(),
    decreases l.len(),
{
    if l.len() > 0 {
        lemma_popped_back_all(l.drop_last());
        assert(seq![l.last()] + l.drop_last().reverse() =~= l.reverse());
    } else {
        assert(l.reverse() =~= Seq::<T>::empty());
    }
}

/// Pushing the elements of `s` one by one at the front of an empty list, then
/// popping as many from the front, hands them out in the reverse order.
pub proof fn lemma_push_front_pop_front_reverses<T>(s: Seq<T>)
    ensures
        popped_front(pushed_front(Seq::empty(), s), s.len()) == s.reverse(),
{
    lemma_pushed_front_is_reverse(Seq::empty(), s);
    assert(s.reverse() + Seq::<T>::empty() =~= s.reverse());
    lemma_popped_front_all(s.reverse());
}

/// Pushing the elements of `s` one by one at the back of an empty list, then
/// popping as many from the back, hands them out in the reverse order.
pub proof fn lemma_push_back_pop_back_reverses<T>(s: Seq<T>)
    ensures
        popped_back(pushed_back(Seq::empty(), s), s.len()) == s.reverse(),
{
    lemma_pushed_back_is_concat(Seq::empty(), s);
    assert(Seq::<T>::empty() + s =~= s);
    lemma_popped_back_all(s);
}

/// Popping from the front until the list is empty hands out every element,
/// front to back.
pub proof fn lemma_drain_front_yields_list<T>(l: Seq<T>)
    ensures
        drained_front(l) == l,
    decreases l.len(),
{
    if l.len() > 0 {
        lemma_drain_front_yields_list(l.drop_first());
        assert(seq![l[0]] + l.drop_first() =~= l);
    } else {
        assert(l =~= Seq::<T>::empty());
    }
}

/// Popping from the back until the list is empty hands out every element,
/// back to front.
pub proof fn lemma_drain_back_yields_reverse<T>(l: Seq<T>)
    ensures
        drained_back(l) == l.reverse(),
    decreases l.len(),
{
    if l.len() > 0 {
        lemma_drain_back_yields_reverse(l.drop_last());
        assert(seq![l.last()] + l.drop_last().reverse() =~= l.reverse());
    } else {
        assert(l.reverse() =~= Seq::<T>::empty());
    }
}

/// The length of a list is the number of elements that popping until it is
/// empty hands out, from either end.
pub proof fn lemma_len_is_drain_count<T>(l: Seq<T>)
    ensures
        drained_front(l).len() == l.len(),
        drained_back(l).len() == l.len(),
{
    lemma_drain_front_yields_list(l);
    lemma_drain_back_yields_reverse(l);
}

/// Walking a list to the end from the back hands out the elements in the
/// reverse order of walking it from the front.
pub proof fn lemma_backward_walk_reverses_forward_walk<T>(l: Seq<T>)
    ensures
        drained_back(l) == drained_front(l).reverse(),
{
    lemma_drain_front_yields_list(l);
    lemma_drain_back_yields_reverse(l);
}

/// Clearing a list leaves it empty, and clearing it again leaves it empty
/// still.
pub proof fn lemma_clear_twice_is_empty<T>(l: Seq<T>)
    ensures
        cleared(l).len() == 0,
        cleared(cleared(l)).len() == 0,
{
}

/// The position that `k` calls of `move_next` reach from `index` on a list of
/// `len` elements.
pub open spec fn walked_next(index: Option<usize>, len: nat, k: nat) -> Option<usize>
    decreases k,
{
    if k == 0 {
        index
    } else {
        walked_next(next_index(index, len), len, (k - 1) as nat)
    }
}

/// `move_prev` undoes `move_next`, and `move_next` undoes `move_prev`, from
/// every position of a list that fits in memory.
pub proof fn lemma_moves_undo_each_other(index: Option<usize>, len: nat)
    requires
        len <= usize::MAX,
        index matches Some(i) ==> i < len,
    ensures
        prev_index(next_index(index, len), len) == index,
        next_index(prev_index(index, len), len) == index,
{
}

proof fn lemma_walk_from_ghost(len: nat, k: nat)
    requires
        len <= usize::MAX,
        1 <= k <= len,
    ensures
        walked_next(None, len, k) == Some((k - 1) as usize),
    decreases k,
{
    if k > 1 {
        lemma_walk_from_ghost(len, (k - 1) as nat);
        lemma_walk_shift(None, len, (k - 1) as nat);
        assert((k - 1) as nat + 1 == k);
    } else {
        reveal_with_fuel(walked_next, 2);
    }
}

proof fn lemma_walk_shift(index: Option<usize>, len: nat, k: nat)
    ensures
        walked_next(index, len, k + 1) == next_index(walked_next(index, len, k), len),
    decreases k,
{
    if k > 0 {
        lemma_walk_shift(next_index(index, len), len, (k - 1) as nat);
        assert((k - 1) as nat + 1 == k);
        assert(walked_next(index, len, k) == walked_next(
            next_index(index, len),
            len,
            (k - 1) as nat,
        ));
    } else {
        reveal_with_fuel(walked_next, 2);
    }
}

/// Walking forward from the ghost position visits every element in order,
/// the `k`-th step landing on position `k - 1`, and the step after the last
/// element leads back to the ghost position: the walk goes round for ever.
pub proof fn lemma_walk_goes_round(len: nat)
    requires
        len <= usize::MAX,
    ensures
        forall|k: nat| 1 <= k <= len ==> #[trigger] walked_next(None, len, k) == Some(
            (k - 1) as usize,
        ),
        walked_next(None, len, len + 1) is None,
{
    assert forall|k: nat| 1 <= k <= len implies #[trigger] walked_next(None, len, k) == Some(
        (k - 1) as usize,
    ) by {
        lemma_walk_from_ghost(len, k);
    }
    lemma_walk_shift(None, len, len);
    if len > 0 {
        lemma_walk_from_ghost(len, len);
    }
}

} // verus!
