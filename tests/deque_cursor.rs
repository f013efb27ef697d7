use linked_lists::deque::LinkedList;

fn items(ls: &LinkedList<u32>) -> Vec<u32> {
    let mut out = Vec::new();
    let mut it = ls.iter();
    while let Some(x) = it.next() {
        out.push(*x);
    }
    out
}

#[test]
fn cursor_walks_around_the_ghost() {
    let mut m = LinkedList::from_vec(vec![1u32, 2, 3]);
    let mut c = m.cursor_mut();
    c.move_next();
    assert_eq!(c.current(), Some(&mut 1));
    assert_eq!(c.index(), Some(0));
    c.move_prev();
    assert_eq!(c.current(), None);
    assert_eq!(c.index(), None);
    c.move_prev();
    assert_eq!(c.current(), Some(&mut 3));
    assert_eq!(c.index(), Some(2));
}

#[test]
fn cursor_on_empty_list_stays_at_ghost() {
    let mut m: LinkedList<u32> = LinkedList::new();
    let mut c = m.cursor_mut();
    c.move_next();
    assert_eq!(c.index(), None);
    c.move_prev();
    assert_eq!(c.index(), None);
    assert_eq!(c.peek_next(), None);
    assert_eq!(c.peek_prev(), None);
    assert_eq!(c.remove(), None);
}

#[test]
fn splice_around_first_element() {
    let mut m = LinkedList::from_vec(vec![1u32, 2, 3, 4, 5, 6]);
    let mut c = m.cursor_mut();
    c.move_next();
    c.splice_before(LinkedList::from_vec(vec![7]));
    assert_eq!(c.index(), Some(1));
    c.splice_after(LinkedList::from_vec(vec![8]));
    assert_eq!(c.index(), Some(1));
    assert_eq!(m.len(), 8);
    assert_eq!(items(&m), vec![7, 1, 8, 2, 3, 4, 5, 6]);
}

#[test]
fn splice_empty_list_changes_nothing() {
    let mut m = LinkedList::from_vec(vec![1u32, 2]);
    let mut c = m.cursor_mut();
    c.move_next();
    c.splice_before(LinkedList::new());
    c.splice_after(LinkedList::new());
    assert_eq!(c.index(), Some(0));
    assert_eq!(items(&m), vec![1, 2]);
}

#[test]
fn split_before_fourth_element() {
    let mut m = LinkedList::from_vec(vec![1u32, 2, 3, 4, 5, 6]);
    let mut c = m.cursor_mut();
    for _ in 0..4 {
        c.move_next();
    }
    assert_eq!(c.index(), Some(3));
    let front = c.split_before();
    assert_eq!(c.current(), Some(&mut 4));
    assert_eq!(c.index(), Some(0));
    assert_eq!(items(&front), vec![1, 2, 3]);
    assert_eq!(items(&m), vec![4, 5, 6]);
}

#[test]
fn split_after_fourth_element() {
    let mut m = LinkedList::from_vec(vec![1u32, 2, 3, 4, 5, 6]);
    let mut c = m.cursor_mut();
    for _ in 0..4 {
        c.move_next();
    }
    let back = c.split_after();
    assert_eq!(c.index(), Some(3));
    assert_eq!(items(&back), vec![5, 6]);
    assert_eq!(items(&m), vec![1, 2, 3, 4]);
}

#[test]
fn split_at_ghost_takes_everything() {
    let mut m = LinkedList::from_vec(vec![1u32, 2, 3]);
    let mut c = m.cursor_mut();
    let all = c.split_after();
    assert_eq!(items(&all), vec![1, 2, 3]);
    assert!(m.is_empty());
}

#[test]
fn insert_around_cursor() {
    let mut m = LinkedList::from_vec(vec![1u32, 2, 3]);
    let mut c = m.cursor_mut();
    c.move_next();
    c.move_next();
    c.insert_before(10);
    assert_eq!(c.index(), Some(2));
    c.insert_after(20);
    assert_eq!(c.index(), Some(2));
    assert_eq!(c.current(), Some(&mut 2));
    c.move_prev();
    c.move_prev();
    c.move_prev();
    assert_eq!(c.index(), None);
    c.insert_before(30);
    c.insert_after(40);
    assert_eq!(c.index(), None);
    assert_eq!(items(&m), vec![40, 1, 10, 2, 20, 3, 30]);
    assert_eq!(m.len(), 7);
}

#[test]
fn remove_moves_to_following_element() {
    let mut m = LinkedList::from_vec(vec![1u32, 2, 3]);
    let mut c = m.cursor_mut();
    c.move_next();
    c.move_next();
    assert_eq!(c.remove(), Some(2));
    assert_eq!(c.index(), Some(1));
    assert_eq!(c.current(), Some(&mut 3));
    assert_eq!(c.remove(), Some(3));
    assert_eq!(c.index(), None);
    assert_eq!(c.current(), None);
    assert_eq!(items(&m), vec![1]);
}

#[test]
fn current_changes_element_in_place() {
    let mut m = LinkedList::from_vec(vec![1u32, 2, 3]);
    let mut c = m.cursor_mut();
    c.move_next();
    c.move_next();
    *c.current().unwrap() = 9;
    *c.peek_next().unwrap() = 8;
    *c.peek_prev().unwrap() = 7;
    assert_eq!(items(&m), vec![7, 9, 8]);
}

#[test]
fn walk_forward_goes_round() {
    let mut m = LinkedList::from_vec(vec![4u32, 5, 6]);
    let mut c = m.cursor_mut();
    for round in 0..2 {
        for k in 0..3 {
            c.move_next();
            assert_eq!(c.index(), Some(k), "round {}", round);
            assert_eq!(c.current(), Some(&mut (4 + k as u32)));
        }
        c.move_next();
        assert_eq!(c.index(), None);
    }
    c.move_next();
    c.move_prev();
    assert_eq!(c.index(), None);
    c.move_prev();
    c.move_next();
    assert_eq!(c.index(), None);
}
