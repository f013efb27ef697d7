use linked_lists::int_stack;
use linked_lists::persistent_stack;
use linked_lists::stack;

#[test]
fn bad_stack_basics() {
    let mut list = int_stack::List::new();
    assert_eq!(list.pop(), None);
    list.push(1);
    list.push(2);
    list.push(3);
    assert_eq!(list.pop(), Some(3));
    assert_eq!(list.pop(), Some(2));
    list.push(4);
    list.push(5);
    assert_eq!(list.pop(), Some(5));
    assert_eq!(list.pop(), Some(4));
    assert_eq!(list.pop(), Some(1));
    assert_eq!(list.pop(), None);
}

#[test]
fn ch01_bad_stack_basics() {
    let mut list = int_stack::List::new();
    assert_eq!(list.pop(), None);
    list.push(1);
    list.push(2);
    list.push(3);
    assert_eq!(list.pop(), Some(3));
    assert_eq!(list.pop(), Some(2));
    list.push(4);
    list.push(5);
    assert_eq!(list.pop(), Some(5));
    assert_eq!(list.pop(), Some(4));
    assert_eq!(list.pop(), Some(1));
    assert_eq!(list.pop(), None);
}

#[test]
fn ch01_bad_stack_drops() {
    let mut list = int_stack::List::new();
    list.push(1);
    list.push(2);
    list.push(3);
    list.push(4);
    list.push(5);
    list.push(6);
    drop(list);
}

#[test]
fn ch02_ok_linked_stack_basics() {
    let mut list = stack::List::new();
    assert_eq!(list.pop(), None);
    list.push(1);
    list.push(2);
    list.push(3);
    assert_eq!(list.pop(), Some(3));
    assert_eq!(list.pop(), Some(2));
    list.push(4);
    list.push(5);
    assert_eq!(list.pop(), Some(5));
    assert_eq!(list.pop(), Some(4));
    assert_eq!(list.pop(), Some(1));
    assert_eq!(list.pop(), None);
}

#[test]
fn ch02_ok_linked_stack_drops() {
    let mut list = stack::List::new();
    list.push(1);
    list.push(2);
    list.push(3);
    list.push(4);
    list.push(5);
    list.push(6);
    drop(list);
}

#[test]
fn ch02_ok_linked_stack_peek() {
    let mut list = stack::List::new();
    assert_eq!(list.pop(), None);
    assert_eq!(list.peek(), None);
    assert_eq!(list.peek_mut(), None);

    list.push(1).push(2).push(3);

    assert_eq!(list.peek(), Some(&3));
    assert_eq!(list.peek_mut(), Some(&mut 3));

    if let Some(val) = list.peek_mut() {
        *val = 20230331;
    }
    assert_eq!(list.peek(), Some(&20230331));
    assert_eq!(list.pop(), Some(20230331));
}

#[test]
fn ch02_ok_linked_stack_into_iter() {
    let mut list = stack::List::new();
    list.push(1).push(2).push(3);

    let mut iter = list.into_iter();
    assert_eq!(Some(3), iter.next());
    assert_eq!(Some(2), iter.next());
    assert_eq!(Some(1), iter.next());
    assert_eq!(None, iter.next());
}

#[test]
fn ch02_ok_linked_stack_iter() {
    let mut list = stack::List::new();
    list.push("hi")
        .push("my")
        .push("name")
        .push("is")
        .push("choi")
        .push("wheatley");
    let mut iter = list.iter();
    assert_eq!(iter.next(), Some(&"wheatley"));
    assert_eq!(iter.next(), Some(&"choi"));
    assert_eq!(iter.next(), Some(&"is"));
    assert_eq!(iter.next(), Some(&"name"));
    assert_eq!(iter.next(), Some(&"my"));
    assert_eq!(iter.next(), Some(&"hi"));

    assert_eq!(list.peek(), Some(&"wheatley"));
}

#[test]
fn ch02_ok_linked_stack_iter_mut() {
    let mut list = stack::List::new();
    list.push(0).push(1).push(2).push(3);
    let mut iter = list.iter_mut();
    let top = iter.next().unwrap();
    *top = 4;

    let mut iter = list.iter();
    assert_eq!(iter.next(), Some(&4));
    assert_eq!(iter.next(), Some(&2));
    assert_eq!(iter.next(), Some(&1));
    assert_eq!(iter.next(), Some(&0));
}

#[test]
#[allow(clippy::option_as_ref_deref)]
fn as_deref() {
    struct Node(i32);
    let value = Node(1);
    let option_box_node: Option<Box<Node>> = Some(Box::new(value));
    let _option_borrowed: Option<&Node> = option_box_node.as_ref().map(|e| &**e);
    let _option_borrowed: Option<&Node> = option_box_node.as_ref().map::<&Node, _>(|e| e);
    let _option_borrowed: Option<&Node> = option_box_node.as_deref();
}

#[test]
fn prepend_head_tail() {
    let root = persistent_stack::List::new();
    let list = root.prepend(1).prepend(2).prepend(3);
    assert_eq!(list.head(), Some(&3));
    assert_eq!(list.tail().head(), Some(&2));
    assert_eq!(list.tail().tail().head(), Some(&1));

    assert_eq!(list.tail().tail().tail().head(), None);

    assert_eq!(list.tail().tail().tail().tail().head(), None);

    let branch1 = list.prepend(4);
    let branch2 = list.prepend(5);

    assert_eq!(branch1.head(), Some(&4));
    assert_eq!(branch1.tail().head(), Some(&3));
    assert_eq!(branch1.tail().tail().head(), Some(&2));
    assert_eq!(branch1.tail().tail().tail().head(), Some(&1));

    assert_eq!(branch2.head(), Some(&5));
    assert_eq!(branch2.tail().head(), Some(&3));
    assert_eq!(branch2.tail().tail().head(), Some(&2));
    assert_eq!(branch2.tail().tail().tail().head(), Some(&1));
}

#[test]
fn ch03_persistent_stack_iter() {
    let queue = "Hello, world!".chars().collect::<Vec<_>>();
    let mut list = persistent_stack::List::new();

    queue.iter().for_each(|c| {
        list = list.prepend(c);
    });
    let mut answer_iter = queue.iter().rev();
    let mut list_iter = list.iter();
    while let Some(&got) = list_iter.next() {
        assert_eq!(Some(got), answer_iter.next());
    }
    assert_eq!(None, answer_iter.next());
}
