//! Linked lists of several shapes, verified against sequence models.
//!
//! The main type is `deque::LinkedList`, a double-ended list with a cursor
//! (`deque::CursorMut`) that walks it in both directions through a ghost
//! position and reshapes it in place: insert, remove, split and splice.
//! `deque_laws` states and proves what holds across its operations.
//!
//! Beside it stand simpler lists: integer and generic stacks of boxed nodes
//! (`int_stack`, `stack`), a persistent stack with shared tails
//! (`persistent_stack`), a plain double-ended queue (`simple_deque`) and a
//! first-in, first-out queue (`queue`).

pub mod deque;
pub mod deque_laws;
pub mod int_stack;
pub mod persistent_stack;
pub mod queue;
pub mod rectangle;
pub mod simple_deque;
pub mod stack;
