use vstd::prelude::*;

use crate::iter::{ends_of, Iter, IterMut};
use crate::link::{link_view, Link, Node};

verus! {

/// A last-in-first-out stack. Its view lists the elements from the most
/// recently pushed one (index 0) down to the oldest.
pub struct Stack<T> {
    head: Link<T>,
}

/// The contents of a stack holding `s` after `x` is pushed onto it.
pub open spec fn pushed<T>(s: Seq<T>, x: T) -> Seq<T> {
    seq![x] + s
}

/// The element that a pop or a peek reports on a stack holding `s`:
/// the most recently pushed one, or nothing when the stack is empty.
pub open spec fn top<T>(s: Seq<T>) -> Option<T> {
    if s.len() == 0 {
        None
    } else {
        Some(s[0])
    }
}

/// The contents of a stack holding `s` after a pop: the top element
/// removed, or nothing changed when the stack is empty.
pub open spec fn popped<T>(s: Seq<T>) -> Seq<T> {
    if s.len() == 0 {
        s
    } else {
        s.drop_first()
    }
}

impl<T> View for Stack<T> {
    type V = Seq<T>;

    closed spec fn view(&self) -> Seq<T> {
        link_view(self.head)
    }
}

impl<T> Stack<T> {
    /// An empty stack.
    pub fn new() -> (s: Self)
        ensures
            s@ == Seq::<T>::empty(),
    {
        Stack { head: None }
    }

    /// Puts `elem` on top. The old chain moves into the new node, so no
    /// node ever has two owners.
    pub fn push(&mut self, elem: T)
        ensures
            final(self)@ == pushed(old(self)@, elem),
    {
        let new_node = Box::new(Node { elem, next: self.head.take() });
        self.head = Some(new_node);
    }

    /// Removes the top element and hands it back; on an empty stack returns
    /// `None` and changes nothing.
    pub fn pop(&mut self) -> (r: Option<T>)
        ensures
            r == top(old(self)@),
            final(self)@ == popped(old(self)@),
    {
        match self.head.take() {
            None => None,
            Some(node) => {
                let Node { elem, next } = *node;
                self.head = next;
                Some(elem)
            },
        }
    }

    /// A read-only reference to the top element, or `None` when the stack is
    /// empty.
    pub fn peek(&self) -> (r: Option<&T>)
        ensures
            r is Some <==> self@.len() > 0,
            r is Some ==> *r->Some_0 == self@[0],
    {
        match &self.head {
            None => None,
            Some(node) => Some(&node.elem),
        }
    }

    /// A mutable reference to the top element, or `None` when the stack is
    /// empty. What the caller leaves behind that reference becomes the new
    /// top; the rest of the stack is unchanged.
    pub fn peek_mut(&mut self) -> (r: Option<&mut T>)
        ensures
            old(self)@.len() == 0 ==> r is None && final(self)@ == old(self)@,
            old(self)@.len() > 0 ==> {
                &&& r is Some
                &&& *r->Some_0 == old(self)@[0]
                &&& final(self)@ == old(self)@.update(0, *final(r->Some_0))
            },
    {
        match &mut self.head {
            None => None,
            Some(node) => Some(&mut node.elem),
        }
    }

    /// A cursor that hands out the elements from the top down.
    pub fn iter(&self) -> (r: Iter<'_, T>)
        ensures
            r@ == self@,
    {
        Iter::starting_at(
            match &self.head {
                None => None,
                Some(node) => Some(&**node),
            },
        )
    }

    /// A cursor that hands out mutable references to the elements, from the
    /// top down. Once the cursor and the references it handed out are gone,
    /// the stack holds what the chain under the cursor's first node was left
    /// holding: same length and order, with each element as its reference
    /// left it.
    pub fn iter_mut(&mut self) -> (r: IterMut<'_, T>)
        ensures
            r@ == old(self)@,
            r.cursor() is None <==> old(self)@.len() == 0,
            final(self)@ == ends_of(
                match r.cursor() {
                    None => None,
                    Some(n) => Some(*final(n)),
                },
            ),
    {
        IterMut::starting_at(
            match &mut self.head {
                None => None,
                Some(node) => Some(&mut **node),
            },
        )
    }
}

/// Releases a chain one node at a time: each node is taken apart and its
/// link to the rest kept before the node itself goes, so no release ever
/// recurses down the chain, however long it is.
fn release<T>(link: Link<T>)
    opens_invariants none
    no_unwind
{
    let mut cur: Link<T> = link;
    loop
        decreases link_view(cur).len(),
    {
        match cur {
            None => {
                break;
            },
            Some(node) => {
                let Node { elem, next } = *node;
                cur = next;
            },
        }
    }
}

impl<T> Drop for Stack<T> {
    /// Takes the whole chain out of the stack and hands it to `release`,
    /// which frees it node by node. The stack is left empty, so nothing is
    /// left for a release that would recurse down the chain.
    fn drop(&mut self)
        ensures
            final(self)@ == Seq::<T>::empty(),
        opens_invariants none
        no_unwind
    {
        let mut head: Link<T> = None;
        core::mem::swap(&mut self.head, &mut head);
        release(head);
    }
}

} // verus!
