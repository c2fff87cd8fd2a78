use vstd::prelude::*;

use crate::link::{node_seq, Node};
use crate::stack::popped;

verus! {

/// The elements of the chain that starts at `node`, if any.
pub(crate) open spec fn from_node<T>(node: Option<&Node<T>>) -> Seq<T> {
    match node {
        None => Seq::empty(),
        Some(n) => node_seq(*n),
    }
}

/// A cursor over a stack that hands out read-only references to its
/// elements, from the top down. Its view is what it has still to hand out.
pub struct Iter<'a, T> {
    next: Option<&'a Node<T>>,
}

impl<'a, T> View for Iter<'a, T> {
    type V = Seq<T>;

    closed spec fn view(&self) -> Seq<T> {
        from_node(self.next)
    }
}

impl<'a, T> Iter<'a, T> {
    /// A cursor that starts at `node`.
    pub(crate) fn starting_at(node: Option<&'a Node<T>>) -> (r: Self)
        ensures
            r@ == from_node(node),
    {
        Iter { next: node }
    }

    /// The next element, or `None` once the cursor has passed the bottom of
    /// the stack; from then on it keeps answering `None`.
    pub fn next(&mut self) -> (r: Option<&'a T>)
        ensures
            r is Some <==> old(self)@.len() > 0,
            r is Some ==> *r->Some_0 == old(self)@[0],
            final(self)@ == popped(old(self)@),
    {
        match self.next {
            None => None,
            Some(node) => {
                self.next = match &node.next {
                    None => None,
                    Some(rest) => Some(&**rest),
                };
                Some(&node.elem)
            },
        }
    }
}

/// The elements of the chain that starts at `node`, `node`'s own first, or
/// nothing when there is no node. Contracts apply it to the value that a
/// borrowed node is left with, to say what the stack ends up holding.
pub open spec fn ends_of<T>(node: Option<Node<T>>) -> Seq<T> {
    match node {
        None => Seq::empty(),
        Some(n) => node_seq(n),
    }
}

/// A cursor over a stack that hands out mutable references to its
/// elements, from the top down, one at a time. Its view is what it has still
/// to hand out, as the elements stand now.
pub struct IterMut<'a, T> {
    next: Option<&'a mut Node<T>>,
}

impl<'a, T> View for IterMut<'a, T> {
    type V = Seq<T>;

    closed spec fn view(&self) -> Seq<T> {
        match self.next {
            None => Seq::empty(),
            Some(n) => node_seq(*n),
        }
    }
}

impl<'a, T> IterMut<'a, T> {
    /// The node the cursor stands on, borrowed from the stack; `None` once it
    /// has passed the bottom.
    pub closed spec fn cursor(&self) -> Option<&'a mut Node<T>> {
        self.next
    }

    /// Once a cursor is done with, the chain under it keeps what it holds
    /// now: nothing more is written through it.
    pub broadcast proof fn settled(self)
        ensures
            #[trigger] has_resolved(self) ==> ends_of(
                match self.cursor() {
                    None => None,
                    Some(n) => Some(*final(n)),
                },
            ) == self@,
    {
    }

    /// A cursor that starts at `node`.
    pub(crate) fn starting_at(node: Option<&'a mut Node<T>>) -> (r: Self)
        ensures
            r.cursor() == node,
            r@ == match node {
                None => Seq::empty(),
                Some(n) => node_seq(*n),
            },
    {
        IterMut { next: node }
    }

    /// The next element, or `None` once the cursor has passed the bottom of
    /// the stack; from then on it keeps answering `None`. The cursor lets go
    /// of an element before it hands out the one below it. What the chain
    /// from the current node ends up holding is what the handed-out reference
    /// is left holding, followed by what the chain below ends up holding.
    pub fn next(&mut self) -> (r: Option<&'a mut T>)
        ensures
            r is Some <==> old(self)@.len() > 0,
            r is Some ==> *r->Some_0 == old(self)@[0],
            final(self)@ == popped(old(self)@),
            final(self).cursor() is None <==> final(self)@.len() == 0,
            old(self).cursor() is Some ==> r is Some && ends_of(
                Some(*final(old(self).cursor()->Some_0)),
            ) == seq![*final(r->Some_0)] + ends_of(
                match final(self).cursor() {
                    None => None,
                    Some(n) => Some(*final(n)),
                },
            ),
    {
        match self.next.take() {
            None => None,
            Some(node) => {
                self.next = match &mut node.next {
                    None => None,
                    Some(rest) => Some(&mut **rest),
                };
                Some(&mut node.elem)
            },
        }
    }
}

} // verus!
