use vstd::prelude::*;

verus! {

/// One element of the chain, owning the rest of it.
pub struct Node<T> {
    pub(crate) elem: T,
    pub(crate) next: Link<T>,
}

/// An ownership slot: either nothing, or exactly one owned node.
pub(crate) type Link<T> = Option<Box<Node<T>>>;

/// The elements held by a chain, from the node it starts at to its end.
pub(crate) open spec fn link_view<T>(link: Option<Box<Node<T>>>) -> Seq<T>
    decreases link,
{
    match link {
        None => Seq::empty(),
        Some(node) => seq![node.elem] + link_view(node.next),
    }
}

/// The elements of the chain that starts at `node`, `node`'s own first.
pub open(crate) spec fn node_seq<T>(node: Node<T>) -> Seq<T> {
    seq![node.elem] + link_view(node.next)
}

} // verus!
