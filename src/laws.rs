use vstd::prelude::*;

use crate::stack::{popped, pushed, top};

verus! {

/// A new stack is empty: a pop or a peek on it reports nothing, and a pop
/// leaves it empty.
pub proof fn fresh_stack_is_empty<T>()
    ensures
        top(Seq::<T>::empty()) is None,
        popped(Seq::<T>::empty()) == Seq::<T>::empty(),
{
}

/// A pop right after a push returns the pushed element and puts the stack
/// back as it was.
pub proof fn pop_undoes_push<T>(s: Seq<T>, x: T)
    ensures
        top(pushed(s, x)) == Some(x),
        popped(pushed(s, x)) == s,
{
    assert(pushed(s, x).drop_first() =~= s);
}

/// Last in, first out: after `a`, `b` and `c` are pushed onto a new stack,
/// three pops return `c`, `b` and `a` in that order, and a fourth reports
/// that the stack is empty.
pub proof fn last_in_first_out<T>(a: T, b: T, c: T)
    ensures
        ({
            let s0 = pushed(pushed(pushed(Seq::<T>::empty(), a), b), c);
            let s1 = popped(s0);
            let s2 = popped(s1);
            let s3 = popped(s2);
            &&& top(s0) == Some(c)
            &&& top(s1) == Some(b)
            &&& top(s2) == Some(a)
            &&& top(s3) is None
            &&& popped(s3) == Seq::<T>::empty()
        }),
{
    let e = Seq::<T>::empty();
    pop_undoes_push(e, a);
    pop_undoes_push(pushed(e, a), b);
    pop_undoes_push(pushed(pushed(e, a), b), c);
}

/// A peek right before a pop sees what the pop returns: the first element
/// of the view when there is one, nothing otherwise; and what the pop
/// leaves is the rest of the view, or the same empty view.
pub proof fn peek_agrees_with_pop<T>(s: Seq<T>)
    ensures
        s.len() > 0 ==> top(s) == Some(s[0]) && popped(s) == s.drop_first(),
        s.len() == 0 ==> top(s) is None && popped(s) == s,
{
}

/// Once the top element of a non-empty stack has been overwritten with `v`
/// through a mutable peek, a peek and a pop both see `v`, and the pop leaves
/// the same stack as it would have without the overwrite.
pub proof fn overwritten_top_is_seen<T>(s: Seq<T>, v: T)
    requires
        s.len() > 0,
    ensures
        top(s.update(0, v)) == Some(v),
        popped(s.update(0, v)) == popped(s),
{
    assert(s.update(0, v).drop_first() =~= s.drop_first());
}

} // verus!
