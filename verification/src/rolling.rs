//! The bounded window that forgets its oldest entry when a new one arrives.

use vstd::prelude::*;

verus! {

/// The window `w` after `x` has been pushed into it under the given capacity.
///
/// A window that has reached its capacity gives up its oldest entry first. An empty
/// window has nothing to give up, so a capacity of zero behaves like a capacity of one.
pub open spec fn pushed<T>(w: Seq<T>, capacity: int, x: T) -> Seq<T> {
    if w.len() >= capacity && w.len() > 0 {
        w.drop_first().push(x)
    } else {
        w.push(x)
    }
}

/// The window `w` after every entry of `xs` has been pushed into it, first to last.
pub open spec fn pushed_all<T>(w: Seq<T>, capacity: int, xs: Seq<T>) -> Seq<T>
    decreases xs.len(),
{
    if xs.len() == 0 {
        w
    } else {
        pushed(pushed_all(w, capacity, xs.drop_last()), capacity, xs.last())
    }
}

/// The last `n` entries of `xs`, or all of them where there are fewer.
pub open spec fn tail<T>(xs: Seq<T>, n: int) -> Seq<T> {
    if xs.len() <= n {
        xs
    } else {
        xs.subrange(xs.len() - n, xs.len() as int)
    }
}

/// A window within its capacity stays within it.
pub proof fn lemma_pushed_len<T>(w: Seq<T>, capacity: int, x: T)
    requires
        capacity >= 1,
        w.len() <= capacity,
    ensures
        pushed(w, capacity, x).len() <= capacity,
        pushed(w, capacity, x).len() == if w.len() < capacity {
            w.len() as int + 1
        } else {
            capacity
        },
{
}

/// After any number of pushes an empty window of capacity at least one holds the
/// most recent values, as many as its capacity admits, oldest first.
pub proof fn lemma_rolling_window<T>(capacity: int, xs: Seq<T>)
    requires
        capacity >= 1,
    ensures
        pushed_all(Seq::<T>::empty(), capacity, xs) == tail(xs, capacity),
        pushed_all(Seq::<T>::empty(), capacity, xs).len() == if xs.len() <= capacity {
            xs.len() as int
        } else {
            capacity
        },
        xs.len() >= capacity ==> pushed_all(Seq::<T>::empty(), capacity, xs) == xs.subrange(
            xs.len() - capacity,
            xs.len() as int,
        ),
    decreases xs.len(),
{
    let empty = Seq::<T>::empty();
    if xs.len() == 0 {
        assert(pushed_all(empty, capacity, xs) =~= tail(xs, capacity));
    } else {
        let front = xs.drop_last();
        lemma_rolling_window(capacity, front);
        let before = pushed_all(empty, capacity, front);
        assert(before == tail(front, capacity));
        assert(pushed(before, capacity, xs.last()) =~= tail(xs, capacity));
    }
    if xs.len() >= capacity {
        assert(tail(xs, capacity) =~= xs.subrange(xs.len() - capacity, xs.len() as int));
    }
}

} // verus!
