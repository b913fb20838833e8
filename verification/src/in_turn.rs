//! What it is to go through a sequence of items in turn.

use vstd::prelude::*;

verus! {

/// Whether `each` leads from `before` to `after` through all `items`, once
/// for each item, first item first.
pub open spec fn in_turn<T, Acc>(
    items: Seq<T>,
    each: spec_fn(T, Acc, Acc) -> bool,
    before: Acc,
    after: Acc,
) -> bool
    decreases items.len(),
{
    if items.len() == 0 {
        after == before
    } else {
        exists|mid: Acc|
            in_turn(items.drop_last(), each, before, mid) && #[trigger] each(
                items.last(),
                mid,
                after,
            )
    }
}

/// One step is a turn through one item.
pub proof fn lemma_in_turn_one<T, Acc>(
    item: T,
    each: spec_fn(T, Acc, Acc) -> bool,
    before: Acc,
    after: Acc,
)
    requires
        each(item, before, after),
    ensures
        in_turn(seq![item], each, before, after),
{
    let one = seq![item];
    assert(one.drop_last() =~= Seq::<T>::empty());
    assert(in_turn(one.drop_last(), each, before, before));
    assert(each(one.last(), before, after));
}

/// A turn through `first` and then a turn through `second` is a turn through
/// both.
pub proof fn lemma_in_turn_add<T, Acc>(
    first: Seq<T>,
    second: Seq<T>,
    each: spec_fn(T, Acc, Acc) -> bool,
    before: Acc,
    mid: Acc,
    after: Acc,
)
    requires
        in_turn(first, each, before, mid),
        in_turn(second, each, mid, after),
    ensures
        in_turn(first + second, each, before, after),
    decreases second.len(),
{
    if second.len() == 0 {
        assert(first + second =~= first);
    } else {
        let m = choose|m: Acc|
            in_turn(second.drop_last(), each, mid, m) && #[trigger] each(second.last(), m, after);
        lemma_in_turn_add(first, second.drop_last(), each, before, mid, m);
        assert((first + second).drop_last() =~= first + second.drop_last());
        assert((first + second).last() == second.last());
    }
}

/// A turn through the first `n` items and a step for item `n` are a turn
/// through the first `n + 1`.
pub proof fn lemma_in_turn_next<T, Acc>(
    items: Seq<T>,
    each: spec_fn(T, Acc, Acc) -> bool,
    n: int,
    before: Acc,
    mid: Acc,
    after: Acc,
)
    requires
        0 <= n < items.len(),
        in_turn(items.take(n), each, before, mid),
        each(items[n], mid, after),
    ensures
        in_turn(items.take(n + 1), each, before, after),
{
    assert(items.take(n + 1).drop_last() =~= items.take(n));
    assert(items.take(n + 1).last() == items[n]);
}

} // verus!
