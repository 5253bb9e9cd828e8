//! Bounded histories: queues that keep the newest entries up to a fixed
//! capacity and let the oldest go first.

use std::collections::VecDeque;
use vstd::prelude::*;

verus! {

/// The newest `capacity` entries of `all`, in their order; all of them where
/// there are no more than that.
pub open spec fn bounded_tail<T>(all: Seq<T>, capacity: nat) -> Seq<T> {
    if all.len() <= capacity {
        all
    } else {
        all.subrange(all.len() - capacity, all.len() as int)
    }
}

/// The history that results from entering `items` one after another into
/// `history`, each time letting go of the oldest entries beyond `capacity`.
pub open spec fn entered_all<T>(history: Seq<T>, items: Seq<T>, capacity: nat) -> Seq<T>
    decreases items.len(),
{
    if items.len() == 0 {
        history
    } else {
        bounded_tail(entered_all(history, items.drop_last(), capacity).push(items.last()), capacity)
    }
}

/// A bounded tail is never longer than the capacity.
pub proof fn lemma_bounded_tail_len<T>(all: Seq<T>, capacity: nat)
    ensures
        bounded_tail(all, capacity).len() <= capacity,
        bounded_tail(all, capacity).len() <= all.len(),
        all.len() <= capacity ==> bounded_tail(all, capacity) == all,
{
}

/// Entering an item into a history that was cut to the capacity gives the
/// same as entering it into the uncut history and cutting then.
pub proof fn lemma_bounded_tail_push<T>(all: Seq<T>, item: T, capacity: nat)
    ensures
        bounded_tail(bounded_tail(all, capacity).push(item), capacity) == bounded_tail(
            all.push(item),
            capacity,
        ),
{
    assert(bounded_tail(bounded_tail(all, capacity).push(item), capacity) =~= bounded_tail(
        all.push(item),
        capacity,
    ));
}

/// After any number of entries into an empty history, the history holds
/// exactly the newest entries up to the capacity, in the order in which they
/// were entered, and is no longer than the capacity.
pub proof fn lemma_bounded_history<T>(items: Seq<T>, capacity: nat)
    ensures
        entered_all(Seq::<T>::empty(), items, capacity) == bounded_tail(items, capacity),
        entered_all(Seq::<T>::empty(), items, capacity).len() <= capacity,
        items.len() > capacity ==> entered_all(Seq::<T>::empty(), items, capacity)
            == items.subrange(items.len() - capacity, items.len() as int),
    decreases items.len(),
{
    if items.len() == 0 {
        assert(bounded_tail(items, capacity) =~= Seq::<T>::empty());
    } else {
        lemma_bounded_history(items.drop_last(), capacity);
        lemma_bounded_tail_push(items.drop_last(), items.last(), capacity);
        assert(items.drop_last().push(items.last()) =~= items);
    }
}

/// Whatever the history held before, it never exceeds the capacity after an
/// entry.
pub proof fn lemma_entered_all_len<T>(history: Seq<T>, items: Seq<T>, capacity: nat)
    requires
        history.len() <= capacity,
    ensures
        entered_all(history, items, capacity).len() <= capacity,
    decreases items.len(),
{
    if items.len() > 0 {
        lemma_entered_all_len(history, items.drop_last(), capacity);
    }
}

/// Lets go of the oldest entries of `history` until no more than `capacity`
/// are left.
pub fn trim_to<T>(history: &mut VecDeque<T>, capacity: usize)
    ensures
        final(history)@ == bounded_tail(old(history)@, capacity as nat),
{
    while history.len() > capacity
        invariant
            history@.len() <= old(history)@.len(),
            history@ == old(history)@.subrange(
                old(history)@.len() - history@.len(),
                old(history)@.len() as int,
            ),
            history@.len() >= capacity || history@.len() == old(history)@.len(),
        decreases history.len(),
    {
        let ghost before = history@;
        history.pop_front();
        assert(history@ =~= old(history)@.subrange(
            old(history)@.len() - history@.len(),
            old(history)@.len() as int,
        ));
    }
    assert(history@ =~= bounded_tail(old(history)@, capacity as nat));
}

/// Enters `item` as the newest entry of `history` and lets go of the oldest
/// entries beyond `capacity`.
pub fn push_bounded<T>(history: &mut VecDeque<T>, item: T, capacity: usize)
    ensures
        final(history)@ == bounded_tail(old(history)@.push(item), capacity as nat),
{
    history.push_back(item);
    trim_to(history, capacity);
}

} // verus!
