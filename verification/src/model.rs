//! Views of sequences and options, taken element by element.

use vstd::prelude::*;

verus! {

/// The views of the elements of a sequence.
pub open spec fn seq<T: View>(items: Seq<T>) -> Seq<T::V> {
    items.map_values(|item: T| item@)
}

/// The view of what an option holds.
pub open spec fn opt<T: View>(item: Option<T>) -> Option<T::V> {
    match item {
        Some(value) => Some(value@),
        None => None,
    }
}

pub broadcast proof fn seq_push<T: View>(items: Seq<T>, item: T)
    ensures
        #[trigger] seq(items.push(item)) == seq(items).push(item@),
{
    assert(seq(items.push(item)) =~= seq(items).push(item@));
}

pub broadcast proof fn seq_update<T: View>(items: Seq<T>, at: int, item: T)
    requires
        0 <= at < items.len(),
    ensures
        #[trigger] seq(items.update(at, item)) == seq(items).update(at, item@),
{
    assert(seq(items.update(at, item)) =~= seq(items).update(at, item@));
}

pub broadcast proof fn seq_remove<T: View>(items: Seq<T>, at: int)
    requires
        0 <= at < items.len(),
    ensures
        #[trigger] seq(items.remove(at)) == seq(items).remove(at),
{
    assert(seq(items.remove(at)) =~= seq(items).remove(at));
}

pub broadcast proof fn seq_len<T: View>(items: Seq<T>)
    ensures
        #[trigger] seq(items).len() == items.len(),
{
}

pub broadcast proof fn seq_empty<T: View>()
    ensures
        #[trigger] seq(Seq::<T>::empty()) == Seq::<T::V>::empty(),
{
    assert(seq(Seq::<T>::empty()) =~= Seq::<T::V>::empty());
}

pub broadcast proof fn seq_insert<T: View>(items: Seq<T>, at: int, item: T)
    requires
        0 <= at <= items.len(),
    ensures
        #[trigger] seq(items.insert(at, item)) == seq(items).insert(at, item@),
{
    assert(seq(items.insert(at, item)) =~= seq(items).insert(at, item@));
}

pub broadcast group group_model {
    seq_push,
    seq_update,
    seq_remove,
    seq_insert,
    seq_len,
    seq_empty,
}

/// The first index, from `from` on, of an item that satisfies `wanted`.
pub open spec fn position<T>(items: Seq<T>, wanted: spec_fn(T) -> bool, from: int) -> Option<int>
    decreases items.len() - from,
{
    if from < 0 || from >= items.len() {
        None
    } else if wanted(items[from]) {
        Some(from)
    } else {
        position(items, wanted, from + 1)
    }
}

pub proof fn position_is_first<T>(items: Seq<T>, wanted: spec_fn(T) -> bool, from: int)
    requires
        0 <= from,
    ensures
        match position(items, wanted, from) {
            Some(at) => from <= at < items.len() && wanted(items[at]) && forall|j: int|
                from <= j < at ==> !wanted(#[trigger] items[j]),
            None => forall|j: int| from <= j < items.len() ==> !wanted(#[trigger] items[j]),
        },
    decreases items.len() - from,
{
    if from < items.len() && !wanted(items[from]) {
        position_is_first(items, wanted, from + 1);
    }
}

} // verus!
