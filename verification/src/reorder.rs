//! Carrying out a drop: moving one item of a sequence to the place that a
//! drop location names.
use vstd::prelude::*;

verus! {

/// The sequence `items` after the item at index `source` was dropped at
/// `drop_location`.
///
/// A drop location counts the places between the items as they lie before
/// the move: `0` is in front of the first item, `items.len()` behind the
/// last. The item is taken out and put back so that it ends up at that
/// place; taking it out moves every later item one to the front, so a drop
/// location behind the source is one less once the item is out. The places
/// right before and right after the item are where it is already, and a
/// source that is no index of the sequence moves nothing.
pub open spec fn reordered<T>(items: Seq<T>, source: int, drop_location: int) -> Seq<T> {
    if source < 0 || source >= items.len() || drop_location == source || drop_location == source
        + 1 {
        items
    } else {
        let target = if drop_location > source {
            drop_location - 1
        } else {
            drop_location
        };
        let rest = items.remove(source);
        if 0 <= target < rest.len() {
            rest.insert(target, items[source])
        } else {
            rest.push(items[source])
        }
    }
}

/// Moves the item at index `source` of `items` to `drop_location`.
pub fn reorder<T>(items: &mut Vec<T>, source: usize, drop_location: usize)
    ensures
        final(items)@ == reordered(old(items)@, source as int, drop_location as int),
        final(items)@.len() == old(items)@.len(),
{
    if source >= items.len() || drop_location == source || (source < usize::MAX && drop_location
        == source + 1) {
        return ;
    }
    let target: usize = if drop_location > source {
        drop_location - 1
    } else {
        drop_location
    };
    let item = items.remove(source);
    if target < items.len() {
        items.insert(target, item);
    } else {
        items.push(item);
    }
}

/// Dropping an item where it is changes nothing: neither the place right
/// before it nor the place right after it is a move.
pub proof fn lemma_drop_in_place_changes_nothing<T>(items: Seq<T>, source: int)
    ensures
        reordered(items, source, source) == items,
        reordered(items, source, source + 1) == items,
{
}

/// Dropping the first item behind the last moves it to the end and every
/// other item one to the front.
pub proof fn lemma_drop_first_at_end<T>(items: Seq<T>)
    requires
        items.len() > 0,
    ensures
        reordered(items, 0, items.len() as int) == items.drop_first().push(items[0]),
        reordered(items, 0, items.len() as int).len() == items.len(),
        forall|i: int|
            0 <= i < items.len() - 1 ==> #[trigger] reordered(items, 0, items.len() as int)[i]
                == items[i + 1],
        reordered(items, 0, items.len() as int)[items.len() - 1] == items[0],
{
    let moved = reordered(items, 0, items.len() as int);
    if items.len() == 1 {
        assert(moved =~= items.drop_first().push(items[0]));
    } else {
        assert(items.remove(0) =~= items.drop_first());
        assert(moved =~= items.drop_first().push(items[0]));
    }
}

/// Where the dropped item ends up, and where the others go: an item that
/// moves lands at the drop location, less one where that lay behind it; the
/// items between its old and its new place shift by one towards the old
/// place; all others stay.
pub proof fn lemma_reordered_places<T>(items: Seq<T>, source: int, drop_location: int)
    requires
        0 <= source < items.len(),
        0 <= drop_location <= items.len(),
    ensures
        reordered(items, source, drop_location).len() == items.len(),
        drop_location <= source ==> {
            let moved = reordered(items, source, drop_location);
            &&& moved[drop_location] == items[source]
            &&& forall|i: int| 0 <= i < drop_location ==> #[trigger] moved[i] == items[i]
            &&& forall|i: int| drop_location < i <= source ==> #[trigger] moved[i] == items[i - 1]
            &&& forall|i: int| source < i < items.len() ==> #[trigger] moved[i] == items[i]
        },
        drop_location > source ==> {
            let moved = reordered(items, source, drop_location);
            &&& moved[drop_location - 1] == items[source]
            &&& forall|i: int| 0 <= i < source ==> #[trigger] moved[i] == items[i]
            &&& forall|i: int| source <= i < drop_location - 1 ==> #[trigger] moved[i] == items[i + 1]
            &&& forall|i: int| drop_location <= i < items.len() ==> #[trigger] moved[i] == items[i]
        },
{
}

/// A drop reorders and does nothing else: the sequence afterwards holds the
/// same items as before, each as often as before.
pub proof fn lemma_reordered_is_permutation<T>(items: Seq<T>, source: int, drop_location: int)
    ensures
        reordered(items, source, drop_location).to_multiset() == items.to_multiset(),
{
    if !(source < 0 || source >= items.len() || drop_location == source || drop_location == source
        + 1) {
        let target = if drop_location > source {
            drop_location - 1
        } else {
            drop_location
        };
        let rest = items.remove(source);
        let item = items[source];
        assert(items.to_multiset() == rest.to_multiset().insert(item)) by {
            assert(items =~= rest.insert(source, item));
            vstd::seq_lib::to_multiset_insert(rest, source, item);
        }
        if 0 <= target < rest.len() {
            vstd::seq_lib::to_multiset_insert(rest, target, item);
        } else {
            vstd::seq_lib::to_multiset_build(rest, item);
        }
    }
}

} // verus!
