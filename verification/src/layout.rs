//! The layout of a list and the two questions asked of it: at which index
//! would an entry land that is let go at a given height, and where is the
//! seam of that index to be marked.
use crate::geometry::{Point, Rectangle};
use vstd::prelude::*;

verus! {

/// Where a list and its entries lie: the bounds of the whole list, and the
/// bounds of each entry in list order.
#[derive(Clone, Debug, PartialEq, Eq)]
pub struct Layout {
    pub bounds: Rectangle,
    pub children: Vec<Rectangle>,
}

/// The index at which a walk down the entries ends that sets out at entry
/// `from`: it passes every entry whose centre is at or above the line `y`,
/// and stops at the first whose centre lies strictly below it, or behind the
/// last entry.
pub open spec fn walk_from(children: Seq<Rectangle>, y: int, from: int) -> int
    decreases children.len() - from,
{
    if from < 0 || from >= children.len() || children[from].center_is_below(y) {
        from
    } else {
        walk_from(children, y, from + 1)
    }
}

/// The drop location of height `y`: the index at which an entry let go
/// there is inserted. It is the index of the first entry whose centre lies
/// strictly below `y`, or the number of entries where there is none.
pub open spec fn drop_index(children: Seq<Rectangle>, y: int) -> int {
    walk_from(children, y, 0)
}

/// Whether `index` is the first place in `children` at which the walk for
/// `y` stops: no entry before it has its centre below `y`, and the entry at
/// `index`, if there is one, has.
pub open spec fn is_first_stop(children: Seq<Rectangle>, y: int, index: int) -> bool {
    &&& 0 <= index <= children.len()
    &&& forall|j: int| 0 <= j < index ==> !(#[trigger] children[j]).center_is_below(y)
    &&& index < children.len() ==> children[index].center_is_below(y)
}

/// A walk that sets out at `from`, with every entry before `from` passed,
/// ends at the first stop.
pub proof fn lemma_walk_ends_at_first_stop(children: Seq<Rectangle>, y: int, from: int)
    requires
        0 <= from <= children.len(),
        forall|j: int| 0 <= j < from ==> !(#[trigger] children[j]).center_is_below(y),
    ensures
        is_first_stop(children, y, walk_from(children, y, from)),
        from <= walk_from(children, y, from),
    decreases children.len() - from,
{
    if from < children.len() && !children[from].center_is_below(y) {
        lemma_walk_ends_at_first_stop(children, y, from + 1);
    }
}

/// The drop location is the first stop, and therefore lies between zero and
/// the number of entries, both included.
pub proof fn lemma_drop_index_is_first_stop(children: Seq<Rectangle>, y: int)
    ensures
        is_first_stop(children, y, drop_index(children, y)),
        0 <= drop_index(children, y) <= children.len(),
{
    lemma_walk_ends_at_first_stop(children, y, 0);
}

/// There is only one first stop: the same layout and the same height always
/// give the same drop location.
pub proof fn lemma_first_stop_is_unique(children: Seq<Rectangle>, y: int, a: int, b: int)
    requires
        is_first_stop(children, y, a),
        is_first_stop(children, y, b),
    ensures
        a == b,
{
    if a < b {
        assert(!children[a].center_is_below(y));
    } else if b < a {
        assert(!children[b].center_is_below(y));
    }
}

/// Moving the pointer down never moves the drop location up: for a fixed
/// layout the drop location does not decrease as `y` grows.
pub proof fn lemma_drop_index_monotonic(children: Seq<Rectangle>, lower_y: int, higher_y: int)
    requires
        lower_y <= higher_y,
    ensures
        drop_index(children, lower_y) <= drop_index(children, higher_y),
{
    let a = drop_index(children, lower_y);
    let b = drop_index(children, higher_y);
    lemma_drop_index_is_first_stop(children, lower_y);
    lemma_drop_index_is_first_stop(children, higher_y);
    if b < a {
        assert(!children[b].center_is_below(lower_y));
        assert(children[b].center_is_below(higher_y));
    }
}

/// Whether the centres of the entries strictly descend the screen in list
/// order.
pub open spec fn centers_ascend(children: Seq<Rectangle>) -> bool {
    forall|i: int, j: int|
        0 <= i < j < children.len() ==> (#[trigger] children[i]).twice_center_y() < (
        #[trigger] children[j]).twice_center_y()
}

/// In a list whose centres lie one strictly below the other, the drop
/// location is `index` exactly for the heights from the centre of the entry
/// before `index`, included, down to the centre of the entry at `index`, not
/// included. A pointer exactly on the centre of entry `i` thus gives `i + 1`,
/// one just above it gives `i`.
pub proof fn lemma_drop_index_between_centers(children: Seq<Rectangle>, y: int, index: int)
    requires
        centers_ascend(children),
        0 <= index <= children.len(),
    ensures
        drop_index(children, y) == index <==> {
            &&& index > 0 ==> children[index - 1].twice_center_y() <= 2 * y
            &&& index < children.len() ==> 2 * y < children[index].twice_center_y()
        },
{
    let found = drop_index(children, y);
    lemma_drop_index_is_first_stop(children, y);
    if (index > 0 ==> children[index - 1].twice_center_y() <= 2 * y) && (index < children.len()
        ==> 2 * y < children[index].twice_center_y()) {
        assert forall|j: int| 0 <= j < index implies !(#[trigger] children[j]).center_is_below(
            y,
        ) by {
            if j < index - 1 {
                assert(children[j].twice_center_y() < children[index - 1].twice_center_y());
            }
        }
        assert(is_first_stop(children, y, index));
        lemma_first_stop_is_unique(children, y, found, index);
    }
    if found == index {
        if index > 0 {
            assert(!children[index - 1].center_is_below(y));
        }
    }
}

/// In a list whose centres lie one strictly below the other, a pointer
/// exactly on the centre of entry `i` gives the drop location `i + 1`, and so
/// does one below that centre that has not reached the next; a pointer above
/// that centre that has not passed the centre before it gives `i`.
pub proof fn lemma_drop_index_around_a_center(children: Seq<Rectangle>, i: int, y: int)
    requires
        centers_ascend(children),
        0 <= i < children.len(),
    ensures
        2 * y == children[i].twice_center_y() ==> drop_index(children, y) == i + 1,
        children[i].twice_center_y() < 2 * y && (i + 1 < children.len() ==> 2 * y < children[i
            + 1].twice_center_y()) ==> drop_index(children, y) == i + 1,
        2 * y < children[i].twice_center_y() && (i > 0 ==> children[i - 1].twice_center_y() <= 2
            * y) ==> drop_index(children, y) == i,
{
    lemma_drop_index_between_centers(children, y, i);
    lemma_drop_index_between_centers(children, y, i + 1);
    if i + 1 < children.len() {
        assert(children[i].twice_center_y() < children[i + 1].twice_center_y());
    }
}

/// The index of the drop location among the entries of `layout` for a
/// pointer at `position`.
pub fn drop_location(layout: &Layout, position: Point) -> (index: usize)
    ensures
        index == drop_index(layout.children@, position.y as int),
        index <= layout.children.len(),
        is_first_stop(layout.children@, position.y as int, index as int),
{
    let mut index: usize = 0;
    while index < layout.children.len() && !layout.children[index].centered_below(position.y)
        invariant
            index <= layout.children.len(),
            drop_index(layout.children@, position.y as int) == walk_from(
                layout.children@,
                position.y as int,
                index as int,
            ),
        decreases layout.children.len() - index,
    {
        index += 1;
    }
    proof {
        lemma_drop_index_is_first_stop(layout.children@, position.y as int);
    }
    index
}

/// Half of `spacing`, rounded down.
pub open spec fn half(spacing: u32) -> int {
    spacing as int / 2
}

/// The height at which the seam of `drop_location` is marked: half the
/// spacing above the top edge of the entry at that index, or, behind the last
/// entry, half the spacing below its bottom edge. An empty list has no seam.
pub open spec fn marker_y(children: Seq<Rectangle>, spacing: u32, drop_location: int) -> Option<
    i64,
> {
    if children.len() == 0 {
        None
    } else if 0 <= drop_location < children.len() {
        Some((children[drop_location].top - half(spacing)) as i64)
    } else {
        Some((children.last().bottom + half(spacing)) as i64)
    }
}

/// The marker of a seam between two entries that lie `spacing` apart is as
/// far from the one as from the other, up to the half unit that is lost where
/// `spacing` is odd.
pub proof fn lemma_marker_lies_in_the_seam(
    children: Seq<Rectangle>,
    spacing: u32,
    drop_location: int,
)
    requires
        0 < drop_location < children.len(),
        children[drop_location].top == children[drop_location - 1].bottom + spacing,
    ensures
        marker_y(children, spacing, drop_location) is Some,
        ({
            let y = marker_y(children, spacing, drop_location).unwrap();
            let above = y - children[drop_location - 1].bottom;
            let below = children[drop_location].top - y;
            &&& above + below == spacing
            &&& below <= above <= below + 1
        }),
{
}

/// The height of the marker line for `drop_location` in `layout`, whose
/// entries lie `spacing` apart.
pub fn drop_location_marker_y(layout: &Layout, spacing: u32, drop_location: usize) -> (y: Option<
    i64,
>)
    ensures
        y == marker_y(layout.children@, spacing, drop_location as int),
        y is None <==> layout.children@.len() == 0,
        y is Some && drop_location < layout.children@.len() ==> y.unwrap()
            == layout.children@[drop_location as int].top - half(spacing),
        y is Some && drop_location >= layout.children@.len() ==> y.unwrap()
            == layout.children@.last().bottom + half(spacing),
{
    let count = layout.children.len();
    if count == 0 {
        None
    } else if drop_location < count {
        Some(layout.children[drop_location].top as i64 - (spacing / 2) as i64)
    } else {
        Some(layout.children[count - 1].bottom as i64 + (spacing / 2) as i64)
    }
}

} // verus!
