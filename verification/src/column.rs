//! The list itself: its keys and settings, what it tells the application,
//! and which entry a press lands on.
use crate::drag::DragState;
use crate::geometry::{Padding, Point, Rectangle};
use crate::layout::Layout;
use vstd::prelude::*;

verus! {

/// What the list tells the application.
#[derive(Clone, Copy, PartialEq, Debug)]
pub enum Notification<Key> where Key: Copy + PartialEq {
    /// The entry `key` was pressed and is now held.
    Grab(Key),
    /// The entry `key` is dragged and would now land at the given index.
    Drag(Key, usize),
    /// The entry `key` was let go at the given index.
    Drop(Key, usize),
    /// The entry `key` was let go of without being moved, or the drag was
    /// called off; nothing is to be reordered.
    Cancel(Key),
}

/// What one event did: the notifications to publish, in order, and whether
/// the list is to be painted anew.
#[derive(Clone, PartialEq, Debug)]
pub struct Outcome<Key> where Key: Copy + PartialEq {
    pub notifications: Vec<Notification<Key>>,
    pub redraw: bool,
}

/// The mathematical result of one step of the state machine.
pub struct Step<Key> where Key: Copy + PartialEq {
    pub drag: DragState<Key>,
    pub notifications: Seq<Notification<Key>>,
    pub redraw: bool,
}

/// A vertical list of keyed entries that can be reordered by dragging. The
/// value holds the keys of the entries in list order and the settings; the
/// drag state lives outside of it, in a [`State`].
///
/// No two entries may share a key.
#[derive(Clone, PartialEq, Debug)]
pub struct Column<Key> where Key: Copy + PartialEq {
    /// The keys of the entries, in list order.
    pub keys: Vec<Key>,
    /// The vertical distance between two entries.
    pub spacing: u32,
    /// The room between the bounds of the list and its entries.
    pub padding: Padding,
    /// Whether entries are clipped to the bounds of the list.
    pub clip: bool,
    /// Whether a line marks the place at which a dragged entry would land.
    pub drop_position_marker: bool,
    /// Whether a dragged entry is painted where the pointer is.
    pub drag_follow: bool,
    /// Whether a dragged entry follows the pointer sideways too.
    pub drag_lateral: bool,
    /// Whether a dragged entry is centred on the pointer.
    pub drag_center: bool,
}

/// The index of the first entry at or after `from` and before `limit` that
/// the pointer is over.
pub open spec fn first_under_from(
    children: Seq<Rectangle>,
    limit: int,
    cursor: Option<Point>,
    from: int,
) -> Option<int>
    decreases limit - from,
{
    if from < 0 || from >= limit || from >= children.len() {
        None
    } else if children[from].spec_is_under(cursor) {
        Some(from)
    } else {
        first_under_from(children, limit, cursor, from + 1)
    }
}

/// The index of the first of the first `limit` entries that the pointer is
/// over. Where entries overlap, the one earlier in the list wins.
pub open spec fn first_under(children: Seq<Rectangle>, limit: int, cursor: Option<Point>) -> Option<
    int,
> {
    first_under_from(children, limit, cursor, 0)
}

/// Where entries overlap, the first in list order wins: the entry found
/// from `from` on is under the pointer, and no entry between `from` and it
/// is. Where none is found, none of them is under the pointer.
pub proof fn lemma_first_under_is_first(
    children: Seq<Rectangle>,
    limit: int,
    cursor: Option<Point>,
    from: int,
)
    requires
        0 <= from,
    ensures
        match first_under_from(children, limit, cursor, from) {
            Some(index) => {
                &&& from <= index < limit
                &&& index < children.len()
                &&& children[index].spec_is_under(cursor)
                &&& forall|j: int| from <= j < index ==> !(#[trigger] children[j]).spec_is_under(cursor)
            },
            None => forall|j: int|
                from <= j < limit && j < children.len() ==> !(#[trigger] children[j]).spec_is_under(
                    cursor,
                ),
        },
    decreases limit - from,
{
    if from < limit && from < children.len() && !children[from].spec_is_under(cursor) {
        lemma_first_under_is_first(children, limit, cursor, from + 1);
    }
}

impl<Key> Column<Key> where Key: Copy + PartialEq {
    /// Creates an empty list: no spacing, no clipping, the drop position
    /// marked, and a dragged entry neither following the pointer nor centred
    /// on it.
    pub fn new() -> (column: Self)
        ensures
            column.keys@ == Seq::<Key>::empty(),
            column == Self::spec_from_keys(column.keys),
    {
        Self::from_keys(Vec::new())
    }

    /// Creates an empty list with room for `capacity` entries.
    pub fn with_capacity(capacity: usize) -> (column: Self)
        ensures
            column.keys@ == Seq::<Key>::empty(),
            column == Self::spec_from_keys(column.keys),
    {
        Self::from_keys(Vec::with_capacity(capacity))
    }

    /// The list of the entries `keys` with every setting at its default.
    pub open spec fn spec_from_keys(keys: Vec<Key>) -> Self {
        Column {
            keys,
            spacing: 0,
            padding: Padding { top: 0, right: 0, bottom: 0, left: 0 },
            clip: false,
            drop_position_marker: true,
            drag_follow: false,
            drag_lateral: false,
            drag_center: false,
        }
    }

    /// Creates a list of the entries `keys` with every setting at its
    /// default.
    #[verifier::when_used_as_spec(spec_from_keys)]
    pub fn from_keys(keys: Vec<Key>) -> (column: Self)
        ensures
            column == Self::spec_from_keys(keys),
    {
        Column {
            keys,
            spacing: 0,
            padding: Padding { top: 0, right: 0, bottom: 0, left: 0 },
            clip: false,
            drop_position_marker: true,
            drag_follow: false,
            drag_lateral: false,
            drag_center: false,
        }
    }

    /// Sets the vertical spacing between entries.
    pub fn spacing(self, amount: u32) -> (column: Self)
        ensures
            column == (Column { spacing: amount, ..self }),
    {
        Column { spacing: amount, ..self }
    }

    /// Sets the room between the bounds of the list and its entries.
    pub fn padding(self, padding: Padding) -> (column: Self)
        ensures
            column == (Column { padding, ..self }),
    {
        Column { padding, ..self }
    }

    /// Sets whether the entries are clipped to the bounds of the list. A
    /// dragged entry that follows the pointer is never clipped to them.
    pub fn clip(self, clip: bool) -> (column: Self)
        ensures
            column == (Column { clip, ..self }),
    {
        Column { clip, ..self }
    }

    /// Adds an entry at the end of the list.
    pub fn push(self, key: Key) -> (column: Self)
        ensures
            column.keys@ == self.keys@.push(key),
            column == (Column { keys: column.keys, ..self }),
    {
        let mut column = self;
        column.keys.push(key);
        column
    }

    /// Adds an entry at the end of the list, if there is one.
    pub fn push_maybe(self, key: Option<Key>) -> (column: Self)
        ensures
            column.keys@ == match key {
                Some(key) => self.keys@.push(key),
                None => self.keys@,
            },
            column == (Column { keys: column.keys, ..self }),
    {
        match key {
            Some(key) => self.push(key),
            None => self,
        }
    }

    /// Adds the entries `keys` at the end of the list, in their order.
    pub fn extend(self, keys: &Vec<Key>) -> (column: Self)
        ensures
            column.keys@ == self.keys@ + keys@,
            column == (Column { keys: column.keys, ..self }),
    {
        let mut column = self;
        let mut index: usize = 0;
        while index < keys.len()
            invariant
                index <= keys.len(),
                column.keys@ == self.keys@ + keys@.take(index as int),
                column == (Column { keys: column.keys, ..self }),
            decreases keys.len() - index,
        {
            column.keys.push(keys[index]);
            assert(keys@.take(index + 1) == keys@.take(index as int).push(keys@[index as int]));
            index += 1;
        }
        assert(keys@.take(keys.len() as int) == keys@);
        column
    }

    /// Sets whether a line marks the place among the entries at which the
    /// dragged entry would land if it were let go now.
    pub fn drop_position_marker(self, drop_position_marker: bool) -> (column: Self)
        ensures
            column == (Column { drop_position_marker, ..self }),
    {
        Column { drop_position_marker, ..self }
    }

    /// Sets whether an entry follows the pointer while it is dragged.
    pub fn drag_follow(self, drag_follow: bool) -> (column: Self)
        ensures
            column == (Column { drag_follow, ..self }),
    {
        Column { drag_follow, ..self }
    }

    /// Sets whether a dragged entry follows the pointer sideways as well.
    /// Without it the entry moves up and down only.
    pub fn drag_lateral(self, drag_lateral: bool) -> (column: Self)
        ensures
            column == (Column { drag_lateral, ..self }),
    {
        Column { drag_lateral, ..self }
    }

    /// Sets whether a dragged entry is centred on the pointer. The drag then
    /// starts with the press.
    pub fn drag_center(self, drag_center: bool) -> (column: Self)
        ensures
            column == (Column { drag_center, ..self }),
    {
        Column { drag_center, ..self }
    }

    /// The number of entries that have both a key and a place in `layout`.
    pub open spec fn entry_count(&self, layout: &Layout) -> nat {
        if self.keys@.len() <= layout.children@.len() {
            self.keys@.len()
        } else {
            layout.children@.len()
        }
    }

    /// The number of entries that have both a key and a place in `layout`.
    pub fn count_entries(&self, layout: &Layout) -> (count: usize)
        ensures
            count == self.entry_count(layout),
    {
        if self.keys.len() <= layout.children.len() {
            self.keys.len()
        } else {
            layout.children.len()
        }
    }

    /// The index of the entry that a press at `cursor` grabs: the first
    /// entry under the pointer, provided the pointer is over the list at all.
    pub open spec fn spec_child_at(&self, layout: &Layout, cursor: Option<Point>) -> Option<usize> {
        if !layout.bounds.spec_is_under(cursor) {
            None
        } else {
            match first_under(layout.children@, self.entry_count(layout) as int, cursor) {
                Some(index) => Some(index as usize),
                None => None,
            }
        }
    }

    /// Whether `found` is what a press at `cursor` grabs: an entry that has
    /// a key and is under the pointer, in a list that is under the pointer,
    /// with no entry before it under the pointer; or nothing, where there is
    /// no such entry.
    pub open spec fn is_grabbed_at(
        &self,
        layout: &Layout,
        cursor: Option<Point>,
        found: Option<usize>,
    ) -> bool {
        match found {
            Some(index) => {
                &&& index < self.entry_count(layout)
                &&& layout.bounds.spec_is_under(cursor)
                &&& layout.children@[index as int].spec_is_under(cursor)
                &&& forall|j: int|
                    0 <= j < index ==> !(#[trigger] layout.children@[j]).spec_is_under(cursor)
            },
            None => !layout.bounds.spec_is_under(cursor) || forall|j: int|
                0 <= j < self.entry_count(layout) ==> !(#[trigger] layout.children@[j]).spec_is_under(
                    cursor,
                ),
        }
    }

    /// What a press grabs is the first entry under the pointer.
    pub proof fn lemma_child_at_is_grabbed(&self, layout: &Layout, cursor: Option<Point>)
        ensures
            self.is_grabbed_at(layout, cursor, self.spec_child_at(layout, cursor)),
    {
        lemma_first_under_is_first(layout.children@, self.entry_count(layout) as int, cursor, 0);
        assert(self.entry_count(layout) <= self.keys.len() <= usize::MAX);
    }

    /// The index of the entry that a press at `cursor` grabs.
    #[verifier::when_used_as_spec(spec_child_at)]
    pub fn child_at(&self, layout: &Layout, cursor: Option<Point>) -> (found: Option<usize>)
        ensures
            found == self.spec_child_at(layout, cursor),
            self.is_grabbed_at(layout, cursor, found),
            found matches Some(index) ==> index < self.keys@.len() && index < layout.children@.len()
                && cursor is Some,
    {
        proof {
            self.lemma_child_at_is_grabbed(layout, cursor);
        }
        if !layout.bounds.is_under(cursor) {
            return None;
        }
        let count = self.count_entries(layout);
        let mut index: usize = 0;
        while index < count
            invariant
                index <= count,
                count == self.entry_count(layout),
                layout.bounds.spec_is_under(cursor),
                self.is_grabbed_at(layout, cursor, self.spec_child_at(layout, cursor)),
                first_under(layout.children@, count as int, cursor) == first_under_from(
                    layout.children@,
                    count as int,
                    cursor,
                    index as int,
                ),
            decreases count - index,
        {
            if layout.children[index].is_under(cursor) {
                return Some(index);
            }
            index += 1;
        }
        None
    }
}

impl<Key> Default for Column<Key> where Key: Copy + PartialEq {
    fn default() -> (column: Self)
        ensures
            column.keys@ == Seq::<Key>::empty(),
            column == Self::spec_from_keys(column.keys),
    {
        Self::new()
    }
}

} // verus!
