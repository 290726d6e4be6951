//! The pointer shape that a list asks for.
//!
//! The toolkit orders its pointer shapes, and every entry asks for one. The
//! list works on the places of the shapes in that order, their ranks, and
//! answers with the source of the shape to show.
use crate::column::Column;
use crate::drag::State;
use crate::geometry::Point;
use crate::layout::Layout;
use vstd::prelude::*;

verus! {

/// Where the pointer shape of a list comes from.
#[derive(Clone, Copy, Debug, PartialEq, Eq, Hash, Structural)]
pub enum Interaction {
    /// No entry asks for anything: the shape that the toolkit shows by
    /// default.
    Plain,
    /// The pointing hand: the pointer is over an entry that can be dragged.
    Pointer,
    /// The shape that the entry at this index asks for.
    Child(usize),
    /// The closed hand: an entry is held.
    Grabbing,
}

/// Whether the entry at `index` shows the pointing hand in place of its own
/// shape: the list takes drops, the pointer is over the entry, and the
/// entry's own shape ranks below the pointing hand.
pub open spec fn is_raised(
    layout: &Layout,
    cursor: Option<Point>,
    droppable: bool,
    pointer: u8,
    ranks: Seq<u8>,
    index: int,
) -> bool {
    droppable && layout.children@[index].spec_is_under(cursor) && ranks[index] < pointer
}

/// What the entry at `index` asks for: the pointing hand where it is raised
/// to it, else its own shape.
pub open spec fn shape_of(
    layout: &Layout,
    cursor: Option<Point>,
    droppable: bool,
    pointer: u8,
    ranks: Seq<u8>,
    index: int,
) -> Interaction {
    if is_raised(layout, cursor, droppable, pointer, ranks, index) {
        Interaction::Pointer
    } else {
        Interaction::Child(index as usize)
    }
}

/// The rank of what the entry at `index` asks for.
pub open spec fn asked_rank(
    layout: &Layout,
    cursor: Option<Point>,
    droppable: bool,
    pointer: u8,
    ranks: Seq<u8>,
    index: int,
) -> int {
    if is_raised(layout, cursor, droppable, pointer, ranks, index) {
        pointer as int
    } else {
        ranks[index] as int
    }
}

/// The rank of the shape that `shape` stands for, where `pointer` is the
/// rank of the pointing hand and `ranks` are those of the entries' shapes.
/// The default shape ranks below all others, the closed hand above.
pub open spec fn rank_of(shape: Interaction, pointer: u8, ranks: Seq<u8>) -> int {
    match shape {
        Interaction::Plain => -1,
        Interaction::Pointer => pointer as int,
        Interaction::Child(index) => ranks[index as int] as int,
        Interaction::Grabbing => 256,
    }
}

/// What the first `count` entries ask for together: the greatest of their
/// shapes, and of several greatest the one of the last entry.
pub open spec fn greatest_shape(
    layout: &Layout,
    cursor: Option<Point>,
    droppable: bool,
    pointer: u8,
    ranks: Seq<u8>,
    count: nat,
) -> Interaction
    decreases count,
{
    if count == 0 {
        Interaction::Plain
    } else {
        let before = greatest_shape(layout, cursor, droppable, pointer, ranks, (count - 1) as nat);
        if rank_of(before, pointer, ranks) <= asked_rank(
            layout,
            cursor,
            droppable,
            pointer,
            ranks,
            count - 1,
        ) {
            shape_of(layout, cursor, droppable, pointer, ranks, count - 1)
        } else {
            before
        }
    }
}

/// Whether `shape` is what the entry at `index` asks for, and no entry
/// behind it among the first `count` asks for a shape of the same rank or
/// a greater one.
pub open spec fn is_last_to_ask(
    layout: &Layout,
    cursor: Option<Point>,
    droppable: bool,
    pointer: u8,
    ranks: Seq<u8>,
    count: nat,
    shape: Interaction,
    index: int,
) -> bool {
    &&& 0 <= index < count
    &&& shape == shape_of(layout, cursor, droppable, pointer, ranks, index)
    &&& forall|j: int|
        index < j < count ==> #[trigger] asked_rank(layout, cursor, droppable, pointer, ranks, j)
            < rank_of(shape, pointer, ranks)
}

/// Whether `shape` is what the first `count` entries ask for together: none
/// asks for a shape of greater rank, and `shape` is that of the last entry to
/// ask for one of its rank. Without entries it is the default shape.
pub open spec fn is_greatest_shape(
    layout: &Layout,
    cursor: Option<Point>,
    droppable: bool,
    pointer: u8,
    ranks: Seq<u8>,
    count: nat,
    shape: Interaction,
) -> bool {
    &&& forall|j: int|
        0 <= j < count ==> #[trigger] asked_rank(layout, cursor, droppable, pointer, ranks, j)
            <= rank_of(shape, pointer, ranks)
    &&& match shape {
        Interaction::Plain => count == 0,
        Interaction::Grabbing => false,
        Interaction::Child(index) => is_last_to_ask(
            layout,
            cursor,
            droppable,
            pointer,
            ranks,
            count,
            shape,
            index as int,
        ),
        Interaction::Pointer => exists|index: int| #[trigger]
            is_last_to_ask(layout, cursor, droppable, pointer, ranks, count, shape, index),
    }
}

/// What the entries ask for together is the greatest of their shapes, the
/// last of several greatest.
pub proof fn lemma_greatest_shape_is_greatest(
    layout: &Layout,
    cursor: Option<Point>,
    droppable: bool,
    pointer: u8,
    ranks: Seq<u8>,
    count: nat,
)
    requires
        count <= usize::MAX,
    ensures
        is_greatest_shape(
            layout,
            cursor,
            droppable,
            pointer,
            ranks,
            count,
            greatest_shape(layout, cursor, droppable, pointer, ranks, count),
        ),
    decreases count,
{
    if count > 0 {
        let fewer = (count - 1) as nat;
        lemma_greatest_shape_is_greatest(layout, cursor, droppable, pointer, ranks, fewer);
        let before = greatest_shape(layout, cursor, droppable, pointer, ranks, fewer);
        let greatest = greatest_shape(layout, cursor, droppable, pointer, ranks, count);
        let last = count - 1;
        if rank_of(before, pointer, ranks) <= asked_rank(
            layout,
            cursor,
            droppable,
            pointer,
            ranks,
            last,
        ) {
            assert(is_last_to_ask(
                layout,
                cursor,
                droppable,
                pointer,
                ranks,
                count,
                greatest,
                last,
            ));
        } else {
            match before {
                Interaction::Pointer => {
                    let index = choose|index: int| #[trigger]
                        is_last_to_ask(
                            layout,
                            cursor,
                            droppable,
                            pointer,
                            ranks,
                            fewer,
                            before,
                            index,
                        );
                    assert(is_last_to_ask(
                        layout,
                        cursor,
                        droppable,
                        pointer,
                        ranks,
                        count,
                        greatest,
                        index,
                    ));
                },
                _ => {},
            }
        }
    }
}

/// There is one greatest shape only.
pub proof fn lemma_greatest_shape_is_unique(
    layout: &Layout,
    cursor: Option<Point>,
    droppable: bool,
    pointer: u8,
    ranks: Seq<u8>,
    count: nat,
    one: Interaction,
    other: Interaction,
)
    requires
        count <= usize::MAX,
        is_greatest_shape(layout, cursor, droppable, pointer, ranks, count, one),
        is_greatest_shape(layout, cursor, droppable, pointer, ranks, count, other),
    ensures
        one == other,
{
    if count > 0 {
        let a = match one {
            Interaction::Child(index) => index as int,
            _ => choose|index: int| #[trigger]
                is_last_to_ask(layout, cursor, droppable, pointer, ranks, count, one, index),
        };
        let b = match other {
            Interaction::Child(index) => index as int,
            _ => choose|index: int| #[trigger]
                is_last_to_ask(layout, cursor, droppable, pointer, ranks, count, other, index),
        };
        assert(is_last_to_ask(layout, cursor, droppable, pointer, ranks, count, one, a));
        assert(is_last_to_ask(layout, cursor, droppable, pointer, ranks, count, other, b));
        assert(asked_rank(layout, cursor, droppable, pointer, ranks, a) == rank_of(
            one,
            pointer,
            ranks,
        ));
        assert(asked_rank(layout, cursor, droppable, pointer, ranks, b) == rank_of(
            other,
            pointer,
            ranks,
        ));
    }
}

impl<Key> Column<Key> where Key: Copy + PartialEq {
    /// The number of entries that have a key, a place in `layout` and a
    /// shape among the `shapes` given.
    pub open spec fn shaped_count(&self, layout: &Layout, shapes: nat) -> nat {
        if shapes <= self.entry_count(layout) {
            shapes
        } else {
            self.entry_count(layout)
        }
    }

    /// The pointer shape of the list. While an entry is held it is the
    /// closed hand. Else it is the greatest of the shapes that the entries
    /// ask for, where `ranks` holds the rank of each entry's shape, `pointer`
    /// the rank of the pointing hand, and `droppable` says whether the
    /// application acts on drops, so that entries under the pointer show the
    /// pointing hand at least. Entries without a key, a place or a rank take
    /// no part.
    pub fn mouse_interaction(
        &self,
        state: &State<Key>,
        layout: &Layout,
        cursor: Option<Point>,
        droppable: bool,
        pointer: u8,
        ranks: &Vec<u8>,
    ) -> (shape: Interaction)
        ensures
            !(state.drag is Idle) ==> shape is Grabbing,
            state.drag is Idle ==> shape == greatest_shape(
                layout,
                cursor,
                droppable,
                pointer,
                ranks@,
                self.shaped_count(layout, ranks@.len()),
            ),
            state.drag is Idle ==> is_greatest_shape(
                layout,
                cursor,
                droppable,
                pointer,
                ranks@,
                self.shaped_count(layout, ranks@.len()),
                shape,
            ),
    {
        if !state.drag.is_idle() {
            return Interaction::Grabbing;
        }
        let entries = self.count_entries(layout);
        let count = if ranks.len() <= entries {
            ranks.len()
        } else {
            entries
        };
        let mut shape = Interaction::Plain;
        let mut index: usize = 0;
        while index < count
            invariant
                index <= count,
                count <= ranks.len(),
                count <= layout.children.len(),
                shape == greatest_shape(layout, cursor, droppable, pointer, ranks@, index as nat),
                match shape {
                    Interaction::Child(at) => at < index,
                    Interaction::Grabbing => false,
                    _ => true,
                },
            decreases count - index,
        {
            let raised = droppable && layout.children[index].is_under(cursor) && ranks[index]
                < pointer;
            let asked = if raised {
                pointer
            } else {
                ranks[index]
            };
            let passes = match shape {
                Interaction::Plain => true,
                Interaction::Pointer => pointer <= asked,
                Interaction::Child(at) => ranks[at] <= asked,
                Interaction::Grabbing => false,
            };
            if passes {
                shape = if raised {
                    Interaction::Pointer
                } else {
                    Interaction::Child(index)
                };
            }
            index += 1;
        }
        proof {
            lemma_greatest_shape_is_greatest(
                layout,
                cursor,
                droppable,
                pointer,
                ranks@,
                count as nat,
            );
        }
        shape
    }
}

} // verus!
