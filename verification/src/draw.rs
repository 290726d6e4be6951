//! What a paint pass has to do: which entries are painted in their places,
//! and what is painted after them and on top of them, the marker of the drop
//! position and the entry that follows the pointer.
use crate::column::Column;
use crate::drag::{DragState, State};
use crate::geometry::{Quad, Rectangle, Vector};
use crate::layout::{drop_location_marker_y, marker_y, Layout};
use vstd::prelude::*;
use vstd::std_specs::cmp::PartialEqSpec;

verus! {

/// What a paint pass does with one entry of the list.
#[derive(Clone, Copy, Debug, PartialEq, Eq, Hash, Structural)]
pub enum Paint {
    /// The entry is not painted: nothing of it is on show.
    Hidden,
    /// The entry is painted in its place.
    InPlace,
    /// The entry is painted after all others and on top of them, moved to
    /// where the pointer is.
    OnTop,
}

/// The plan of one paint pass.
///
/// The entries that stay in their places are painted first, with `viewport`
/// as their viewport. Where `overlay` is set, a layer bounded by
/// `overlay_viewport` is painted after them: in it the marker line at height
/// `marker_y`, then the entries that go on top, moved by `translation`.
#[derive(Clone, PartialEq, Eq, Debug)]
pub struct DrawPlan {
    /// The viewport of the entries that are painted in their places.
    pub viewport: Rectangle,
    /// What to do with each entry, in list order.
    pub children: Vec<Paint>,
    /// Whether anything is painted on top of the entries in their places.
    pub overlay: bool,
    /// The bounds of the layer that is painted last.
    pub overlay_viewport: Rectangle,
    /// The height of the line that marks the drop position.
    pub marker_y: Option<i64>,
    /// How far the entries on top are moved from their places.
    pub translation: Vector,
}

/// The marker of the drop position: a horizontal line across the content of
/// the list, and a ring at its left end.
#[derive(Clone, Copy, Debug, PartialEq, Eq, Hash, Structural)]
pub struct Marker {
    /// The height of the seam that is marked.
    pub y: i64,
    /// The line.
    pub line: Quad,
    /// The square that encloses the ring.
    pub cap: Quad,
}

impl<Key> Column<Key> where Key: Copy + PartialEq {
    /// The viewport of the entries that stay in their places: what the list
    /// and the caller's viewport have in common where the list clips its
    /// entries, else the caller's viewport. `None` where the list lies
    /// outside of the caller's viewport altogether.
    pub open spec fn shown_viewport(&self, layout: &Layout, viewport: &Rectangle) -> Option<
        Rectangle,
    > {
        match layout.bounds.spec_intersection(viewport) {
            Some(common) => Some(
                if self.clip {
                    common
                } else {
                    *viewport
                },
            ),
            None => None,
        }
    }

    /// The height of the marker line: that of the seam at which the dragged
    /// entry would land, where an entry is dragged and the list marks drop
    /// positions.
    pub open spec fn shown_marker(&self, drag: DragState<Key>, layout: &Layout) -> Option<i64> {
        match drag {
            DragState::Dragged { drop_location, .. } => if self.drop_position_marker {
                marker_y(layout.children@, self.spacing, drop_location as int)
            } else {
                None
            },
            _ => None,
        }
    }

    /// The marker of the seam at height `y`, for a line `thickness` thick
    /// and a ring of radius `radius` drawn with a stroke of that thickness.
    /// The line is centred on the seam and runs from the inner edge of the
    /// ring to the right edge of the content; the ring is centred on the
    /// point at which the seam meets the left edge of the content.
    pub open spec fn marker_at(&self, layout: &Layout, y: i64, thickness: u32, radius: u32) -> Marker {
        let start = layout.bounds.left + self.padding.left;
        let inner = radius - thickness;
        Marker {
            y,
            line: Quad {
                x: (start + inner) as i64,
                y: (y - thickness / 2) as i64,
                width: (layout.bounds.right - layout.bounds.left - self.padding.spec_horizontal()
                    - inner) as i64,
                height: thickness as i64,
            },
            cap: Quad {
                x: (start - radius) as i64,
                y: (y - radius) as i64,
                width: (2 * radius) as i64,
                height: (2 * radius) as i64,
            },
        }
    }

    /// The marker to paint: that of the seam at which the dragged entry
    /// would land, where an entry is dragged and the list marks drop
    /// positions.
    pub open spec fn shown_marker_shapes(
        &self,
        drag: DragState<Key>,
        layout: &Layout,
        thickness: u32,
        radius: u32,
    ) -> Option<Marker> {
        match self.shown_marker(drag, layout) {
            Some(y) => Some(self.marker_at(layout, y, thickness, radius)),
            None => None,
        }
    }

    /// The marker of the drop position for the list in drag state `state`,
    /// laid out as in `layout`: a line `thickness` thick and a ring of radius
    /// `radius`. Returns `None` where no marker is to be painted.
    pub fn marker(&self, state: &State<Key>, layout: &Layout, thickness: u32, radius: u32) -> (marker:
        Option<Marker>)
        ensures
            marker == self.shown_marker_shapes(state.drag, layout, thickness, radius),
            marker is Some <==> self.shown_marker(state.drag, layout) is Some,
    {
        let y = match state.drag {
            DragState::Dragged { drop_location, .. } => if self.drop_position_marker {
                drop_location_marker_y(layout, self.spacing, drop_location)
            } else {
                None
            },
            _ => None,
        };
        match y {
            Some(y) => {
                let start: i64 = layout.bounds.left as i64 + self.padding.left as i64;
                let inner: i64 = radius as i64 - thickness as i64;
                let width: i64 = layout.bounds.right as i64 - layout.bounds.left as i64;
                let room: i64 = self.padding.horizontal() as i64;
                Some(
                    Marker {
                        y,
                        line: Quad {
                            x: start + inner,
                            y: y - (thickness / 2) as i64,
                            width: width - room - inner,
                            height: thickness as i64,
                        },
                        cap: Quad {
                            x: start - radius as i64,
                            y: y - radius as i64,
                            width: 2 * (radius as i64),
                            height: 2 * (radius as i64),
                        },
                    },
                )
            },
            None => None,
        }
    }

    /// How far the dragged entry is moved from its place: as far as the
    /// pointer has come from where the drag set out, where the entry follows
    /// the pointer.
    pub open spec fn shown_translation(&self, drag: DragState<Key>) -> Vector {
        match drag {
            DragState::Dragged { origin, position, .. } => if self.drag_follow {
                Vector::spec_between(origin, position)
            } else {
                Vector { x: 0, y: 0 }
            },
            _ => Vector { x: 0, y: 0 },
        }
    }

    /// The key of the entry that follows the pointer: that of the dragged
    /// entry, where dragged entries follow the pointer.
    pub open spec fn follower(&self, drag: DragState<Key>) -> Option<Key> {
        match drag {
            DragState::Dragged { key, .. } => if self.drag_follow {
                Some(key)
            } else {
                None
            },
            _ => None,
        }
    }

    /// Whether the entry at `index` follows the pointer: its key equals that
    /// of the follower.
    pub open spec fn follows_pointer(&self, drag: DragState<Key>, index: int) -> bool {
        match self.follower(drag) {
            Some(key) => self.keys@[index].eq_spec(&key),
            None => false,
        }
    }

    /// Whether the entry at `index` is on show: its place shares a position
    /// with `viewport`.
    pub open spec fn on_show(layout: &Layout, viewport: &Rectangle, index: int) -> bool {
        layout.children@[index].spec_intersects(viewport)
    }

    /// What the paint pass does with the entry at `index`: nothing where it
    /// is not on show; else it paints the entry on top where it follows the
    /// pointer, and in its place where it does not.
    pub open spec fn paint_of(
        &self,
        drag: DragState<Key>,
        layout: &Layout,
        viewport: &Rectangle,
        index: int,
    ) -> Paint {
        if !Self::on_show(layout, viewport, index) {
            Paint::Hidden
        } else if self.follows_pointer(drag, index) {
            Paint::OnTop
        } else {
            Paint::InPlace
        }
    }

    /// Plans the paint pass of the list in drag state `state`, laid out as in
    /// `layout`, of which `viewport` is visible. Returns `None` where nothing
    /// of the list is visible.
    ///
    /// Which entries carry the key of the follower is decided by the key's
    /// `==`. Where an entry follows the pointer, what the plan says of the
    /// entries on show holds for every key type whose `==` does what its
    /// `eq_spec` says; where none does, it holds for every key type.
    pub fn draw(&self, state: &State<Key>, layout: &Layout, viewport: &Rectangle) -> (plan: Option<
        DrawPlan,
    >)
        ensures
            plan is None <==> layout.bounds.spec_intersection(viewport) is None,
            match plan {
                Some(plan) => {
                    &&& Some(plan.viewport) == self.shown_viewport(layout, viewport)
                    &&& plan.overlay_viewport == *viewport
                    &&& plan.marker_y == self.shown_marker(state.drag, layout)
                    &&& plan.translation == self.shown_translation(state.drag)
                    &&& plan.children@.len() == self.entry_count(layout)
                    &&& forall|index: int|
                        0 <= index < plan.children@.len() ==> (#[trigger] plan.children@[index]
                            is Hidden <==> !Self::on_show(layout, &plan.viewport, index))
                    &&& forall|index: int|
                        0 <= index < plan.children@.len() && (Key::obeys_eq_spec() || self.follower(
                            state.drag,
                        ) is None) ==> #[trigger] plan.children@[index] == self.paint_of(
                            state.drag,
                            layout,
                            &plan.viewport,
                            index,
                        )
                    &&& plan.overlay <==> plan.marker_y is Some || exists|index: int|
                        0 <= index < plan.children@.len() && #[trigger] plan.children@[index]
                            is OnTop
                },
                None => true,
            },
    {
        let shown = match layout.bounds.intersection(viewport) {
            Some(common) => if self.clip {
                common
            } else {
                *viewport
            },
            None => {
                return None;
            },
        };
        let mut marker_y: Option<i64> = None;
        let mut follower: Option<Key> = None;
        let mut translation = Vector::zero();
        if let DragState::Dragged { key, origin, position, drop_location } = state.drag {
            if self.drop_position_marker {
                marker_y = drop_location_marker_y(layout, self.spacing, drop_location);
            }
            if self.drag_follow {
                follower = Some(key);
                translation = Vector::between(origin, position);
            }
        }
        let count = self.count_entries(layout);
        let mut children: Vec<Paint> = Vec::new();
        let mut lifted = false;
        let mut index: usize = 0;
        while index < count
            invariant
                index <= count,
                count == self.entry_count(layout),
                follower == self.follower(state.drag),
                children@.len() == index,
                forall|i: int|
                    0 <= i < index ==> (#[trigger] children@[i] is Hidden <==> !Self::on_show(
                        layout,
                        &shown,
                        i,
                    )),
                forall|i: int|
                    0 <= i < index && (Key::obeys_eq_spec() || follower is None)
                        ==> #[trigger] children@[i] == self.paint_of(state.drag, layout, &shown, i),
                lifted <==> exists|i: int| 0 <= i < index && #[trigger] children@[i] is OnTop,
            decreases count - index,
        {
            let paint = if !layout.children[index].intersects(&shown) {
                Paint::Hidden
            } else {
                let follows = match follower {
                    Some(key) => self.keys[index] == key,
                    None => false,
                };
                if follows {
                    Paint::OnTop
                } else {
                    Paint::InPlace
                }
            };
            let ghost before = children@;
            children.push(paint);
            proof {
                if paint == Paint::OnTop {
                    assert(children@[index as int] is OnTop);
                } else if lifted {
                    let i = choose|i: int| 0 <= i < index && #[trigger] before[i] is OnTop;
                    assert(children@[i] is OnTop);
                } else {
                    assert forall|i: int| 0 <= i < index + 1 implies !(#[trigger] children@[i]
                        is OnTop) by {
                        if i < index {
                            assert(children@[i] == before[i]);
                        }
                    }
                }
            }
            if let Paint::OnTop = paint {
                lifted = true;
            }
            index += 1;
        }
        Some(
            DrawPlan {
                viewport: shown,
                children,
                overlay: marker_y.is_some() || lifted,
                overlay_viewport: *viewport,
                marker_y,
                translation,
            },
        )
    }
}

/// The marker line ends where the content of the list ends on the right,
/// begins where the stroke of the ring ends, and has the seam in its middle;
/// the ring has the seam through its centre, and its centre on the left edge
/// of the content.
pub proof fn lemma_marker_spans_the_content<Key>(
    column: Column<Key>,
    layout: Layout,
    y: i64,
    thickness: u32,
    radius: u32,
) where Key: Copy + PartialEq
    requires
        i32::MIN - u32::MAX <= y <= i32::MAX + u32::MAX,
    ensures
        ({
            let marker = column.marker_at(&layout, y, thickness, radius);
            let content_left = layout.bounds.left + column.padding.left;
            let content_right = layout.bounds.right - column.padding.right;
            &&& marker.line.x + marker.line.width == content_right
            &&& marker.line.x == marker.cap.x + marker.cap.width - thickness
            &&& marker.line.y <= y <= marker.line.y + marker.line.height
            &&& 2 * (y - marker.line.y) <= thickness <= 2 * (y - marker.line.y) + 1
            &&& 2 * (y - marker.cap.y) == marker.cap.height
            &&& 2 * (content_left - marker.cap.x) == marker.cap.width
        }),
{
}

/// Without an entry that follows the pointer nothing is painted on top but
/// the marker, and every entry on show is painted in its place.
pub proof fn lemma_nothing_follows_unless_dragged<Key>(
    column: Column<Key>,
    drag: DragState<Key>,
    layout: Layout,
    viewport: Rectangle,
    index: int,
) where Key: Copy + PartialEq
    requires
        !(drag is Dragged) || !column.drag_follow,
    ensures
        column.paint_of(drag, &layout, &viewport, index) != Paint::OnTop,
        column.shown_translation(drag) == (Vector { x: 0, y: 0 }),
        Column::<Key>::on_show(&layout, &viewport, index) ==> column.paint_of(
            drag,
            &layout,
            &viewport,
            index,
        ) == Paint::InPlace,
{
}

} // verus!
