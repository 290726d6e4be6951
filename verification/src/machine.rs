//! The drag state machine: what each input event does to the drag state of
//! a list, what it tells the application, and whether it asks for a repaint.
use crate::column::{Column, Notification, Outcome, Step};
use crate::drag::{DragState, State};
use crate::event::Event;
use crate::geometry::Point;
use crate::layout::{
    drop_index, drop_location, is_first_stop, lemma_drop_index_is_first_stop, Layout,
};
use vstd::prelude::*;

verus! {

impl<Key> Step<Key> where Key: Copy + PartialEq {
    /// The step that changes nothing, tells nothing and paints nothing.
    pub open spec fn stay(drag: DragState<Key>) -> Self {
        Step { drag, notifications: Seq::empty(), redraw: false }
    }
}

impl<Key> Column<Key> where Key: Copy + PartialEq {
    /// The position that a drag records for a pointer at `cursor`: the
    /// pointer's own where the entry follows it sideways, else the pointer's
    /// height in the column of `origin`.
    pub open spec fn spec_pinned(&self, origin: Point, cursor: Point) -> Point {
        Point { x: if self.drag_lateral { cursor.x } else { origin.x }, y: cursor.y }
    }

    /// The position that a drag records for a pointer at `cursor`.
    #[verifier::when_used_as_spec(spec_pinned)]
    pub fn pinned(&self, origin: Point, cursor: Point) -> (position: Point)
        ensures
            position == self.spec_pinned(origin, cursor),
    {
        Point { x: if self.drag_lateral { cursor.x } else { origin.x }, y: cursor.y }
    }

    /// A press. It counts only while the list is idle, no entry has claimed
    /// the event, and the pointer is over an entry of the list. That entry is
    /// grabbed. Where dragged entries are centred on the pointer the drag
    /// starts at once, from the centre of the entry.
    pub open spec fn pressed(
        &self,
        drag: DragState<Key>,
        layout: &Layout,
        cursor: Option<Point>,
        captured: bool,
    ) -> Step<Key> {
        if !(drag is Idle) || captured {
            Step::stay(drag)
        } else {
            match self.spec_child_at(layout, cursor) {
                None => Step::stay(drag),
                Some(index) => {
                    let key = self.keys@[index as int];
                    if self.drag_center {
                        let origin = layout.children@[index as int].spec_center();
                        let position = self.spec_pinned(origin, cursor.unwrap());
                        let location = drop_index(layout.children@, position.y as int) as usize;
                        Step {
                            drag: DragState::Dragged {
                                key,
                                origin,
                                position,
                                drop_location: location,
                            },
                            notifications: seq![
                                Notification::Grab(key),
                                Notification::Drag(key, location),
                            ],
                            redraw: true,
                        }
                    } else {
                        Step {
                            drag: DragState::Grabbed { key, origin: cursor.unwrap() },
                            notifications: seq![Notification::Grab(key)],
                            redraw: true,
                        }
                    }
                },
            }
        }
    }

    /// A press of the secondary button, or a touch that was lost. It calls
    /// off whatever is going on.
    pub open spec fn aborted(&self, drag: DragState<Key>) -> Step<Key> {
        match drag.spec_key() {
            Some(key) => Step {
                drag: DragState::Idle,
                notifications: seq![Notification::Cancel(key)],
                redraw: true,
            },
            None => Step::stay(drag),
        }
    }

    /// The height at which a dragged entry is let go: that of the pointer
    /// where it has a position, else the height last recorded.
    pub open spec fn spec_release_height(position: Point, cursor: Option<Point>) -> i32 {
        match cursor {
            Some(pointer) => pointer.y,
            None => position.y,
        }
    }

    /// The height at which a dragged entry is let go.
    #[verifier::when_used_as_spec(spec_release_height)]
    pub fn release_height(position: Point, cursor: Option<Point>) -> (y: i32)
        ensures
            y == Self::spec_release_height(position, cursor),
    {
        match cursor {
            Some(pointer) => pointer.y,
            None => position.y,
        }
    }

    /// A release. An entry that was grabbed and never moved is let go of
    /// without a drop. A dragged entry is dropped at the drop location that
    /// `layout` gives for the height at which it is let go.
    pub open spec fn released(
        &self,
        drag: DragState<Key>,
        layout: &Layout,
        cursor: Option<Point>,
    ) -> Step<Key> {
        match drag {
            DragState::Idle => Step::stay(drag),
            DragState::Grabbed { key, .. } => Step {
                drag: DragState::Idle,
                notifications: seq![Notification::Cancel(key)],
                redraw: false,
            },
            DragState::Dragged { key, position, .. } => Step {
                drag: DragState::Idle,
                notifications: seq![
                    Notification::Drop(
                        key,
                        drop_index(
                            layout.children@,
                            Self::spec_release_height(position, cursor) as int,
                        ) as usize,
                    ),
                ],
                redraw: false,
            },
        }
    }

    /// A movement of the pointer. While the list is idle it only asks for a
    /// repaint where the pointer is over the list. While an entry is held, a
    /// pointer that has a position other than the one last recorded drags the
    /// entry there; the application hears of it where the drop location is
    /// new, and the list is painted anew where the entry follows the pointer.
    pub open spec fn moved(
        &self,
        drag: DragState<Key>,
        layout: &Layout,
        cursor: Option<Point>,
    ) -> Step<Key> {
        match drag {
            DragState::Idle => Step {
                drag,
                notifications: Seq::empty(),
                redraw: layout.bounds.spec_is_under(cursor),
            },
            DragState::Grabbed { key, origin } | DragState::Dragged { key, origin, .. } => {
                if cursor is None || cursor == drag.spec_last_position() {
                    Step::stay(drag)
                } else {
                    let position = self.spec_pinned(origin, cursor.unwrap());
                    let location = drop_index(layout.children@, position.y as int) as usize;
                    Step {
                        drag: DragState::Dragged { key, origin, position, drop_location: location },
                        notifications: if drag.spec_drop_location() == Some(location) {
                            Seq::empty()
                        } else {
                            seq![Notification::Drag(key, location)]
                        },
                        redraw: self.drag_follow,
                    }
                }
            },
        }
    }

    /// One step of the state machine: what `event` does in drag state
    /// `drag`, with the entries laid out as in `layout`, the pointer at
    /// `cursor`, and `captured` saying whether an entry has claimed the event.
    pub open spec fn step(
        &self,
        drag: DragState<Key>,
        event: Event,
        layout: &Layout,
        cursor: Option<Point>,
        captured: bool,
    ) -> Step<Key> {
        if event.spec_is_press() {
            self.pressed(drag, layout, cursor, captured)
        } else if event.spec_is_abort() {
            self.aborted(drag)
        } else if event.spec_is_release() {
            self.released(drag, layout, cursor)
        } else if event.spec_is_move() {
            self.moved(drag, layout, cursor)
        } else {
            Step::stay(drag)
        }
    }

    /// Feeds one input event to the state machine. The entries must have
    /// seen the event before; `captured` says whether one of them claimed it.
    /// The drag state in `state` is replaced by the one that follows, and the
    /// notifications for the application come back in the order in which they
    /// are to be published.
    ///
    /// The contract ends with what the two searches of a step find, the
    /// entry under the pointer and the drop location of a height, so that a
    /// caller can work out the step over a layout that it knows.
    pub fn update(
        &self,
        state: &mut State<Key>,
        event: Event,
        layout: &Layout,
        cursor: Option<Point>,
        captured: bool,
    ) -> (outcome: Outcome<Key>)
        ensures
            final(state).drag == self.step(old(state).drag, event, layout, cursor, captured).drag,
            outcome.notifications@ == self.step(
                old(state).drag,
                event,
                layout,
                cursor,
                captured,
            ).notifications,
            outcome.redraw == self.step(old(state).drag, event, layout, cursor, captured).redraw,
            old(state).drag.fits(layout.children@.len()) ==> final(state).drag.fits(
                layout.children@.len(),
            ),
            self.is_grabbed_at(layout, cursor, self.spec_child_at(layout, cursor)),
            forall|y: int| is_first_stop(layout.children@, y, #[trigger] drop_index(layout.children@, y)),
    {
        proof {
            self.lemma_child_at_is_grabbed(layout, cursor);
            assert forall|y: int|
                is_first_stop(layout.children@, y, #[trigger] drop_index(layout.children@, y)) by {
                lemma_drop_index_is_first_stop(layout.children@, y);
            }
        }
        let mut notifications: Vec<Notification<Key>> = Vec::new();
        let mut redraw = false;
        let drag = state.drag;
        if event.is_press() {
            if drag.is_idle() && !captured {
                if let Some(index) = self.child_at(layout, cursor) {
                    let key = self.keys[index];
                    let pointer = cursor.unwrap();
                    notifications.push(Notification::Grab(key));
                    if self.drag_center {
                        let origin = layout.children[index].center();
                        let position = self.pinned(origin, pointer);
                        let location = drop_location(layout, position);
                        notifications.push(Notification::Drag(key, location));
                        state.drag =
                        DragState::Dragged { key, origin, position, drop_location: location };
                    } else {
                        state.drag = DragState::Grabbed { key, origin: pointer };
                    }
                    redraw = true;
                }
            }
        } else if event.is_abort() {
            if let Some(key) = drag.key() {
                state.drag = DragState::Idle;
                notifications.push(Notification::Cancel(key));
                redraw = true;
            }
        } else if event.is_release() {
            match drag {
                DragState::Idle => {},
                DragState::Grabbed { key, .. } => {
                    notifications.push(Notification::Cancel(key));
                    state.drag = DragState::Idle;
                },
                DragState::Dragged { key, position, .. } => {
                    let at = Point { x: position.x, y: Self::release_height(position, cursor) };
                    notifications.push(Notification::Drop(key, drop_location(layout, at)));
                    state.drag = DragState::Idle;
                },
            }
        } else if event.is_move() {
            match drag {
                DragState::Idle => {
                    redraw = layout.bounds.is_under(cursor);
                },
                DragState::Grabbed { key, origin } | DragState::Dragged { key, origin, .. } => {
                    if let Some(pointer) = cursor {
                        let last = drag.last_position();
                        if last.is_none() || !(last.unwrap() == pointer) {
                            let position = self.pinned(origin, pointer);
                            let location = drop_location(layout, position);
                            let known = match drag.drop_location() {
                                Some(previous) => previous == location,
                                None => false,
                            };
                            if !known {
                                notifications.push(Notification::Drag(key, location));
                            }
                            state.drag =
                            DragState::Dragged { key, origin, position, drop_location: location };
                            redraw = self.drag_follow;
                        }
                    }
                },
            }
        }
        Outcome { notifications, redraw }
    }
}

/// A press that is at once followed by a release, in a list that does not
/// centre dragged entries on the pointer, never drops anything. Where the
/// press grabs an entry, the application hears of the grab and then of its
/// cancellation; where it grabs none, it hears nothing. Either way the list
/// is idle afterwards.
pub proof fn lemma_press_then_release_cancels<Key>(
    column: Column<Key>,
    press: Event,
    layout: Layout,
    cursor: Option<Point>,
    captured: bool,
    release: Event,
    later_layout: Layout,
    later_cursor: Option<Point>,
    later_captured: bool,
) where Key: Copy + PartialEq
    requires
        press.spec_is_press(),
        release.spec_is_release(),
        !column.drag_center,
    ensures
        ({
            let first = column.step(DragState::Idle, press, &layout, cursor, captured);
            let second = column.step(
                first.drag,
                release,
                &later_layout,
                later_cursor,
                later_captured,
            );
            let told = first.notifications + second.notifications;
            let grabbed = if captured {
                None
            } else {
                column.spec_child_at(&layout, cursor)
            };
            &&& second.drag is Idle
            &&& forall|i: int| 0 <= i < told.len() ==> !(#[trigger] told[i] is Drop)
            &&& match grabbed {
                Some(index) => told == seq![
                    Notification::Grab(column.keys@[index as int]),
                    Notification::Cancel(column.keys@[index as int]),
                ],
                None => told == Seq::<Notification<Key>>::empty(),
            }
        }),
{
    let first = column.step(DragState::Idle, press, &layout, cursor, captured);
    let second = column.step(first.drag, release, &later_layout, later_cursor, later_captured);
    let told = first.notifications + second.notifications;
    let grabbed = if captured {
        None
    } else {
        column.spec_child_at(&layout, cursor)
    };
    match grabbed {
        Some(index) => {
            let key = column.keys@[index as int];
            assert(told =~= seq![Notification::Grab(key), Notification::Cancel(key)]);
        },
        None => {
            assert(told =~= Seq::<Notification<Key>>::empty());
        },
    }
}

/// A press of the secondary button, or a lost touch, while an entry is
/// grabbed or dragged always leaves the list idle, tells the application of
/// exactly one cancellation, that of the entry, and asks for a repaint.
pub proof fn lemma_abort_cancels_once<Key>(
    column: Column<Key>,
    drag: DragState<Key>,
    abort: Event,
    layout: Layout,
    cursor: Option<Point>,
    captured: bool,
) where Key: Copy + PartialEq
    requires
        abort.spec_is_abort(),
        !(drag is Idle),
    ensures
        column.step(drag, abort, &layout, cursor, captured) == (Step {
            drag: DragState::Idle,
            notifications: seq![Notification::Cancel(drag.spec_key().unwrap())],
            redraw: true,
        }),
{
}

/// No event moves a drop location out of the list: after any step over a
/// layout of `n` entries, the drop location of a dragged entry is at most
/// `n`, provided it was before.
pub proof fn lemma_step_keeps_drop_location_in_list<Key>(
    column: Column<Key>,
    drag: DragState<Key>,
    event: Event,
    layout: Layout,
    cursor: Option<Point>,
    captured: bool,
) where Key: Copy + PartialEq
    requires
        drag.fits(layout.children@.len()),
    ensures
        column.step(drag, event, &layout, cursor, captured).drag.fits(layout.children@.len()),
{
    let next = column.step(drag, event, &layout, cursor, captured).drag;
    match next {
        DragState::Dragged { position, .. } => {
            lemma_drop_index_is_first_stop(layout.children@, position.y as int);
        },
        _ => {},
    }
}

/// Without a recognised event nothing happens: the drag state changes only
/// on a press, a release, a movement or a cancellation.
pub proof fn lemma_other_events_change_nothing<Key>(
    column: Column<Key>,
    drag: DragState<Key>,
    layout: Layout,
    cursor: Option<Point>,
    captured: bool,
) where Key: Copy + PartialEq
    ensures
        column.step(drag, Event::Other, &layout, cursor, captured) == Step::stay(drag),
{
}

/// Every drop location that the application is told of lies in the list:
/// it is at most the number of entries of the layout at hand.
pub proof fn lemma_told_locations_lie_in_list<Key>(
    column: Column<Key>,
    drag: DragState<Key>,
    event: Event,
    layout: Layout,
    cursor: Option<Point>,
    captured: bool,
) where Key: Copy + PartialEq
    ensures
        ({
            let told = column.step(drag, event, &layout, cursor, captured).notifications;
            forall|i: int|
                0 <= i < told.len() ==> match #[trigger] told[i] {
                    Notification::Drag(_, location) => location <= layout.children@.len(),
                    Notification::Drop(_, location) => location <= layout.children@.len(),
                    _ => true,
                }
        }),
{
    let next = column.step(drag, event, &layout, cursor, captured);
    match next.drag {
        DragState::Dragged { position, .. } => {
            lemma_drop_index_is_first_stop(layout.children@, position.y as int);
        },
        _ => {},
    }
    match drag {
        DragState::Dragged { position, .. } => {
            lemma_drop_index_is_first_stop(
                layout.children@,
                Column::<Key>::spec_release_height(position, cursor) as int,
            );
        },
        _ => {},
    }
}

/// A drop and a cancellation end the interaction: whenever the application
/// is told of one, the list is idle afterwards. And an interaction ends in no
/// other way: a step that takes a list from holding an entry to idle tells of
/// exactly one drop or cancellation, that of the entry held.
pub proof fn lemma_drop_and_cancel_end_the_interaction<Key>(
    column: Column<Key>,
    drag: DragState<Key>,
    event: Event,
    layout: Layout,
    cursor: Option<Point>,
    captured: bool,
) where Key: Copy + PartialEq
    ensures
        ({
            let next = column.step(drag, event, &layout, cursor, captured);
            &&& (exists|i: int|
                0 <= i < next.notifications.len() && (#[trigger] next.notifications[i] is Drop
                    || next.notifications[i] is Cancel)) ==> next.drag is Idle
            &&& !(drag is Idle) && next.drag is Idle ==> {
                &&& next.notifications.len() == 1
                &&& next.notifications[0] is Drop || next.notifications[0] is Cancel
                &&& match next.notifications[0] {
                    Notification::Drop(key, _) => Some(key) == drag.spec_key(),
                    Notification::Cancel(key) => Some(key) == drag.spec_key(),
                    _ => false,
                }
            }
        }),
{
}

} // verus!
