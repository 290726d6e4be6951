//! The input events that a list tells apart, and the rule by which it hands
//! them on to its entries.
use crate::drag::DragState;
use vstd::prelude::*;

verus! {

/// An input event, reduced to what the list reacts to.
#[derive(Clone, Copy, Debug, PartialEq, Eq, Hash, Structural)]
pub enum Event {
    /// The primary pointer button went down.
    ButtonPressed,
    /// The primary pointer button came up.
    ButtonReleased,
    /// The secondary pointer button went down.
    SecondaryPressed,
    /// The pointer moved.
    CursorMoved,
    /// A finger touched the surface.
    FingerPressed,
    /// A finger left the surface.
    FingerLifted,
    /// A finger moved on the surface.
    FingerMoved,
    /// The touch was taken away from the list.
    FingerLost,
    /// Any other event.
    Other,
}

impl Event {
    /// Whether the event starts an interaction.
    pub open spec fn spec_is_press(&self) -> bool {
        *self is ButtonPressed || *self is FingerPressed
    }

    /// Whether the event starts an interaction.
    #[verifier::when_used_as_spec(spec_is_press)]
    pub fn is_press(&self) -> (press: bool)
        ensures
            press == self.spec_is_press(),
    {
        match self {
            Event::ButtonPressed | Event::FingerPressed => true,
            _ => false,
        }
    }

    /// Whether the event ends an interaction by letting go.
    pub open spec fn spec_is_release(&self) -> bool {
        *self is ButtonReleased || *self is FingerLifted
    }

    /// Whether the event ends an interaction by letting go.
    #[verifier::when_used_as_spec(spec_is_release)]
    pub fn is_release(&self) -> (release: bool)
        ensures
            release == self.spec_is_release(),
    {
        match self {
            Event::ButtonReleased | Event::FingerLifted => true,
            _ => false,
        }
    }

    /// Whether the event reports a new pointer position.
    pub open spec fn spec_is_move(&self) -> bool {
        *self is CursorMoved || *self is FingerMoved
    }

    /// Whether the event reports a new pointer position.
    #[verifier::when_used_as_spec(spec_is_move)]
    pub fn is_move(&self) -> (moved: bool)
        ensures
            moved == self.spec_is_move(),
    {
        match self {
            Event::CursorMoved | Event::FingerMoved => true,
            _ => false,
        }
    }

    /// Whether the event calls an interaction off.
    pub open spec fn spec_is_abort(&self) -> bool {
        *self is SecondaryPressed || *self is FingerLost
    }

    /// Whether the event calls an interaction off.
    #[verifier::when_used_as_spec(spec_is_abort)]
    pub fn is_abort(&self) -> (abort: bool)
        ensures
            abort == self.spec_is_abort(),
    {
        match self {
            Event::SecondaryPressed | Event::FingerLost => true,
            _ => false,
        }
    }
}

/// What the entries of a list get to see of an event. While the list is
/// idle they see the event and the pointer as they are. While an entry is
/// grabbed or dragged they see no movement at all, and every other event
/// with the pointer `hidden` in place of the real one, so that none of them
/// reacts to what is dragged across it.
pub open spec fn forwarded<Cursor>(idle: bool, event: Event, cursor: Cursor, hidden: Cursor) -> Option<
    (Event, Cursor),
> {
    if idle {
        Some((event, cursor))
    } else if event.spec_is_move() {
        None
    } else {
        Some((event, hidden))
    }
}

/// Returns the event and the pointer to hand on to the entries of a list
/// in drag state `drag_state`, or `None` where the event is kept from them.
/// `hidden` is the pointer that the entries see while an entry is held.
pub fn propagage_event_to_children<K, Cursor>(
    drag_state: &DragState<K>,
    event: Event,
    cursor: Cursor,
    hidden: Cursor,
) -> (handed_on: Option<(Event, Cursor)>) where K: Copy + PartialEq
    ensures
        handed_on == forwarded(drag_state.spec_is_idle(), event, cursor, hidden),
{
    if !drag_state.is_idle() {
        if event.is_move() {
            None
        } else {
            Some((event, hidden))
        }
    } else {
        Some((event, cursor))
    }
}

/// While an entry is held the entries of the list see no movement of the
/// pointer, whatever else happens.
pub proof fn lemma_movement_is_withheld_while_busy<Cursor>(
    event: Event,
    cursor: Cursor,
    hidden: Cursor,
)
    ensures
        forwarded(false, event, cursor, hidden) is None <==> event.spec_is_move(),
        forwarded(true, event, cursor, hidden) == Some((event, cursor)),
{
}

} // verus!
