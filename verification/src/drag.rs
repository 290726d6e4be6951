//! The drag state of a list: nothing going on, an entry grabbed, or an entry
//! being dragged.
use crate::geometry::Point;
use vstd::prelude::*;

verus! {

/// The current dragging state of a list.
#[derive(Clone, Copy, PartialEq, Debug)]
pub enum DragState<K> where K: Copy + PartialEq {
    /// No entry is being dragged.
    Idle,
    /// The entry `key` was pressed at `origin` and has not been moved yet.
    Grabbed { key: K, origin: Point },
    /// The entry `key` is being dragged: it set out at `origin`, the pointer
    /// was last seen at `position`, and let go now the entry would land at
    /// `drop_location`.
    Dragged { key: K, origin: Point, position: Point, drop_location: usize },
}

impl<K> DragState<K> where K: Copy + PartialEq {
    /// The key of the entry that is grabbed or dragged.
    pub open spec fn spec_key(&self) -> Option<K> {
        match *self {
            DragState::Idle => None,
            DragState::Grabbed { key, .. } => Some(key),
            DragState::Dragged { key, .. } => Some(key),
        }
    }

    /// The key of the entry that is grabbed or dragged.
    #[verifier::when_used_as_spec(spec_key)]
    pub fn key(&self) -> (key: Option<K>)
        ensures
            key == self.spec_key(),
    {
        match self {
            DragState::Idle => None,
            DragState::Grabbed { key, .. } => Some(*key),
            DragState::Dragged { key, .. } => Some(*key),
        }
    }

    /// Whether no entry is grabbed or dragged.
    pub open spec fn spec_is_idle(&self) -> bool {
        *self is Idle
    }

    /// Whether no entry is grabbed or dragged.
    #[verifier::when_used_as_spec(spec_is_idle)]
    pub fn is_idle(&self) -> (idle: bool)
        ensures
            idle == self.spec_is_idle(),
    {
        match self {
            DragState::Idle => true,
            _ => false,
        }
    }

    /// Where the pointer was last seen: at the place of the press while the
    /// entry is only grabbed, at the latest position once it is dragged.
    pub open spec fn spec_last_position(&self) -> Option<Point> {
        match *self {
            DragState::Idle => None,
            DragState::Grabbed { origin, .. } => Some(origin),
            DragState::Dragged { position, .. } => Some(position),
        }
    }

    /// Where the pointer was last seen.
    #[verifier::when_used_as_spec(spec_last_position)]
    pub fn last_position(&self) -> (position: Option<Point>)
        ensures
            position == self.spec_last_position(),
    {
        match self {
            DragState::Idle => None,
            DragState::Grabbed { origin, .. } => Some(*origin),
            DragState::Dragged { position, .. } => Some(*position),
        }
    }

    /// The index at which the dragged entry would land.
    pub open spec fn spec_drop_location(&self) -> Option<usize> {
        match *self {
            DragState::Dragged { drop_location, .. } => Some(drop_location),
            _ => None,
        }
    }

    /// The index at which the dragged entry would land.
    #[verifier::when_used_as_spec(spec_drop_location)]
    pub fn drop_location(&self) -> (location: Option<usize>)
        ensures
            location == self.spec_drop_location(),
    {
        match self {
            DragState::Dragged { drop_location, .. } => Some(*drop_location),
            _ => None,
        }
    }

    /// The invariant of a drag state over a list of `count` entries: the
    /// drop location of a dragged entry is an index of the list or the place
    /// behind its last entry.
    pub open spec fn fits(&self, count: nat) -> bool {
        match *self {
            DragState::Dragged { drop_location, .. } => drop_location <= count,
            _ => true,
        }
    }
}

impl<K> Default for DragState<K> where K: Copy + PartialEq {
    fn default() -> (state: Self)
        ensures
            state is Idle,
    {
        DragState::Idle
    }
}

/// What a list remembers from one event to the next.
#[derive(Clone, Copy, PartialEq, Debug)]
pub struct State<K> where K: Copy + PartialEq {
    pub drag: DragState<K>,
}

impl<K> Default for State<K> where K: Copy + PartialEq {
    fn default() -> (state: Self)
        ensures
            state.drag is Idle,
    {
        State { drag: DragState::Idle }
    }
}

} // verus!
