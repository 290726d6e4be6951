//! The core of a reorderable list: a vertical list of keyed entries that a
//! pointer or a finger can grab, drag and drop at another place.
//!
//! The crate decides and the caller acts. From the layout of the entries and
//! a stream of input events it works out which entry is grabbed, where it
//! would land, what the application is to be told, and what a paint pass has
//! to draw last. All geometry is on an integer grid.
pub mod column;
pub mod drag;
pub mod draw;
pub mod event;
pub mod geometry;
pub mod layout;
pub mod machine;
pub mod pointer;
pub mod reorder;

pub use column::{Column, Notification, Outcome};
pub use drag::{DragState, State};
pub use draw::{DrawPlan, Marker, Paint};
pub use event::{propagage_event_to_children, Event};
pub use geometry::{midpoint, Padding, Point, Quad, Rectangle, Vector};
pub use pointer::Interaction;
pub use reorder::reorder;
pub use layout::{drop_location, drop_location_marker_y, Layout};
