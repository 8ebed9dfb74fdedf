use vstd::prelude::*;

use crate::geom::{sat_add, Vec2};

verus! {

/// The keyboard keys the widget reacts to.
#[derive(Clone, Copy, PartialEq, Eq, Structural, Debug)]
pub enum Key {
    Enter,
    Left,
    Right,
    Up,
    Down,
}

/// Pointer buttons. Only the primary button activates tabs; the others are
/// kept so hit-testing can state exactly when nothing happens.
#[derive(Clone, Copy, PartialEq, Eq, Structural, Debug)]
pub enum MouseButton {
    Left,
    Right,
    Middle,
}

/// The pointer event classes the widget distinguishes.
#[derive(Clone, Copy, PartialEq, Eq, Structural, Debug)]
pub enum MouseEventKind {
    Press(MouseButton),
    Release(MouseButton),
    Hold(MouseButton),
    WheelUp,
    WheelDown,
}

impl MouseEventKind {
    /// Whether an event of this class claims keyboard focus for the region
    /// it lands in: presses and wheel turns do, releases and holds do not.
    pub open spec fn spec_grabs_focus(self) -> bool {
        match self {
            MouseEventKind::Press(_) => true,
            MouseEventKind::WheelUp => true,
            MouseEventKind::WheelDown => true,
            _ => false,
        }
    }

    #[verifier::when_used_as_spec(spec_grabs_focus)]
    pub fn grabs_focus(self) -> (r: bool)
        ensures
            r == self.spec_grabs_focus(),
    {
        match self {
            MouseEventKind::Press(_) => true,
            MouseEventKind::WheelUp => true,
            MouseEventKind::WheelDown => true,
            _ => false,
        }
    }
}

/// An input event, as plain grid coordinates and key names.
///
/// For pointer events, `position` is an absolute screen position and
/// `offset` is the screen position of the receiving view's top-left corner,
/// so `position - offset` is the position within the view. `Other` stands
/// for every event class the widget does not react to.
#[derive(Clone, Copy, PartialEq, Eq, Structural, Debug)]
pub enum Event {
    Key(Key),
    Mouse { offset: Vec2, position: Vec2, event: MouseEventKind },
    Other,
}

impl Event {
    /// The event as seen by a subview whose top-left corner lies at
    /// `top_left` within the receiver: a pointer event's view offset moves
    /// by that amount, every other event is unchanged.
    pub fn relativized(self, top_left: Vec2) -> (r: Event)
        ensures
            match self {
                Event::Mouse { offset, position, event } => r == (Event::Mouse {
                    offset: Vec2 { x: sat_add(offset.x, top_left.x), y: sat_add(offset.y, top_left.y) },
                    position,
                    event,
                }),
                _ => r == self,
            },
    {
        match self {
            Event::Mouse { offset, position, event } => Event::Mouse {
                offset: offset.saturating_add(top_left),
                position,
                event,
            },
            _ => self,
        }
    }
}

/// What a view reports back about an event it was offered.
#[derive(Clone, Copy, PartialEq, Eq, Structural, Debug)]
pub enum EventResult {
    Consumed,
    Ignored,
}

impl EventResult {
    /// Combines two results: the whole is consumed when either part is.
    pub fn and(self, other: EventResult) -> (r: EventResult)
        ensures
            r == EventResult::Consumed <==> (self == EventResult::Consumed || other
                == EventResult::Consumed),
    {
        match (self, other) {
            (EventResult::Ignored, EventResult::Ignored) => EventResult::Ignored,
            _ => EventResult::Consumed,
        }
    }
}

/// The side a focus request enters a view from. `Neutral` stands for
/// requests without a direction, such as a pointer grab.
#[derive(Clone, Copy, PartialEq, Eq, Structural, Debug)]
pub enum Direction {
    Up,
    Down,
    Left,
    Right,
    Neutral,
}

/// Returned when a focus request cannot be satisfied because the target
/// has no focusable content.
#[derive(Clone, Copy, PartialEq, Eq, Structural, Debug)]
pub struct CannotFocus;

} // verus!
