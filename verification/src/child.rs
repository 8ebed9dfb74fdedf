use vstd::prelude::*;
use vstd::string::StrSliceExecFns;

use crate::event::{Direction, Event, EventResult};
use crate::geom::Vec2;

verus! {

/// The contract a hosted child view implements so the container can size,
/// lay out and drive it. The container never looks inside a child: it
/// only forwards these calls to the one current child and reports the
/// child's answers. Implementations outside this crate may wrap any
/// concrete widget; no promises are attached to the methods, so nothing
/// the container proves depends on how a child behaves.
pub trait ChildView {
    /// The size the child wants under the given constraint.
    fn required_size(&mut self, constraint: Vec2) -> Vec2;

    /// Grants the child its final extent for this frame.
    fn layout(&mut self, size: Vec2);

    /// Offers the child an event; the child says whether it took it.
    fn on_event(&mut self, event: Event) -> EventResult;

    /// Asks the child to accept keyboard focus entering from `source`;
    /// returns whether it did.
    fn take_focus(&mut self, source: Direction) -> bool;

    /// Whether the child wants a fresh layout pass.
    fn needs_relayout(&self) -> bool;
}

/// A minimal concrete child: a single line of text that may or may not
/// accept focus. One cell per byte of the text; it never consumes events
/// and never asks for a relayout.
pub struct TextPane {
    text: String,
    focusable: bool,
}

impl TextPane {
    pub closed spec fn spec_text(self) -> Seq<char> {
        self.text@
    }

    pub closed spec fn spec_focusable(self) -> bool {
        self.focusable
    }

    pub fn new(text: String, focusable: bool) -> (r: TextPane)
        ensures
            r.spec_text() == text@,
            r.spec_focusable() == focusable,
    {
        TextPane { text, focusable }
    }
}

impl ChildView for TextPane {
    fn required_size(&mut self, constraint: Vec2) -> Vec2 {
        let w = self.text.as_str().unicode_len();
        Vec2::new(if w == 0 { 1 } else { w }, 1)
    }

    fn layout(&mut self, size: Vec2) {
    }

    fn on_event(&mut self, event: Event) -> EventResult {
        EventResult::Ignored
    }

    fn take_focus(&mut self, source: Direction) -> bool {
        self.focusable
    }

    fn needs_relayout(&self) -> bool {
        false
    }
}

} // verus!
