//! What a notifier needs to know of an incoming user-interface event.

use vstd::prelude::*;
use crate::when::When;

verus! {

/// An event as the notifier sees it.
///
/// Only a redraw request carries the child's visibility: on any other event
/// the visibility is neither needed nor looked at.
#[derive(Debug, Clone, Copy, PartialEq, Eq, Structural)]
pub enum Event {
    /// A redraw of the window was requested. `is_visible` tells whether the
    /// child's layout bounds intersect the viewport expanded by the margin.
    RedrawRequested { is_visible: bool },
    /// Any other event: keyboard, pointer, touch, or another window event.
    Other,
}

impl Event {
    /// Whether this event is a redraw request on which the child is in the
    /// state that `when` waits for.
    pub open spec fn triggers(self, when: When) -> bool {
        match self {
            Event::RedrawRequested { is_visible } => when.is_met_by(is_visible),
            Event::Other => false,
        }
    }

    /// Whether this event is a redraw request.
    pub fn is_redraw_request(&self) -> (redraw: bool)
        ensures
            redraw == (self is RedrawRequested),
    {
        match self {
            Event::RedrawRequested { .. } => true,
            Event::Other => false,
        }
    }
}

} // verus!
