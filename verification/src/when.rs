//! The target condition of a notifier.

use vstd::prelude::*;

verus! {

/// The visibility state that a notifier waits for.
#[derive(Debug, Clone, Copy, PartialEq, Eq, Structural)]
pub enum When {
    /// Notify once the child is visible.
    Visible,
    /// Notify once the child is not visible.
    NotVisible,
}

impl When {
    /// Whether a child with the given visibility is in the target state.
    pub open spec fn is_met_by(self, is_visible: bool) -> bool {
        match self {
            When::Visible => is_visible,
            When::NotVisible => !is_visible,
        }
    }

    /// Decides whether a child with the given visibility is in the target
    /// state.
    pub fn should_notify(self, is_visible: bool) -> (notify: bool)
        ensures
            notify == self.is_met_by(is_visible),
    {
        match self {
            When::Visible => is_visible,
            When::NotVisible => !is_visible,
        }
    }
}

} // verus!
