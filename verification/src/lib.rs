//! A one-shot visibility notifier.
//!
//! A notifier watches one child element of a user interface. On every redraw
//! it is told whether the child is visible, and the first time that the
//! visibility is what it waits for, it hands back a message to publish. After
//! that it stays silent for the rest of its life.
//!
//! The notifier only decides. Its caller, a widget that wraps the child,
//! measures the visibility (whether the child's layout bounds intersect the
//! viewport, expanded by a margin), publishes what the notifier hands back,
//! and passes every event on to the child.
//!
//! - [`when`]: the visibility state to wait for.
//! - [`event`]: an incoming event as the notifier sees it.
//! - [`notifier`]: the notifier, its latch, and its model.
//! - [`history`]: what the latch guarantees over a sequence of events.

pub mod event;
pub mod history;
pub mod notifier;
pub mod when;

pub use event::Event;
pub use notifier::{notify_visibility, Model, NotifyVisibility, State};
pub use when::When;
