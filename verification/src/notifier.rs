//! The notifier: its configuration, its one-shot latch, and the decision it
//! takes on each event.

use vstd::prelude::*;
use crate::event::Event;
use crate::when::When;

verus! {

/// The one-shot latch of a notifier: unset until the message has been
/// published, set forever after.
#[derive(Debug)]
pub struct State {
    sent: bool,
}

impl State {
    /// Whether the latch is set.
    pub closed spec fn sent(&self) -> bool {
        self.sent
    }

    /// Whether the message has been published.
    pub fn is_sent(&self) -> (sent: bool)
        ensures
            sent == self.sent(),
    {
        self.sent
    }

    /// Sets the latch if `should_notify` holds, and tells whether this call
    /// is the one that set it.
    pub fn notify(&mut self, should_notify: bool) -> (first: bool)
        ensures
            first == (should_notify && !old(self).sent()),
            final(self).sent() == (old(self).sent() || should_notify),
    {
        if should_notify && !self.sent {
            self.sent = true;
            true
        } else {
            false
        }
    }
}

impl Default for State {
    /// The latch starts out unset.
    fn default() -> (state: Self)
        ensures
            !state.sent(),
    {
        State { sent: false }
    }
}

/// The mathematical model of a notifier: what it waits for, what it
/// publishes, and whether it has published already.
pub struct Model<Message> {
    pub when: When,
    pub message: Message,
    pub sent: bool,
}

impl<Message> Model<Message> {
    /// Whether the notifier publishes its message on `event`: the latch is
    /// unset and the event is a redraw request on which the target state
    /// holds.
    pub open spec fn publishes(self, event: Event) -> bool {
        !self.sent && event.triggers(self.when)
    }

    /// The notifier after `event`. Only the latch can change, and only from
    /// unset to set.
    pub open spec fn step(self, event: Event) -> Self {
        Model {
            when: self.when,
            message: self.message,
            sent: self.sent || event.triggers(self.when),
        }
    }
}

/// A notifier for one child element: publishes `message` once, on the first
/// redraw on which the child's visibility is what `when` asks for.
pub struct NotifyVisibility<Message> {
    when: When,
    message: Message,
    state: State,
}

impl<Message> View for NotifyVisibility<Message> {
    type V = Model<Message>;

    closed spec fn view(&self) -> Model<Message> {
        Model { when: self.when, message: self.message, sent: self.state.sent() }
    }
}

/// Creates a notifier that has not published yet.
pub fn notify_visibility<Message>(when: When, message: Message) -> (notifier: NotifyVisibility<
    Message,
>)
    ensures
        notifier@ == (Model { when, message, sent: false }),
{
    NotifyVisibility { when, message, state: State::default() }
}

impl<Message> NotifyVisibility<Message> {
    /// The state that the notifier waits for.
    pub fn when(&self) -> (target: When)
        ensures
            target == self@.when,
    {
        self.when
    }

    /// The message that the notifier publishes.
    pub fn message(&self) -> (message: &Message)
        ensures
            *message == self@.message,
    {
        &self.message
    }

    /// Whether the message has been published.
    pub fn is_sent(&self) -> (sent: bool)
        ensures
            sent == self@.sent,
    {
        self.state.is_sent()
    }

    /// Handles one event and returns the message to publish, if any.
    ///
    /// On a redraw request the child's visibility is compared with the
    /// target state; if they agree and nothing has been published yet, the
    /// latch is set and a clone of the message is returned. In every other
    /// case nothing is returned and the notifier is left as it was. The
    /// event itself is never consumed: the caller passes it on to the child
    /// whatever is returned here.
    pub fn on_event(&mut self, event: Event) -> (published: Option<Message>) where Message: Clone
        ensures
            final(self)@ == old(self)@.step(event),
            published is Some <==> old(self)@.publishes(event),
            published matches Some(message) ==> cloned(old(self)@.message, message),
    {
        match event {
            Event::RedrawRequested { is_visible } => {
                let should_notify = self.when.should_notify(is_visible);
                if self.state.notify(should_notify) {
                    Some(self.message.clone())
                } else {
                    None
                }
            },
            Event::Other => None,
        }
    }
}

} // verus!
