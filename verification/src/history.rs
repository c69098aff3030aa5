//! What holds of a notifier over a whole sequence of events.
//!
//! `NotifyVisibility::on_event` is stated one event at a time, through
//! `Model::step` and `Model::publishes`. The functions here fold those over a
//! sequence of events, and the proofs show what the one-shot latch means for
//! the sequence as a whole.

use vstd::prelude::*;
use crate::event::Event;
use crate::notifier::Model;
use crate::when::When;

verus! {

impl<Message> Model<Message> {
    /// The notifier after it has handled all of `events`, first to last.
    pub open spec fn run(self, events: Seq<Event>) -> Self
        decreases events.len(),
    {
        if events.len() == 0 {
            self
        } else {
            self.run(events.drop_last()).step(events.last())
        }
    }

    /// Whether the notifier, started on `events`, publishes its message on
    /// the event at position `i`.
    pub open spec fn publishes_at(self, events: Seq<Event>, i: int) -> bool
        recommends
            0 <= i < events.len(),
    {
        self.run(events.take(i)).publishes(events[i])
    }

    /// Whether some event before position `n` of `events` is a redraw request
    /// on which the target state holds.
    pub open spec fn triggered_before(self, events: Seq<Event>, n: int) -> bool {
        exists|k: int| 0 <= k < n && (#[trigger] events[k]).triggers(self.when)
    }
}

/// Handling events never changes what a notifier waits for or what it
/// publishes, and its latch is set afterwards exactly if it was set before or
/// one of the events was a redraw request on which the target state held.
pub proof fn lemma_latch_after_run<Message>(model: Model<Message>, events: Seq<Event>)
    ensures
        model.run(events).when == model.when,
        model.run(events).message == model.message,
        model.run(events).sent == (model.sent || model.triggered_before(
            events,
            events.len() as int,
        )),
    decreases events.len(),
{
    if events.len() > 0 {
        let front = events.drop_last();
        let n = events.len() as int;
        lemma_latch_after_run(model, front);
        // A trigger among `events` is the last event or lies in `front`.
        if model.triggered_before(events, n) {
            let k = choose|k: int| 0 <= k < n && (#[trigger] events[k]).triggers(model.when);
            if k < n - 1 {
                assert(front[k].triggers(model.when));
            }
        }
    }
}

/// The message is published on the event at position `i` exactly if the
/// latch was unset at the start, that event is a redraw request on which the
/// target state holds, and no earlier event was one.
pub proof fn lemma_publishes_on_first_trigger<Message>(
    model: Model<Message>,
    events: Seq<Event>,
    i: int,
)
    requires
        0 <= i < events.len(),
    ensures
        model.publishes_at(events, i) <==> !model.sent && events[i].triggers(model.when)
            && !model.triggered_before(events, i),
{
    let before = events.take(i);
    lemma_latch_after_run(model, before);
    // A trigger among the first `i` events is one of `before`.
    if model.triggered_before(events, i) {
        let k = choose|k: int| 0 <= k < i && (#[trigger] events[k]).triggers(model.when);
        assert(before[k].triggers(model.when));
    }
}

/// Over any sequence of events the message is published at most once: no
/// two positions both publish it.
pub proof fn lemma_publishes_at_most_once<Message>(
    model: Model<Message>,
    events: Seq<Event>,
    i: int,
    j: int,
)
    requires
        0 <= i < events.len(),
        0 <= j < events.len(),
        i != j,
    ensures
        !(model.publishes_at(events, i) && model.publishes_at(events, j)),
{
    lemma_publishes_on_first_trigger(model, events, i);
    lemma_publishes_on_first_trigger(model, events, j);
}

/// If the latch is unset at the start and some event is a redraw request on
/// which the target state holds, the message is published on one of the
/// events. With `lemma_publishes_at_most_once`: it is published exactly once.
pub proof fn lemma_publishes_if_triggered<Message>(model: Model<Message>, events: Seq<Event>)
    requires
        !model.sent,
        model.triggered_before(events, events.len() as int),
    ensures
        exists|i: int| 0 <= i < events.len() && #[trigger] model.publishes_at(events, i),
    decreases events.len(),
{
    let n = events.len() as int;
    let front = events.drop_last();
    if model.triggered_before(front, n - 1) {
        // Published within `front`, hence at the same position of `events`.
        lemma_publishes_if_triggered(model, front);
        let i = choose|i: int| 0 <= i < n - 1 && #[trigger] model.publishes_at(front, i);
        assert(events.take(i) == front.take(i));
        assert(model.publishes_at(events, i));
    } else {
        // Nothing in `front` triggers, so the last event is the first that does.
        if model.triggered_before(events, n - 1) {
            let j = choose|j: int| 0 <= j < n - 1 && (#[trigger] events[j]).triggers(model.when);
            assert(front[j].triggers(model.when));
        }
        lemma_publishes_on_first_trigger(model, events, n - 1);
    }
}

/// Once the latch is set it stays set, and nothing is published again,
/// whatever events follow.
pub proof fn lemma_sent_is_final<Message>(model: Model<Message>, events: Seq<Event>, i: int)
    requires
        model.sent,
        0 <= i < events.len(),
    ensures
        model.run(events).sent,
        !model.publishes_at(events, i),
{
    lemma_latch_after_run(model, events);
    lemma_publishes_on_first_trigger(model, events, i);
}

/// A notifier that waits for the child to be visible, and has not published
/// yet, publishes on the first redraw request on which the child is visible:
/// not before, and never again after, even if the child is later hidden and
/// shown once more.
pub proof fn lemma_visible_publishes_on_first_visible_redraw<Message>(
    model: Model<Message>,
    events: Seq<Event>,
    i: int,
)
    requires
        model.when == When::Visible,
        !model.sent,
        0 <= i < events.len(),
    ensures
        model.publishes_at(events, i) <==> events[i] == (Event::RedrawRequested {
            is_visible: true,
        }) && forall|k: int|
            0 <= k < i ==> #[trigger] events[k] != (Event::RedrawRequested { is_visible: true }),
{
    lemma_publishes_on_first_trigger(model, events, i);
}

/// A notifier that waits for the child to be out of view, and has not
/// published yet, publishes on the first redraw request on which the child
/// is not visible: not before, and never again after, even if the child later
/// comes into view and leaves once more.
pub proof fn lemma_not_visible_publishes_on_first_hidden_redraw<Message>(
    model: Model<Message>,
    events: Seq<Event>,
    i: int,
)
    requires
        model.when == When::NotVisible,
        !model.sent,
        0 <= i < events.len(),
    ensures
        model.publishes_at(events, i) <==> events[i] == (Event::RedrawRequested {
            is_visible: false,
        }) && forall|k: int|
            0 <= k < i ==> #[trigger] events[k] != (Event::RedrawRequested { is_visible: false }),
{
    lemma_publishes_on_first_trigger(model, events, i);
}

/// An event that is not a redraw request publishes nothing and leaves the
/// notifier as it was, whether or not the latch is set.
pub proof fn lemma_other_events_are_ignored<Message>(model: Model<Message>, event: Event)
    requires
        !(event is RedrawRequested),
    ensures
        !model.publishes(event),
        model.step(event) == model,
{
}

} // verus!
