//! The event relay: one subscription, held open for as long as the daemon
//! keeps it, each notification posted once to the webhook.
//!
//! The relay does no I/O itself. Whoever runs it performs the action it
//! names, reports what came of it as an event, and is told what to do next.
//! A failed delivery is reported and forgotten; only the end of the
//! subscription ends the relay.

use vstd::prelude::*;

verus! {

/// Where the relay stands.
///
/// `AwaitingItem` and `Delivering` together are the forwarding state;
/// `Unsubscribing` and `Terminated` follow the end of the subscription.
#[derive(Debug, Clone, Copy, PartialEq, Eq, Structural)]
pub enum RelayState {
    /// The subscription request is under way.
    Subscribing,
    /// Forwarding: the next item of the subscription is awaited.
    AwaitingItem,
    /// Forwarding: one notification is being posted to the webhook.
    Delivering,
    /// The subscription has ended and the daemon is being told so.
    Unsubscribing,
    /// The relay is done.
    Terminated,
}

impl RelayState {
    /// The subscription is open and notifications are being forwarded.
    pub open spec fn is_forwarding(self) -> bool {
        self == RelayState::AwaitingItem || self == RelayState::Delivering
    }
}

/// What has happened around the relay. A failure carries its cause as text.
#[derive(Debug, PartialEq, Eq)]
pub enum RelayEvent<P> {
    /// The subscription request was answered.
    Subscribed(Result<(), String>),
    /// The subscription yielded its next item: a notification, an item that
    /// could not be decoded, or `None` at its end.
    Item(Option<Result<P, String>>),
    /// The webhook answered the post.
    Delivered(Result<(), String>),
    /// The unsubscribe call was answered.
    Unsubscribed(Result<(), String>),
}

/// Why the relay as a whole failed.
#[derive(Debug, PartialEq, Eq)]
pub enum RelayError {
    /// The subscription could not be opened.
    Subscribe(String),
    /// The daemon could not be told that the consumer is gone.
    Unsubscribe(String),
}

/// What the relay asks for next.
#[derive(Debug, PartialEq, Eq)]
pub enum RelayAction<P> {
    /// Draw the next item of the subscription.
    AwaitItem,
    /// Post this notification, as it is, to the webhook: one attempt.
    Post(P),
    /// Tell the daemon that the consumer is gone.
    Unsubscribe,
    /// Stop, with this as the relay's result.
    Finish(Result<(), RelayError>),
}

/// The relay's answer to an event: a failure to put on record, if the event
/// was one, and the action to take.
#[derive(Debug, PartialEq, Eq)]
pub struct Reaction<P> {
    /// The cause of a failure that is reported and then dropped.
    pub report: Option<String>,
    /// What to do next.
    pub action: RelayAction<P>,
}

/// The relay's rules: the state and the reaction that follow an event, or
/// `None` for an event that the state does not wait for.
pub open spec fn react<P>(state: RelayState, event: RelayEvent<P>) -> Option<
    (RelayState, Reaction<P>),
> {
    match (state, event) {
        (RelayState::Subscribing, RelayEvent::Subscribed(Ok(()))) => Some(
            (RelayState::AwaitingItem, Reaction { report: None, action: RelayAction::AwaitItem }),
        ),
        (RelayState::Subscribing, RelayEvent::Subscribed(Err(cause))) => Some(
            (
                RelayState::Terminated,
                Reaction {
                    report: None,
                    action: RelayAction::Finish(Err(RelayError::Subscribe(cause))),
                },
            ),
        ),
        (RelayState::AwaitingItem, RelayEvent::Item(Some(Ok(payload)))) => Some(
            (RelayState::Delivering, Reaction { report: None, action: RelayAction::Post(payload) }),
        ),
        (RelayState::AwaitingItem, RelayEvent::Item(Some(Err(cause)))) => Some(
            (
                RelayState::AwaitingItem,
                Reaction { report: Some(cause), action: RelayAction::AwaitItem },
            ),
        ),
        (RelayState::AwaitingItem, RelayEvent::Item(None)) => Some(
            (
                RelayState::Unsubscribing,
                Reaction { report: None, action: RelayAction::Unsubscribe },
            ),
        ),
        (RelayState::Delivering, RelayEvent::Delivered(Ok(()))) => Some(
            (RelayState::AwaitingItem, Reaction { report: None, action: RelayAction::AwaitItem }),
        ),
        (RelayState::Delivering, RelayEvent::Delivered(Err(cause))) => Some(
            (
                RelayState::AwaitingItem,
                Reaction { report: Some(cause), action: RelayAction::AwaitItem },
            ),
        ),
        (RelayState::Unsubscribing, RelayEvent::Unsubscribed(Ok(()))) => Some(
            (RelayState::Terminated, Reaction { report: None, action: RelayAction::Finish(Ok(())) }),
        ),
        (RelayState::Unsubscribing, RelayEvent::Unsubscribed(Err(cause))) => Some(
            (
                RelayState::Terminated,
                Reaction {
                    report: None,
                    action: RelayAction::Finish(Err(RelayError::Unsubscribe(cause))),
                },
            ),
        ),
        _ => None,
    }
}

/// The relay: nothing but its state.
pub struct Relay {
    state: RelayState,
}

impl View for Relay {
    type V = RelayState;

    closed spec fn view(&self) -> RelayState {
        self.state
    }
}

impl Relay {
    /// A relay whose subscription request has just been issued.
    pub fn new() -> (relay: Relay)
        ensures
            relay@ == RelayState::Subscribing,
    {
        Relay { state: RelayState::Subscribing }
    }

    /// Where the relay stands.
    pub fn state(&self) -> (state: RelayState)
        ensures
            state == self@,
    {
        self.state
    }

    /// Takes in one event and says what to do next.
    ///
    /// An event that the relay is not waiting for changes nothing and is
    /// answered with `None`.
    pub fn step<P>(&mut self, event: RelayEvent<P>) -> (reaction: Option<Reaction<P>>)
        ensures
            match react(old(self)@, event) {
                Some((next, expected)) => final(self)@ == next && reaction == Some(expected),
                None => final(self)@ == old(self)@ && reaction is None,
            },
    {
        match (self.state, event) {
            (RelayState::Subscribing, RelayEvent::Subscribed(Ok(()))) => {
                self.state = RelayState::AwaitingItem;
                Some(Reaction { report: None, action: RelayAction::AwaitItem })
            },
            (RelayState::Subscribing, RelayEvent::Subscribed(Err(cause))) => {
                self.state = RelayState::Terminated;
                Some(
                    Reaction {
                        report: None,
                        action: RelayAction::Finish(Err(RelayError::Subscribe(cause))),
                    },
                )
            },
            (RelayState::AwaitingItem, RelayEvent::Item(Some(Ok(payload)))) => {
                self.state = RelayState::Delivering;
                Some(Reaction { report: None, action: RelayAction::Post(payload) })
            },
            (RelayState::AwaitingItem, RelayEvent::Item(Some(Err(cause)))) => {
                Some(Reaction { report: Some(cause), action: RelayAction::AwaitItem })
            },
            (RelayState::AwaitingItem, RelayEvent::Item(None)) => {
                self.state = RelayState::Unsubscribing;
                Some(Reaction { report: None, action: RelayAction::Unsubscribe })
            },
            (RelayState::Delivering, RelayEvent::Delivered(outcome)) => {
                self.state = RelayState::AwaitingItem;
                match outcome {
                    Ok(()) => Some(Reaction { report: None, action: RelayAction::AwaitItem }),
                    Err(cause) => Some(
                        Reaction { report: Some(cause), action: RelayAction::AwaitItem },
                    ),
                }
            },
            (RelayState::Unsubscribing, RelayEvent::Unsubscribed(outcome)) => {
                self.state = RelayState::Terminated;
                match outcome {
                    Ok(()) => Some(Reaction { report: None, action: RelayAction::Finish(Ok(())) }),
                    Err(cause) => Some(
                        Reaction {
                            report: None,
                            action: RelayAction::Finish(Err(RelayError::Unsubscribe(cause))),
                        },
                    ),
                }
            },
            _ => None,
        }
    }
}

/// Where a run of the relay ends and what it asked for on the way.
pub struct Trace<P> {
    /// The state after the last event.
    pub state: RelayState,
    /// The reactions to the events that were taken in, in order.
    pub reactions: Seq<Reaction<P>>,
}

/// The relay run over a sequence of events, starting from `state`. Events
/// that the relay does not wait for are passed over.
pub open spec fn run<P>(state: RelayState, events: Seq<RelayEvent<P>>) -> Trace<P>
    decreases events.len(),
{
    if events.len() == 0 {
        Trace { state, reactions: Seq::empty() }
    } else {
        match react(state, events[0]) {
            Some((next, reaction)) => {
                let rest = run(next, events.drop_first());
                Trace { state: rest.state, reactions: seq![reaction] + rest.reactions }
            },
            None => run(state, events.drop_first()),
        }
    }
}

/// The notifications that a sequence of reactions asks to post, in order.
pub open spec fn posted<P>(reactions: Seq<Reaction<P>>) -> Seq<P>
    decreases reactions.len(),
{
    if reactions.len() == 0 {
        Seq::empty()
    } else {
        match reactions[0].action {
            RelayAction::Post(payload) => seq![payload] + posted(reactions.drop_first()),
            _ => posted(reactions.drop_first()),
        }
    }
}

/// How many unsubscribe calls a sequence of reactions asks for.
pub open spec fn unsubscribes<P>(reactions: Seq<Reaction<P>>) -> nat
    decreases reactions.len(),
{
    if reactions.len() == 0 {
        0
    } else {
        let first: nat = if reactions[0].action is Unsubscribe {
            1
        } else {
            0
        };
        first + unsubscribes(reactions.drop_first())
    }
}

/// What happens while `items` arrive one after the other and the webhook
/// answers the post of each with the outcome at the same index.
pub open spec fn deliveries<P>(items: Seq<P>, outcomes: Seq<Result<(), String>>) -> Seq<
    RelayEvent<P>,
>
    recommends
        items.len() == outcomes.len(),
    decreases items.len(),
{
    if items.len() == 0 || outcomes.len() == 0 {
        Seq::empty()
    } else {
        seq![RelayEvent::Item(Some(Ok(items[0]))), RelayEvent::Delivered(outcomes[0])]
            + deliveries(items.drop_first(), outcomes.drop_first())
    }
}

/// The most unsubscribe calls that can still come from a state.
pub open spec fn unsubscribes_ahead(state: RelayState) -> nat {
    match state {
        RelayState::Unsubscribing | RelayState::Terminated => 0,
        _ => 1,
    }
}

/// No failed delivery stops the relay.
///
/// For every sequence of notifications, and whatever the webhook answers to
/// each post (success or any failure): the relay asks for one post per
/// notification, in the order of arrival; it never asks to unsubscribe or to
/// stop; and it ends where it began, waiting for the next item of the
/// subscription, which is still open.
pub proof fn law_failures_do_not_stop_forwarding<P>(
    items: Seq<P>,
    outcomes: Seq<Result<(), String>>,
)
    requires
        items.len() == outcomes.len(),
    ensures
        run(RelayState::AwaitingItem, deliveries(items, outcomes)).state
            == RelayState::AwaitingItem,
        posted(run(RelayState::AwaitingItem, deliveries(items, outcomes)).reactions) == items,
        run(RelayState::AwaitingItem, deliveries(items, outcomes)).reactions.len() == 2
            * items.len(),
        forall|k: int|
            0 <= k < 2 * items.len() ==> {
                let action = #[trigger] run(
                    RelayState::AwaitingItem,
                    deliveries(items, outcomes),
                ).reactions[k].action;
                action is Post || action is AwaitItem
            },
    decreases items.len(),
{
    if items.len() > 0 {
        let events = deliveries(items, outcomes);
        let answered = events.drop_first();
        let later = deliveries(items.drop_first(), outcomes.drop_first());
        assert(answered.drop_first() =~= later);
        law_failures_do_not_stop_forwarding(items.drop_first(), outcomes.drop_first());

        let tail = run(RelayState::AwaitingItem, later);
        let middle = run(RelayState::Delivering, answered);
        let whole = run(RelayState::AwaitingItem, events);
        assert(middle.reactions.drop_first() =~= tail.reactions);
        assert(whole.reactions.drop_first() =~= middle.reactions);
        assert(posted(middle.reactions) == posted(tail.reactions));
        assert(posted(whole.reactions) =~= seq![items[0]] + items.drop_first());
        assert forall|k: int| 0 <= k < 2 * items.len() implies {
            let action = #[trigger] whole.reactions[k].action;
            action is Post || action is AwaitItem
        } by {
            if k >= 2 {
                assert(whole.reactions[k] == tail.reactions[k - 2]);
            }
        }
    }
}

/// Only the end of the subscription ends the forwarding.
///
/// For a relay that is forwarding, and every sequence of events in which the
/// subscription does not end (items that cannot be decoded, deliveries that
/// fail, events out of turn, all in any order): the relay is still
/// forwarding afterwards, and has asked for nothing but posts and further
/// items.
pub proof fn law_only_the_end_of_the_stream_stops_forwarding<P>(
    state: RelayState,
    events: Seq<RelayEvent<P>>,
)
    requires
        state.is_forwarding(),
        forall|i: int| 0 <= i < events.len() ==> events[i] != RelayEvent::<P>::Item(None),
    ensures
        run(state, events).state.is_forwarding(),
        forall|k: int|
            0 <= k < run(state, events).reactions.len() ==> {
                let action = #[trigger] run(state, events).reactions[k].action;
                action is Post || action is AwaitItem
            },
    decreases events.len(),
{
    if events.len() > 0 {
        let later = events.drop_first();
        assert forall|i: int| 0 <= i < later.len() implies later[i] != RelayEvent::<P>::Item(
            None,
        ) by {
            assert(later[i] == events[i + 1]);
        }
        match react(state, events[0]) {
            Some((next, reaction)) => {
                law_only_the_end_of_the_stream_stops_forwarding(next, later);
                let whole = run(state, events);
                let rest = run(next, later);
                assert forall|k: int| 0 <= k < whole.reactions.len() implies {
                    let action = #[trigger] whole.reactions[k].action;
                    action is Post || action is AwaitItem
                } by {
                    if k >= 1 {
                        assert(whole.reactions[k] == rest.reactions[k - 1]);
                    }
                }
            },
            None => {
                law_only_the_end_of_the_stream_stops_forwarding(state, later);
            },
        }
    }
}

/// The end of the subscription is answered with one unsubscribe call, and
/// then the relay is done.
///
/// For a relay that waits for the next item: when the subscription ends, it
/// asks to unsubscribe; when that call is answered, it stops with the
/// call's outcome as its result; and whatever is reported to it afterwards,
/// it asks for nothing more.
pub proof fn law_stream_end_unsubscribes_once<P>(
    answer: Result<(), String>,
    later: Seq<RelayEvent<P>>,
)
    ensures
        run(
            RelayState::AwaitingItem,
            seq![RelayEvent::Item(None), RelayEvent::Unsubscribed(answer)] + later,
        ).state == RelayState::Terminated,
        run(
            RelayState::AwaitingItem,
            seq![RelayEvent::Item(None), RelayEvent::Unsubscribed(answer)] + later,
        ).reactions == seq![
            Reaction { report: None, action: RelayAction::<P>::Unsubscribe },
            Reaction {
                report: None,
                action: RelayAction::Finish(
                    match answer {
                        Ok(()) => Ok(()),
                        Err(cause) => Err(RelayError::Unsubscribe(cause)),
                    },
                ),
            },
        ],
{
    let events = seq![RelayEvent::<P>::Item(None), RelayEvent::Unsubscribed(answer)] + later;
    let answered = events.drop_first();
    assert(answered.drop_first() =~= later);
    lemma_terminated_is_final(later);
    let finish = react(RelayState::Unsubscribing, answered[0]).unwrap().1;
    assert(run(RelayState::Unsubscribing, answered).reactions =~= seq![finish]);
    assert(run(RelayState::AwaitingItem, events).reactions =~= seq![
        Reaction { report: None, action: RelayAction::<P>::Unsubscribe },
        finish,
    ]);
}

/// A relay that is done stays done and asks for nothing.
pub proof fn lemma_terminated_is_final<P>(events: Seq<RelayEvent<P>>)
    ensures
        run(RelayState::Terminated, events) == (Trace::<P> {
            state: RelayState::Terminated,
            reactions: Seq::empty(),
        }),
    decreases events.len(),
{
    if events.len() > 0 {
        lemma_terminated_is_final(events.drop_first());
    }
}

/// Whatever happens, the daemon is told at most once that the consumer is
/// gone.
///
/// For every state and every sequence of events: the relay asks to
/// unsubscribe at most once, and not at all once it has asked or is done.
/// If it was forwarding and the run has brought it to its end, it has asked
/// exactly once.
pub proof fn law_at_most_one_unsubscribe<P>(state: RelayState, events: Seq<RelayEvent<P>>)
    ensures
        unsubscribes(run(state, events).reactions) <= unsubscribes_ahead(state),
        state.is_forwarding() && run(state, events).state == RelayState::Terminated
            ==> unsubscribes(run(state, events).reactions) == 1,
    decreases events.len(),
{
    if events.len() > 0 {
        match react(state, events[0]) {
            Some((next, reaction)) => {
                let rest = run(next, events.drop_first());
                let whole = run(state, events);
                law_at_most_one_unsubscribe(next, events.drop_first());
                assert(whole.reactions.drop_first() =~= rest.reactions);
                assert(whole.reactions[0] == reaction);
            },
            None => {
                law_at_most_one_unsubscribe(state, events.drop_first());
            },
        }
    }
}

} // verus!
