//! The bridge loop as a state machine.
//!
//! The bridge owns one connection to the engine and two channels to the
//! control surface. It never waits on any of them: in each cycle it tries one
//! receive, hands a snapshot on if a whole one came, empties the intent
//! channel into the connection, and sleeps for a fixed interval.
//!
//! Nothing here touches a socket, a channel or a clock. The bridge is a
//! function from a state and an event to the next state and an action. The
//! owner carries out each action, which is a single non-blocking operation or
//! the sleep, and reports how it ended as the next event. The bridge begins
//! with [`start`] and has ended when it asks for [`BridgeAction::Stop`].

use vstd::prelude::*;
use crate::message::Message;
use crate::patch::Patch;

verus! {

/// The pause between two cycles, in milliseconds.
pub const POLL_INTERVAL_MS: u64 = 15;

/// What the bridge is waiting for.
#[derive(Clone, Copy, Debug, PartialEq, Eq, Structural)]
pub enum BridgeState {
    /// The outcome of one receive on the connection.
    Receiving,
    /// The outcome of handing a snapshot to the control surface.
    Delivering,
    /// The outcome of one poll of the intent channel.
    Draining,
    /// The outcome of one send on the connection.
    Sending,
    /// The end of the pause.
    Sleeping,
    /// Nothing: the bridge has ended.
    Stopped,
}

/// A failure that the bridge absorbs. The owner may log it; the bridge goes
/// on either way.
#[derive(Clone, Copy, Debug, PartialEq, Eq, Structural)]
pub enum Fault {
    /// The receive failed for another reason than that nothing was there.
    Receive,
    /// The send failed; the intent it carried is dropped.
    Send,
}

/// How an action ended.
#[derive(Debug, PartialEq, Eq)]
pub enum BridgeEvent {
    /// The receive gave a buffer.
    Received(Vec<u8>),
    /// The receive found nothing to read.
    WouldBlock,
    /// The receive failed.
    ReceiveFailed,
    /// The control surface's channel took the snapshot.
    Delivered,
    /// The control surface has dropped its end of the snapshot channel.
    ConsumerGone,
    /// The intent channel gave an intent.
    Intent(Message),
    /// The intent channel is empty.
    NoIntent,
    /// The control surface has dropped its end of the intent channel.
    ProducerGone,
    /// The send went through.
    Sent,
    /// The send failed.
    SendFailed,
    /// The pause is over.
    Woke,
}

/// What the owner is to do next.
#[derive(Debug, PartialEq, Eq)]
pub enum BridgeAction {
    /// Try one receive on the connection, without waiting.
    Receive,
    /// Push the snapshot onto the snapshot channel.
    Deliver(Patch),
    /// Poll the intent channel once, without waiting.
    Poll,
    /// Try one send of these bytes on the connection, without waiting.
    Send(Vec<u8>),
    /// Sleep for this many milliseconds.
    Sleep(u64),
    /// Release the connection; the bridge has ended.
    Stop,
}

/// One move of the bridge.
#[derive(Debug, PartialEq, Eq)]
pub struct Transition {
    pub state: BridgeState,
    pub action: BridgeAction,
    pub fault: Option<Fault>,
}

/// An event, with a buffer as the sequence of its bytes.
pub enum Event {
    Received(Seq<u8>),
    WouldBlock,
    ReceiveFailed,
    Delivered,
    ConsumerGone,
    Intent(Message),
    NoIntent,
    ProducerGone,
    Sent,
    SendFailed,
    Woke,
}

/// An action, with a frame as the sequence of its bytes.
pub enum Action {
    Receive,
    Deliver(Patch),
    Poll,
    Send(Seq<u8>),
    Sleep(u64),
    Stop,
}

/// One move of the bridge, over sequences.
pub struct Step {
    pub state: BridgeState,
    pub action: Action,
    pub fault: Option<Fault>,
}

/// Where a run of the bridge has got to, and what it asked for on the way.
pub struct Trace {
    pub state: BridgeState,
    pub actions: Seq<Action>,
}

impl View for BridgeEvent {
    type V = Event;

    open spec fn view(&self) -> Event {
        match self {
            BridgeEvent::Received(bytes) => Event::Received(bytes@),
            BridgeEvent::WouldBlock => Event::WouldBlock,
            BridgeEvent::ReceiveFailed => Event::ReceiveFailed,
            BridgeEvent::Delivered => Event::Delivered,
            BridgeEvent::ConsumerGone => Event::ConsumerGone,
            BridgeEvent::Intent(intent) => Event::Intent(*intent),
            BridgeEvent::NoIntent => Event::NoIntent,
            BridgeEvent::ProducerGone => Event::ProducerGone,
            BridgeEvent::Sent => Event::Sent,
            BridgeEvent::SendFailed => Event::SendFailed,
            BridgeEvent::Woke => Event::Woke,
        }
    }
}

impl View for BridgeAction {
    type V = Action;

    open spec fn view(&self) -> Action {
        match self {
            BridgeAction::Receive => Action::Receive,
            BridgeAction::Deliver(patch) => Action::Deliver(*patch),
            BridgeAction::Poll => Action::Poll,
            BridgeAction::Send(bytes) => Action::Send(bytes@),
            BridgeAction::Sleep(millis) => Action::Sleep(*millis),
            BridgeAction::Stop => Action::Stop,
        }
    }
}

impl View for Transition {
    type V = Step;

    open spec fn view(&self) -> Step {
        Step { state: self.state, action: self.action@, fault: self.fault }
    }
}

impl Event {
    /// Whether the event says that a peer of the bridge is gone.
    pub open spec fn peer_gone(self) -> bool {
        self is ConsumerGone || self is ProducerGone
    }
}

impl BridgeState {
    /// How many more events the bridge can take before it has ended, once
    /// the producer of the intent channel is gone and no intent is waiting.
    pub open spec fn steps_left(self) -> nat {
        match self {
            BridgeState::Sleeping => 4,
            BridgeState::Receiving => 3,
            BridgeState::Delivering => 2,
            BridgeState::Sending => 2,
            BridgeState::Draining => 1,
            BridgeState::Stopped => 0,
        }
    }
}

/// The move that goes on with the intent channel.
pub open spec fn drain(fault: Option<Fault>) -> Step {
    Step { state: BridgeState::Draining, action: Action::Poll, fault }
}

/// The move that ends the bridge.
pub open spec fn stop() -> Step {
    Step { state: BridgeState::Stopped, action: Action::Stop, fault: None }
}

/// The first move of a bridge: try a receive.
pub open spec fn first() -> Step {
    Step { state: BridgeState::Receiving, action: Action::Receive, fault: None }
}

/// The move that the bridge makes in `state` when `event` comes in, or none
/// where the event is no answer to what the state waits for. A bridge that
/// has ended takes no event.
pub open spec fn next(state: BridgeState, event: Event) -> Option<Step> {
    match (state, event) {
        (BridgeState::Receiving, Event::Received(bytes)) => match Patch::parse(bytes) {
            Some(patch) => Some(
                Step { state: BridgeState::Delivering, action: Action::Deliver(patch), fault: None },
            ),
            None => Some(drain(None)),
        },
        (BridgeState::Receiving, Event::WouldBlock) => Some(drain(None)),
        (BridgeState::Receiving, Event::ReceiveFailed) => Some(drain(Some(Fault::Receive))),
        (BridgeState::Delivering, Event::Delivered) => Some(drain(None)),
        (BridgeState::Delivering, Event::ConsumerGone) => Some(stop()),
        (BridgeState::Draining, Event::Intent(intent)) => Some(
            Step { state: BridgeState::Sending, action: Action::Send(intent.frame()), fault: None },
        ),
        (BridgeState::Draining, Event::NoIntent) => Some(
            Step {
                state: BridgeState::Sleeping,
                action: Action::Sleep(POLL_INTERVAL_MS),
                fault: None,
            },
        ),
        (BridgeState::Draining, Event::ProducerGone) => Some(stop()),
        (BridgeState::Sending, Event::Sent) => Some(drain(None)),
        (BridgeState::Sending, Event::SendFailed) => Some(drain(Some(Fault::Send))),
        (BridgeState::Sleeping, Event::Woke) => Some(first()),
        _ => None,
    }
}

/// Where the bridge gets to from `state` when the events come in in order,
/// with the actions it asked for, one per event; none where some event was
/// no answer to what the bridge waited for.
pub open spec fn run(state: BridgeState, events: Seq<Event>) -> Option<Trace>
    decreases events.len(),
{
    if events.len() == 0 {
        Some(Trace { state, actions: Seq::empty() })
    } else {
        match run(state, events.drop_last()) {
            None => None,
            Some(before) => match next(before.state, events.last()) {
                None => None,
                Some(step) => Some(
                    Trace { state: step.state, actions: before.actions.push(step.action) },
                ),
            },
        }
    }
}

/// The intents among the events, in the order in which they came.
pub open spec fn intents(events: Seq<Event>) -> Seq<Message>
    decreases events.len(),
{
    if events.len() == 0 {
        Seq::empty()
    } else {
        match events.last() {
            Event::Intent(intent) => intents(events.drop_last()).push(intent),
            _ => intents(events.drop_last()),
        }
    }
}

/// The frames that the actions send, in the order in which they are sent.
pub open spec fn frames(actions: Seq<Action>) -> Seq<Seq<u8>>
    decreases actions.len(),
{
    if actions.len() == 0 {
        Seq::empty()
    } else {
        match actions.last() {
            Action::Send(frame) => frames(actions.drop_last()).push(frame),
            _ => frames(actions.drop_last()),
        }
    }
}

/// The snapshots that the received buffers hold, in the order in which the
/// buffers came; a buffer that holds none adds none.
pub open spec fn snapshots(events: Seq<Event>) -> Seq<Patch>
    decreases events.len(),
{
    if events.len() == 0 {
        Seq::empty()
    } else {
        match events.last() {
            Event::Received(bytes) => match Patch::parse(bytes) {
                Some(patch) => snapshots(events.drop_last()).push(patch),
                None => snapshots(events.drop_last()),
            },
            _ => snapshots(events.drop_last()),
        }
    }
}

/// The snapshots that the actions deliver, in the order in which they are
/// delivered.
pub open spec fn deliveries(actions: Seq<Action>) -> Seq<Patch>
    decreases actions.len(),
{
    if actions.len() == 0 {
        Seq::empty()
    } else {
        match actions.last() {
            Action::Deliver(patch) => deliveries(actions.drop_last()).push(patch),
            _ => deliveries(actions.drop_last()),
        }
    }
}

/// Begins a bridge: it waits for the outcome of a first receive.
pub fn start() -> (transition: Transition)
    ensures
        transition@ == first(),
{
    Transition { state: BridgeState::Receiving, action: BridgeAction::Receive, fault: None }
}

/// Makes one move: takes the outcome of the last action and says what to do
/// next. Gives nothing, and so leaves the bridge where it is, exactly when
/// the event is no answer to what the state waits for.
pub fn step(state: BridgeState, event: BridgeEvent) -> (result: Option<Transition>)
    ensures
        match next(state, event@) {
            Some(step) => result.is_some() && result.unwrap()@ == step,
            None => result.is_none(),
        },
{
    match state {
        BridgeState::Receiving => match event {
            BridgeEvent::Received(bytes) => match Patch::from_bytes(bytes.as_slice()) {
                Some(patch) => Some(
                    Transition {
                        state: BridgeState::Delivering,
                        action: BridgeAction::Deliver(patch),
                        fault: None,
                    },
                ),
                None => Some(go_on(None)),
            },
            BridgeEvent::WouldBlock => Some(go_on(None)),
            BridgeEvent::ReceiveFailed => Some(go_on(Some(Fault::Receive))),
            _ => None,
        },
        BridgeState::Delivering => match event {
            BridgeEvent::Delivered => Some(go_on(None)),
            BridgeEvent::ConsumerGone => Some(end()),
            _ => None,
        },
        BridgeState::Draining => match event {
            BridgeEvent::Intent(intent) => Some(
                Transition {
                    state: BridgeState::Sending,
                    action: BridgeAction::Send(intent.encode()),
                    fault: None,
                },
            ),
            BridgeEvent::NoIntent => Some(
                Transition {
                    state: BridgeState::Sleeping,
                    action: BridgeAction::Sleep(POLL_INTERVAL_MS),
                    fault: None,
                },
            ),
            BridgeEvent::ProducerGone => Some(end()),
            _ => None,
        },
        BridgeState::Sending => match event {
            BridgeEvent::Sent => Some(go_on(None)),
            BridgeEvent::SendFailed => Some(go_on(Some(Fault::Send))),
            _ => None,
        },
        BridgeState::Sleeping => match event {
            BridgeEvent::Woke => Some(start()),
            _ => None,
        },
        BridgeState::Stopped => None,
    }
}

fn go_on(fault: Option<Fault>) -> (transition: Transition)
    ensures
        transition@ == drain(fault),
{
    Transition { state: BridgeState::Draining, action: BridgeAction::Poll, fault }
}

fn end() -> (transition: Transition)
    ensures
        transition@ == stop(),
{
    Transition { state: BridgeState::Stopped, action: BridgeAction::Stop, fault: None }
}

/// An accepted run asks for one action per event.
pub proof fn lemma_one_action_per_event(state: BridgeState, events: Seq<Event>)
    requires
        run(state, events) is Some,
    ensures
        run(state, events).unwrap().actions.len() == events.len(),
    decreases events.len(),
{
    if events.len() > 0 {
        lemma_one_action_per_event(state, events.drop_last());
    }
}

/// The bridge ends when a peer is gone and for no other reason: the event
/// that says so is answered by the end, and a run in which no event says so
/// neither ends nor asks to stop, whatever else happens on the connection.
pub proof fn law_ends_only_when_a_peer_is_gone(state: BridgeState, events: Seq<Event>, event: Event)
    requires
        state != BridgeState::Stopped,
        run(state, events) is Some,
        forall|i: int| 0 <= i < events.len() ==> !(#[trigger] events[i]).peer_gone(),
    ensures
        run(state, events).unwrap().state != BridgeState::Stopped,
        forall|i: int|
            0 <= i < events.len() ==> !(#[trigger] run(state, events).unwrap().actions[i] is Stop),
        event.peer_gone() && next(state, event) is Some ==> next(state, event) == Some(stop()),
    decreases events.len(),
{
    lemma_one_action_per_event(state, events);
    if events.len() > 0 {
        let earlier = events.drop_last();
        law_ends_only_when_a_peer_is_gone(state, earlier, event);
        let before = run(state, earlier).unwrap();
        let step = next(before.state, events.last()).unwrap();
        let trace = run(state, events).unwrap();
        assert(!events[events.len() - 1].peer_gone());
        assert(trace.actions == before.actions.push(step.action));
        assert forall|i: int| 0 <= i < events.len() implies !(#[trigger] trace.actions[i] is Stop) by {
            if i < events.len() - 1 {
                assert(trace.actions[i] == before.actions[i]);
            }
        }
    }
}

/// A bridge that has ended stays ended: it takes no event.
pub proof fn law_the_end_is_final(event: Event)
    ensures
        next(BridgeState::Stopped, event) is None,
{
}

/// While every receive finds nothing to read and the producer lives, the
/// bridge never ends, hands no snapshot on, goes from each such receive
/// straight to the intent channel, and answers each intent by sending its
/// frame.
pub proof fn law_would_block_keeps_draining(state: BridgeState, events: Seq<Event>)
    requires
        state != BridgeState::Stopped,
        state != BridgeState::Delivering,
        run(state, events) is Some,
        forall|i: int|
            0 <= i < events.len() ==> !(#[trigger] events[i] is Received) && !(events[i] is ReceiveFailed)
                && !(events[i] is ProducerGone),
    ensures
        run(state, events).unwrap().state != BridgeState::Stopped,
        run(state, events).unwrap().state != BridgeState::Delivering,
        forall|i: int|
            0 <= i < events.len() ==> {
                let action = #[trigger] run(state, events).unwrap().actions[i];
                &&& !(action is Stop)
                &&& !(action is Deliver)
                &&& events[i] is WouldBlock ==> action is Poll
                &&& events[i] matches Event::Intent(intent) ==> action == Action::Send(intent.frame())
            },
    decreases events.len(),
{
    lemma_one_action_per_event(state, events);
    if events.len() > 0 {
        let earlier = events.drop_last();
        law_would_block_keeps_draining(state, earlier);
        let before = run(state, earlier).unwrap();
        let last = events[events.len() - 1];
        let step = next(before.state, last).unwrap();
        let trace = run(state, events).unwrap();
        assert(!(last is Received) && !(last is ReceiveFailed) && !(last is ProducerGone));
        assert(trace.actions == before.actions.push(step.action));
        assert forall|i: int| 0 <= i < events.len() implies {
            let action = #[trigger] trace.actions[i];
            &&& !(action is Stop)
            &&& !(action is Deliver)
            &&& events[i] is WouldBlock ==> action is Poll
            &&& events[i] matches Event::Intent(intent) ==> action == Action::Send(intent.frame())
        } by {
            if i < events.len() - 1 {
                assert(trace.actions[i] == before.actions[i]);
                assert(events[i] == earlier[i]);
            }
        }
    }
}

/// Once the producer of the intent channel is gone, a poll no longer finds
/// the channel merely empty: it gives an intent that was still waiting, or it
/// says that the producer is gone. From then on the bridge ends within the
/// cycle it is in. It asks for no pause, and for a receive only if it was
/// pausing to begin with; every event but the sending of a waiting intent
/// brings the end nearer; the event that says a peer is gone comes last and is
/// answered by the end; and a bridge that has not ended yet still takes an
/// answer.
pub proof fn law_producer_loss_ends_within_a_cycle(state: BridgeState, events: Seq<Event>)
    requires
        run(state, events) is Some,
        forall|i: int| 0 <= i < events.len() ==> !(#[trigger] events[i] is NoIntent),
    ensures
        run(state, events).unwrap().state.steps_left() + events.len() <= state.steps_left() + 2
            * intents(events).len(),
        events.len() > 0 ==> run(state, events).unwrap().state != BridgeState::Sleeping,
        forall|i: int|
            0 <= i < events.len() ==> {
                let action = #[trigger] run(state, events).unwrap().actions[i];
                &&& !(action is Sleep)
                &&& action is Receive ==> i == 0 && state == BridgeState::Sleeping
                &&& events[i].peer_gone() ==> i == events.len() - 1 && action is Stop
            },
        events.len() > 0 && events[events.len() - 1].peer_gone() ==> run(
            state,
            events,
        ).unwrap().state == BridgeState::Stopped,
        run(state, events).unwrap().state != BridgeState::Stopped ==> exists|event: Event|
            !(event is NoIntent) && #[trigger] next(run(state, events).unwrap().state, event) is Some,
        next(BridgeState::Draining, Event::ProducerGone) == Some(stop()),
    decreases events.len(),
{
    lemma_one_action_per_event(state, events);
    let trace = run(state, events).unwrap();
    if events.len() > 0 {
        let earlier = events.drop_last();
        law_producer_loss_ends_within_a_cycle(state, earlier);
        lemma_one_action_per_event(state, earlier);
        let before = run(state, earlier).unwrap();
        let last = events[events.len() - 1];
        let step = next(before.state, last).unwrap();
        assert(!(last is NoIntent));
        assert(trace.actions == before.actions.push(step.action));
        assert(earlier.len() > 0 ==> !earlier[earlier.len() - 1].peer_gone());
        assert forall|i: int| 0 <= i < events.len() implies {
            let action = #[trigger] trace.actions[i];
            &&& !(action is Sleep)
            &&& action is Receive ==> i == 0 && state == BridgeState::Sleeping
            &&& events[i].peer_gone() ==> i == events.len() - 1 && action is Stop
        } by {
            if i < events.len() - 1 {
                assert(trace.actions[i] == before.actions[i]);
                assert(events[i] == earlier[i]);
            }
        }
    }
    match trace.state {
        BridgeState::Receiving => {
            assert(next(trace.state, Event::WouldBlock) is Some);
        },
        BridgeState::Delivering => {
            assert(next(trace.state, Event::Delivered) is Some);
        },
        BridgeState::Draining => {
            assert(next(trace.state, Event::ProducerGone) is Some);
        },
        BridgeState::Sending => {
            assert(next(trace.state, Event::Sent) is Some);
        },
        BridgeState::Sleeping => {
            assert(next(trace.state, Event::Woke) is Some);
        },
        BridgeState::Stopped => {},
    }
}

/// Intents that were still waiting when the producer went away are sent
/// before the bridge ends. A run that begins with a poll of the intent
/// channel, and in which no poll finds the channel merely empty, sends the
/// frames of its intents in order and asks for nothing else: no pause, no
/// receive, no snapshot. Each intent takes two events, the poll that gives it
/// and the outcome of its send. The event that says the producer is gone can
/// only come last, is answered by the end, and then the run has one event
/// more than twice the number of its intents.
pub proof fn law_waiting_intents_are_sent_before_the_end(events: Seq<Event>)
    requires
        run(BridgeState::Draining, events) is Some,
        forall|i: int| 0 <= i < events.len() ==> !(#[trigger] events[i] is NoIntent),
    ensures
        frames(run(BridgeState::Draining, events).unwrap().actions).len() == intents(events).len(),
        forall|i: int|
            0 <= i < intents(events).len() ==> #[trigger] frames(
                run(BridgeState::Draining, events).unwrap().actions,
            )[i] == intents(events)[i].frame(),
        forall|i: int|
            0 <= i < events.len() ==> {
                let action = #[trigger] run(BridgeState::Draining, events).unwrap().actions[i];
                &&& !(action is Sleep)
                &&& !(action is Receive)
                &&& !(action is Deliver)
                &&& events[i] is ProducerGone ==> i == events.len() - 1 && action is Stop
            },
        match run(BridgeState::Draining, events).unwrap().state {
            BridgeState::Draining => events.len() == 2 * intents(events).len(),
            BridgeState::Sending => events.len() == 2 * intents(events).len() - 1,
            BridgeState::Stopped => events.len() == 2 * intents(events).len() + 1
                && events[events.len() - 1] is ProducerGone,
            _ => false,
        },
    decreases events.len(),
{
    let state = BridgeState::Draining;
    law_intents_are_sent_in_order(state, events);
    lemma_one_action_per_event(state, events);
    if events.len() > 0 {
        let earlier = events.drop_last();
        law_waiting_intents_are_sent_before_the_end(earlier);
        lemma_one_action_per_event(state, earlier);
        let before = run(state, earlier).unwrap();
        let last = events[events.len() - 1];
        let step = next(before.state, last).unwrap();
        let trace = run(state, events).unwrap();
        assert(!(last is NoIntent));
        assert(trace.actions == before.actions.push(step.action));
        assert forall|i: int| 0 <= i < events.len() implies {
            let action = #[trigger] trace.actions[i];
            &&& !(action is Sleep)
            &&& !(action is Receive)
            &&& !(action is Deliver)
            &&& events[i] is ProducerGone ==> i == events.len() - 1 && action is Stop
        } by {
            if i < events.len() - 1 {
                assert(trace.actions[i] == before.actions[i]);
                assert(events[i] == earlier[i]);
            }
        }
    }
}

/// Intents leave in the order in which they came: the frames that a run
/// sends are the frames of the intents it was given, one for one and in the
/// same order, none merged, none left out and none sent twice, however the
/// sends before them ended.
pub proof fn law_intents_are_sent_in_order(state: BridgeState, events: Seq<Event>)
    requires
        run(state, events) is Some,
    ensures
        frames(run(state, events).unwrap().actions).len() == intents(events).len(),
        forall|i: int|
            0 <= i < intents(events).len() ==> #[trigger] frames(run(state, events).unwrap().actions)[i]
                == intents(events)[i].frame(),
    decreases events.len(),
{
    if events.len() > 0 {
        let earlier = events.drop_last();
        law_intents_are_sent_in_order(state, earlier);
        let before = run(state, earlier).unwrap();
        let step = next(before.state, events.last()).unwrap();
        let trace = run(state, events).unwrap();
        assert(trace.actions.drop_last() =~= before.actions);
        assert(trace.actions.last() == step.action);
    }
}

/// Snapshots reach the control surface in the order in which their buffers
/// came: the snapshots that a run delivers are those held by the buffers it
/// received, one for one and in the same order, and a buffer that holds
/// none, because its length is not that of a snapshot, delivers none.
pub proof fn law_snapshots_are_delivered_in_order(state: BridgeState, events: Seq<Event>)
    requires
        run(state, events) is Some,
    ensures
        deliveries(run(state, events).unwrap().actions) == snapshots(events),
    decreases events.len(),
{
    if events.len() > 0 {
        let earlier = events.drop_last();
        law_snapshots_are_delivered_in_order(state, earlier);
        let before = run(state, earlier).unwrap();
        let step = next(before.state, events.last()).unwrap();
        let trace = run(state, events).unwrap();
        assert(trace.actions.drop_last() =~= before.actions);
        assert(trace.actions.last() == step.action);
    }
}

} // verus!
