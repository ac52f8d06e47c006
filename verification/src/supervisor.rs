//! The supervisor of the simulation process, as a machine that is driven one step at a
//! time.
//!
//! The supervisor owns no process and no channel. It is told what the front-end wants
//! and what became of the last order, and it answers with the next order: start a
//! child, wait for its handshake, look whether it still lives, hand an event to it. The
//! caller carries the orders out.

use crate::client::ClientEvent;
use crate::engine::EngineConfig;
use crate::engine::EngineEvent;
use vstd::prelude::*;

verus! {

/// Where the supervisor stands with the simulation process.
#[derive(Clone, Copy, Debug, PartialEq, Eq, Structural)]
pub enum Stage {
    /// No child has been started yet.
    NotStarted,
    /// A child has been started and has not completed the handshake yet.
    Starting,
    /// The child has completed the handshake; events can be handed to it.
    Connected,
    /// The child was found to have exited; a new one is about to be started.
    Crashed,
    /// The simulation has shut down, or the supervisor has given up: no child is
    /// started any more.
    Closed,
}

/// The report that the supervisor waits for.
#[derive(Clone, Copy, Debug, PartialEq, Eq, Structural)]
pub enum Awaiting {
    Nothing,
    /// Whether the child could be started.
    Launch,
    /// Whether the child connected.
    Handshake,
    /// Whether the child still lives.
    Liveness,
    /// Whether the event could be handed over.
    Delivery,
}

/// What the supervisor is told.
#[derive(Clone, Copy, Debug, PartialEq, Eq, Structural)]
pub enum Signal {
    /// The front-end wants the simulation started.
    Spawn,
    /// The front-end wants the event delivered to the simulation.
    Send(ClientEvent),
    /// The event arrived from the simulation.
    Received(EngineEvent),
    /// The front-end lets go of the simulation.
    Dropped,
    /// A child has been started.
    Started,
    /// The child has completed the handshake.
    Connected,
    /// The child still runs.
    Alive,
    /// The child has exited.
    Exited,
    /// The event has been handed over.
    Delivered,
    /// The last order could not be carried out.
    Failed,
}

/// The step at which the supervisor gave up.
#[derive(Clone, Copy, Debug, PartialEq, Eq, Structural)]
pub enum Fault {
    /// The child could not be started.
    Launch,
    /// The child did not complete the handshake.
    Handshake,
    /// The liveness of the child could not be determined.
    Liveness,
    /// The event could not be handed to a child that lives.
    Delivery,
}

/// What the caller is to do next.
#[derive(Clone, Copy, Debug, PartialEq, Eq, Structural)]
pub enum Order {
    /// Nothing.
    Idle,
    /// Open a fresh rendezvous and start a child that is told its token.
    Launch,
    /// Wait for the child to connect to the rendezvous.
    Accept,
    /// Look, without waiting, whether the child has exited.
    Poll,
    /// Hand the event to the child.
    Deliver(ClientEvent),
    /// Give up and say which step failed.
    Abort(Fault),
}

/// The state of a supervisor.
pub struct HandleView {
    pub stage: Stage,
    pub awaiting: Awaiting,
    /// The event that was accepted for delivery and has not been handed over yet.
    pub queued: Option<ClientEvent>,
    /// Whether the simulation has been asked to shut down, so that its exit is no crash.
    pub closing: bool,
    /// The number of children that have been started.
    pub started: nat,
    /// The number of children that were found to have exited.
    pub exited: nat,
}

impl HandleView {
    /// The supervisor before it is told anything.
    pub open spec fn initial() -> HandleView {
        HandleView {
            stage: Stage::NotStarted,
            awaiting: Awaiting::Nothing,
            queued: None,
            closing: false,
            started: 0,
            exited: 0,
        }
    }

    /// The number of children that were started and not found to have exited.
    pub open spec fn children(self) -> int {
        self.started - self.exited
    }

    /// What holds of every state that the supervisor reaches.
    pub open spec fn wf(self) -> bool {
        &&& self.exited <= self.started
        &&& match self.stage {
            Stage::NotStarted => self.children() == 0 && self.started == 0 && (self.awaiting
                is Nothing || self.awaiting is Launch),
            Stage::Starting => self.children() == 1 && self.awaiting is Handshake,
            Stage::Connected => self.children() == 1 && (self.awaiting is Nothing
                || self.awaiting is Liveness || self.awaiting is Delivery),
            Stage::Crashed => self.children() == 0 && self.awaiting is Launch,
            Stage::Closed => self.children() <= 1 && self.awaiting is Nothing,
        }
        &&& (self.awaiting is Liveness || self.awaiting is Delivery) ==> self.queued is Some
        &&& self.awaiting is Nothing ==> self.queued is None
    }

    /// The state in which the supervisor has stopped for good. An event that was still
    /// queued is given up.
    pub open spec fn closed(self) -> HandleView {
        HandleView { stage: Stage::Closed, awaiting: Awaiting::Nothing, queued: None, ..self }
    }

    /// The state after the supervisor is told `signal`.
    pub open spec fn next_state(self, signal: Signal) -> HandleView {
        if self.stage is Closed {
            self
        } else if signal is Dropped || signal == Signal::Received(EngineEvent::Closed)
            || signal is Failed && !(self.awaiting is Nothing) {
            self.closed()
        } else {
            match (self.awaiting, signal) {
                (Awaiting::Nothing, Signal::Spawn) => if self.stage is NotStarted {
                    HandleView { awaiting: Awaiting::Launch, ..self }
                } else {
                    self
                },
                (Awaiting::Nothing, Signal::Send(event)) => match self.stage {
                    Stage::NotStarted => HandleView {
                        awaiting: Awaiting::Launch,
                        queued: Some(event),
                        ..self
                    },
                    Stage::Connected => HandleView {
                        awaiting: Awaiting::Liveness,
                        queued: Some(event),
                        ..self
                    },
                    _ => self,
                },
                (Awaiting::Launch, Signal::Started) => HandleView {
                    stage: Stage::Starting,
                    awaiting: Awaiting::Handshake,
                    started: self.started + 1,
                    ..self
                },
                (Awaiting::Handshake, Signal::Connected) => HandleView {
                    stage: Stage::Connected,
                    awaiting: if self.queued is Some {
                        Awaiting::Delivery
                    } else {
                        Awaiting::Nothing
                    },
                    ..self
                },
                (Awaiting::Liveness, Signal::Alive) => HandleView {
                    awaiting: Awaiting::Delivery,
                    ..self
                },
                (Awaiting::Liveness, Signal::Exited) => if self.closing {
                    HandleView { exited: self.exited + 1, ..self.closed() }
                } else {
                    HandleView {
                        stage: Stage::Crashed,
                        awaiting: Awaiting::Launch,
                        exited: self.exited + 1,
                        ..self
                    }
                },
                (Awaiting::Delivery, Signal::Delivered) => HandleView {
                    awaiting: Awaiting::Nothing,
                    queued: None,
                    closing: self.closing || self.queued == Some(ClientEvent::CloseRequested),
                    ..self
                },
                _ => self,
            }
        }
    }

    /// The step at which a supervisor gives up that waits for what this one waits for.
    pub open spec fn fault(self) -> Fault {
        match self.awaiting {
            Awaiting::Handshake => Fault::Handshake,
            Awaiting::Liveness => Fault::Liveness,
            Awaiting::Delivery => Fault::Delivery,
            _ => Fault::Launch,
        }
    }

    /// The order that the supervisor gives when it is told `signal`.
    pub open spec fn next_order(self, signal: Signal) -> Order {
        let after = self.next_state(signal);
        if self.stage is Closed {
            Order::Idle
        } else if after.stage is Closed {
            if signal is Failed {
                Order::Abort(self.fault())
            } else {
                Order::Idle
            }
        } else if after == self {
            Order::Idle
        } else {
            match after.awaiting {
                Awaiting::Nothing => Order::Idle,
                Awaiting::Launch => Order::Launch,
                Awaiting::Handshake => Order::Accept,
                Awaiting::Liveness => Order::Poll,
                Awaiting::Delivery => match after.queued {
                    Some(event) => Order::Deliver(event),
                    None => Order::Idle,
                },
            }
        }
    }
}

/// The supervisor of one simulation process.
///
/// At any time the supervisor answers for at most one child. When it is asked to
/// deliver an event it first has the child looked after; a child that has exited is
/// replaced, and the event goes to the new child once that one has connected.
pub struct EngineHandle {
    engine_path: String,
    engine_config: EngineConfig,
    stage: Stage,
    awaiting: Awaiting,
    queued: Option<ClientEvent>,
    closing: bool,
    started: Ghost<nat>,
    exited: Ghost<nat>,
}

impl EngineHandle {
    pub closed spec fn view(&self) -> HandleView {
        HandleView {
            stage: self.stage,
            awaiting: self.awaiting,
            queued: self.queued,
            closing: self.closing,
            started: self.started@,
            exited: self.exited@,
        }
    }

    /// The path of the executable that a child is started from.
    pub closed spec fn spec_engine_path(&self) -> Seq<char> {
        self.engine_path@
    }

    /// The settings that every child is started with.
    pub closed spec fn spec_engine_config(&self) -> EngineConfig {
        self.engine_config
    }

    /// A supervisor that has just been told to start the simulation from the executable
    /// at `engine_path` with the settings `engine_config`. The order that goes with this
    /// first signal is [`Order::Launch`]: the caller starts a child and reports on it.
    pub fn spawn(engine_path: String, engine_config: EngineConfig) -> (handle: EngineHandle)
        ensures
            handle@ == HandleView::initial().next_state(Signal::Spawn),
            handle.spec_engine_path() == engine_path@,
            handle.spec_engine_config() == engine_config,
            handle@.wf(),
    {
        EngineHandle {
            engine_path,
            engine_config,
            stage: Stage::NotStarted,
            awaiting: Awaiting::Launch,
            queued: None,
            closing: false,
            started: Ghost(0),
            exited: Ghost(0),
        }
    }

    /// The path of the executable that a child is started from.
    pub fn engine_path(&self) -> (path: &str)
        ensures
            path@ == self.spec_engine_path(),
    {
        self.engine_path.as_str()
    }

    /// The settings that every child is started with.
    pub fn engine_config(&self) -> (config: &EngineConfig)
        ensures
            *config == self.spec_engine_config(),
    {
        &self.engine_config
    }

    /// Whether the simulation has been asked to shut down.
    pub fn is_closing(&self) -> (closing: bool)
        ensures
            closing == self@.closing,
    {
        self.closing
    }

    pub fn stage(&self) -> (stage: Stage)
        ensures
            stage == self@.stage,
    {
        self.stage
    }

    /// The report that the supervisor waits for.
    pub fn awaiting(&self) -> (awaiting: Awaiting)
        ensures
            awaiting == self@.awaiting,
    {
        self.awaiting
    }

    fn close(&mut self)
        ensures
            final(self)@ == old(self)@.closed(),
            final(self).spec_engine_path() == old(self).spec_engine_path(),
            final(self).spec_engine_config() == old(self).spec_engine_config(),
    {
        self.stage = Stage::Closed;
        self.awaiting = Awaiting::Nothing;
        self.queued = None;
    }

    /// Tells the supervisor `signal` and returns what is to be done next.
    pub fn step(&mut self, signal: Signal) -> (order: Order)
        ensures
            final(self)@ == old(self)@.next_state(signal),
            order == old(self)@.next_order(signal),
            final(self).spec_engine_path() == old(self).spec_engine_path(),
            final(self).spec_engine_config() == old(self).spec_engine_config(),
    {
        if let Stage::Closed = self.stage {
            return Order::Idle;
        }
        match signal {
            Signal::Dropped | Signal::Received(EngineEvent::Closed) => {
                self.close();
                return Order::Idle;
            },
            Signal::Failed => {
                let fault = match self.awaiting {
                    Awaiting::Nothing => {
                        return Order::Idle;
                    },
                    Awaiting::Launch => Fault::Launch,
                    Awaiting::Handshake => Fault::Handshake,
                    Awaiting::Liveness => Fault::Liveness,
                    Awaiting::Delivery => Fault::Delivery,
                };
                self.close();
                return Order::Abort(fault);
            },
            _ => {},
        }
        match (self.awaiting, signal) {
            (Awaiting::Nothing, Signal::Spawn) => {
                if let Stage::NotStarted = self.stage {
                    self.awaiting = Awaiting::Launch;
                    Order::Launch
                } else {
                    Order::Idle
                }
            },
            (Awaiting::Nothing, Signal::Send(event)) => {
                match self.stage {
                    Stage::NotStarted => {
                        self.awaiting = Awaiting::Launch;
                        self.queued = Some(event);
                        Order::Launch
                    },
                    Stage::Connected => {
                        self.awaiting = Awaiting::Liveness;
                        self.queued = Some(event);
                        Order::Poll
                    },
                    _ => Order::Idle,
                }
            },
            (Awaiting::Launch, Signal::Started) => {
                self.stage = Stage::Starting;
                self.awaiting = Awaiting::Handshake;
                self.started = Ghost(self.started@ + 1);
                Order::Accept
            },
            (Awaiting::Handshake, Signal::Connected) => {
                self.stage = Stage::Connected;
                match self.queued {
                    Some(event) => {
                        self.awaiting = Awaiting::Delivery;
                        Order::Deliver(event)
                    },
                    None => {
                        self.awaiting = Awaiting::Nothing;
                        Order::Idle
                    },
                }
            },
            (Awaiting::Liveness, Signal::Alive) => {
                match self.queued {
                    Some(event) => {
                        self.awaiting = Awaiting::Delivery;
                        Order::Deliver(event)
                    },
                    None => {
                        self.awaiting = Awaiting::Delivery;
                        Order::Idle
                    },
                }
            },
            (Awaiting::Liveness, Signal::Exited) => {
                self.exited = Ghost(self.exited@ + 1);
                if self.closing {
                    self.close();
                    Order::Idle
                } else {
                    self.stage = Stage::Crashed;
                    self.awaiting = Awaiting::Launch;
                    Order::Launch
                }
            },
            (Awaiting::Delivery, Signal::Delivered) => {
                if let Some(ClientEvent::CloseRequested) = self.queued {
                    self.closing = true;
                }
                self.awaiting = Awaiting::Nothing;
                self.queued = None;
                Order::Idle
            },
            _ => Order::Idle,
        }
    }

    /// Accepts `event` for delivery and returns what is to be done about it.
    ///
    /// A supervisor whose child is connected first orders a look at the child. A
    /// supervisor that has stopped, or that is in the middle of something, does not
    /// accept the event.
    pub fn send(&mut self, event: ClientEvent) -> (order: Order)
        ensures
            final(self)@ == old(self)@.next_state(Signal::Send(event)),
            order == old(self)@.next_order(Signal::Send(event)),
            final(self).spec_engine_path() == old(self).spec_engine_path(),
            final(self).spec_engine_config() == old(self).spec_engine_config(),
    {
        self.step(Signal::Send(event))
    }

    /// Takes note of what a look into the channel from the simulation found, and passes
    /// it on. `Closed` tells the supervisor that the simulation shuts down on purpose.
    pub fn try_recv(&mut self, polled: Option<EngineEvent>) -> (event: Option<EngineEvent>)
        ensures
            event == polled,
            final(self)@ == (match polled {
                Some(received) => old(self)@.next_state(Signal::Received(received)),
                None => old(self)@,
            }),
            final(self).spec_engine_path() == old(self).spec_engine_path(),
            final(self).spec_engine_config() == old(self).spec_engine_config(),
    {
        if let Some(received) = polled {
            let _ = self.step(Signal::Received(received));
        }
        polled
    }
}

impl HandleView {
    /// The state after the supervisor is told each of `signals`, in their order.
    pub open spec fn after(self, signals: Seq<Signal>) -> HandleView
        decreases signals.len(),
    {
        if signals.len() == 0 {
            self
        } else {
            self.after(signals.drop_last()).next_state(signals.last())
        }
    }

    /// The orders that the supervisor gives when it is told each of `signals`, in their
    /// order.
    pub open spec fn orders(self, signals: Seq<Signal>) -> Seq<Order>
        decreases signals.len(),
    {
        if signals.len() == 0 {
            Seq::empty()
        } else {
            self.orders(signals.drop_last()).push(
                self.after(signals.drop_last()).next_order(signals.last()),
            )
        }
    }
}

/// What the supervisor is told in a round in which `event` is to be delivered and the
/// child turns out to have exited: the event, the exit, the start of a new child, its
/// handshake, and the delivery.
pub open spec fn crash_round(event: ClientEvent) -> Seq<Signal> {
    seq![
        Signal::Send(event),
        Signal::Exited,
        Signal::Started,
        Signal::Connected,
        Signal::Delivered,
    ]
}

/// What the supervisor orders in such a round: a look at the child, a new child, the
/// wait for its handshake, the delivery of the event, and nothing more.
pub open spec fn respawn_round(event: ClientEvent) -> Seq<Order> {
    seq![Order::Poll, Order::Launch, Order::Accept, Order::Deliver(event), Order::Idle]
}

/// One [`crash_round`] for each of `events`, in their order.
pub open spec fn crash_rounds(events: Seq<ClientEvent>) -> Seq<Signal>
    decreases events.len(),
{
    if events.len() == 0 {
        Seq::empty()
    } else {
        crash_rounds(events.drop_last()) + crash_round(events.last())
    }
}

/// One [`respawn_round`] for each of `events`, in their order.
pub open spec fn respawn_rounds(events: Seq<ClientEvent>) -> Seq<Order>
    decreases events.len(),
{
    if events.len() == 0 {
        Seq::empty()
    } else {
        respawn_rounds(events.drop_last()) + respawn_round(events.last())
    }
}

/// Telling a supervisor one sequence of signals and then another is telling it the two
/// in a row.
proof fn lemma_after_in_a_row(state: HandleView, first: Seq<Signal>, second: Seq<Signal>)
    ensures
        state.after(first + second) == state.after(first).after(second),
        state.orders(first + second) == state.orders(first) + state.after(first).orders(second),
    decreases second.len(),
{
    if second.len() > 0 {
        lemma_after_in_a_row(state, first, second.drop_last());
        assert((first + second).drop_last() =~= first + second.drop_last());
    }
}

/// Telling a supervisor one signal more.
proof fn lemma_one_more(state: HandleView, signals: Seq<Signal>, signal: Signal)
    ensures
        state.after(signals.push(signal)) == state.after(signals).next_state(signal),
        state.orders(signals.push(signal)) == state.orders(signals).push(
            state.after(signals).next_order(signal),
        ),
{
    assert(signals.push(signal).drop_last() =~= signals);
}

/// One round: the orders and the state at its end.
proof fn lemma_crash_round(state: HandleView, event: ClientEvent)
    requires
        state.wf(),
        state.stage is Connected,
        state.awaiting is Nothing,
        !state.closing,
        !(event is CloseRequested),
    ensures
        state.orders(crash_round(event)) == respawn_round(event),
        state.after(crash_round(event)) == (HandleView {
            started: state.started + 1,
            exited: state.exited + 1,
            ..state
        }),
{
    let sent = Seq::<Signal>::empty().push(Signal::Send(event));
    let exited = sent.push(Signal::Exited);
    let started = exited.push(Signal::Started);
    let connected = started.push(Signal::Connected);
    lemma_one_more(state, Seq::empty(), Signal::Send(event));
    lemma_one_more(state, sent, Signal::Exited);
    lemma_one_more(state, exited, Signal::Started);
    lemma_one_more(state, started, Signal::Connected);
    lemma_one_more(state, connected, Signal::Delivered);
    assert(crash_round(event) =~= connected.push(Signal::Delivered));
    assert(state.orders(crash_round(event)) =~= respawn_round(event));
}

/// However often the child of a connected supervisor exits, as long as the simulation
/// is not asked to shut down: every time an event is to be delivered and the child is
/// found to have exited, the supervisor orders one new child and has the event handed
/// to that child once it has connected. After every round it answers for exactly one
/// child, and it has started one child more.
pub proof fn lemma_every_crash_is_survived(state: HandleView, events: Seq<ClientEvent>)
    requires
        state.wf(),
        state.stage is Connected,
        state.awaiting is Nothing,
        !state.closing,
        forall|i: int| 0 <= i < events.len() ==> !(#[trigger] events[i] is CloseRequested),
    ensures
        state.orders(crash_rounds(events)) == respawn_rounds(events),
        state.after(crash_rounds(events)) == (HandleView {
            started: state.started + events.len(),
            exited: state.exited + events.len(),
            ..state
        }),
        state.after(crash_rounds(events)).children() == 1,
        state.after(crash_rounds(events)).wf(),
    decreases events.len(),
{
    if events.len() > 0 {
        let earlier = events.drop_last();
        lemma_every_crash_is_survived(state, earlier);
        let reached = state.after(crash_rounds(earlier));
        lemma_crash_round(reached, events.last());
        lemma_after_in_a_row(state, crash_rounds(earlier), crash_round(events.last()));
    }
}

/// A step keeps what holds of every reachable state. A child is only ordered to be
/// started when the supervisor answers for none, and an event is only ordered to be
/// handed over when the supervisor answers for exactly one child, which is connected.
pub proof fn lemma_step_keeps_one_child(state: HandleView, signal: Signal)
    requires
        state.wf(),
    ensures
        state.next_state(signal).wf(),
        state.next_state(signal).children() <= 1,
        state.next_order(signal) is Launch ==> state.next_state(signal).children() == 0,
        state.next_order(signal) is Deliver ==> state.next_state(signal).children() == 1
            && state.next_state(signal).stage is Connected,
        state.next_state(signal).stage is Connected ==> state.next_state(signal).children()
            == 1,
{
}

/// Whatever the supervisor is told and in whatever order, it answers for at most one
/// child, and for exactly one whenever it is connected.
pub proof fn lemma_one_child(signals: Seq<Signal>)
    ensures
        HandleView::initial().after(signals).wf(),
        HandleView::initial().after(signals).children() <= 1,
        HandleView::initial().after(signals).stage is Connected ==> HandleView::initial().after(
            signals,
        ).children() == 1,
    decreases signals.len(),
{
    if signals.len() > 0 {
        lemma_one_child(signals.drop_last());
        lemma_step_keeps_one_child(
            HandleView::initial().after(signals.drop_last()),
            signals.last(),
        );
    }
}

/// The exit of a simulation that was asked to shut down is no crash: the supervisor
/// stops for good and orders no new child.
pub proof fn lemma_intended_exit_is_final(state: HandleView, later: Seq<Signal>)
    requires
        state.wf(),
        state.closing,
        state.awaiting is Liveness,
    ensures
        state.next_order(Signal::Exited) == Order::Idle,
        state.next_state(Signal::Exited).stage is Closed,
        state.next_state(Signal::Exited).children() == 0,
        state.next_state(Signal::Exited).after(later) == state.next_state(Signal::Exited),
    decreases later.len(),
{
    if later.len() > 0 {
        lemma_intended_exit_is_final(state, later.drop_last());
    }
}

/// An event that the supervisor orders to be handed over is the one that it has queued.
pub proof fn lemma_delivery_carries_the_queued_event(state: HandleView, signal: Signal)
    requires
        state.wf(),
    ensures
        state.next_order(signal) matches Order::Deliver(event) ==> state.queued == Some(event)
            && state.next_state(signal).queued == Some(event),
{
}

/// An event that was accepted for delivery is not forgotten: it stays queued until the
/// caller reports that it was handed over, unless the supervisor stops for good.
pub proof fn lemma_queued_event_is_kept(state: HandleView, signal: Signal, event: ClientEvent)
    requires
        state.wf(),
        state.queued == Some(event),
    ensures
        state.next_state(signal).queued == Some(event) || (signal is Delivered
            && state.awaiting is Delivery) || state.next_state(signal).stage is Closed,
{
}

/// When the child of a connected supervisor is found to have exited while an event is
/// to be delivered, and the simulation was not asked to shut down, the supervisor has a
/// new child started, waits for its handshake and then has that same event handed to it.
/// At the end it answers for one child again.
pub proof fn lemma_respawn_delivers(state: HandleView, event: ClientEvent)
    requires
        state.wf(),
        state.stage is Connected,
        state.awaiting is Nothing,
        !state.closing,
    ensures
        ({
            let polling = state.next_state(Signal::Send(event));
            let crashed = polling.next_state(Signal::Exited);
            let starting = crashed.next_state(Signal::Started);
            let connected = starting.next_state(Signal::Connected);
            let done = connected.next_state(Signal::Delivered);
            &&& state.next_order(Signal::Send(event)) == Order::Poll
            &&& polling.next_order(Signal::Exited) == Order::Launch
            &&& crashed.stage is Crashed
            &&& crashed.children() == 0
            &&& crashed.next_order(Signal::Started) == Order::Accept
            &&& starting.stage is Starting
            &&& starting.next_order(Signal::Connected) == Order::Deliver(event)
            &&& connected.stage is Connected
            &&& connected.children() == 1
            &&& connected.started == state.started + 1
            &&& connected.next_order(Signal::Delivered) == Order::Idle
            &&& done.stage is Connected
            &&& done.awaiting is Nothing
            &&& done.queued is None
            &&& done.children() == 1
        }),
{
}

} // verus!
