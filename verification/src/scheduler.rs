//! The fixed-timestep scheduler, as a machine that is driven one step at a time.
//!
//! The scheduler itself neither waits nor sends. Each step answers the report on the
//! last action with the next action, and the caller carries that action out: it waits
//! for a client event, sends an engine event, or runs a set of systems.

use crate::client::ClientEvent;
use crate::engine::EngineEvent;
use vstd::prelude::*;

verus! {

pub const NANOS_PER_SECOND: u64 = 1_000_000_000;

/// What the scheduler waits for.
#[derive(Clone, Copy, Debug, PartialEq, Eq, Structural)]
pub enum Phase {
    /// Nothing has happened yet.
    Idle,
    /// Client events are drained until the queue is empty or the tick is due.
    Draining,
    /// `BeginFixedUpdate` is being sent.
    Beginning,
    /// The startup systems run.
    Startup,
    /// The per-tick systems run.
    Systems,
    /// `EndFixedUpdate` is being sent.
    Ending,
    /// `Closed` is being sent.
    Closing,
    /// The scheduler has finished.
    Exited,
}

/// What the caller reports about the action it was last handed.
#[derive(Clone, Copy, Debug, PartialEq, Eq, Structural)]
pub enum Report {
    /// The action was carried out; a wait for a client event ended without one.
    Completed,
    /// A client event arrived.
    Received(ClientEvent),
    /// A message arrived that this version does not know. It was skipped.
    Skipped,
}

/// What the caller is to do next.
#[derive(Clone, Copy, Debug, PartialEq, Eq, Structural)]
pub enum Action {
    /// Wait for a client event, for `timeout` nanoseconds at most.
    Receive { timeout: u64 },
    /// Send the event to the front-end.
    Emit(EngineEvent),
    /// Run every startup system once.
    RunStartupSystems,
    /// Run every per-tick system once.
    RunSystems,
    /// Stop: the scheduler has finished.
    Exit,
}

/// The state of a scheduler.
pub struct SchedulerView {
    pub phase: Phase,
    /// The number of the cycle that is under way or comes next.
    pub tick: u64,
    /// Whether another cycle is to follow the current one.
    pub running: bool,
    /// The length of a tick in nanoseconds.
    pub period: u64,
    /// When the last cycle started, in nanoseconds of the caller's clock.
    pub last_fixed_update: u64,
}

impl Report {
    /// Whether the report carries the request to shut down.
    pub open spec fn closes(self) -> bool {
        self matches Report::Received(event) && event is CloseRequested
    }

    /// Whether the report tells of a message that arrived.
    pub open spec fn arrived(self) -> bool {
        self is Received || self is Skipped
    }
}

impl SchedulerView {
    /// The scheduler before its first step.
    pub open spec fn initial(period: u64) -> SchedulerView {
        SchedulerView {
            phase: Phase::Idle,
            tick: 0,
            running: true,
            period,
            last_fixed_update: 0,
        }
    }

    /// The nanoseconds that have passed at `now` since the last cycle started.
    pub open spec fn elapsed(self, now: u64) -> u64 {
        if now >= self.last_fixed_update {
            (now - self.last_fixed_update) as u64
        } else {
            0
        }
    }

    /// The nanoseconds that are left at `now` until the next tick is due.
    pub open spec fn budget(self, now: u64) -> u64 {
        if self.period >= self.elapsed(now) {
            (self.period - self.elapsed(now)) as u64
        } else {
            0
        }
    }

    /// What holds of every state that the scheduler reaches.
    pub open spec fn wf(self) -> bool {
        &&& self.phase is Idle ==> self.tick == 0
        &&& self.phase is Startup ==> self.tick == 0
        &&& (self.phase is Draining || self.phase is Beginning || self.phase is Startup
            || self.phase is Systems) ==> self.tick < u64::MAX
    }

    /// The state in which the cycle starts at `now`.
    pub open spec fn cycle_started(self, running: bool, now: u64) -> SchedulerView {
        SchedulerView { phase: Phase::Beginning, running, last_fixed_update: now, ..self }
    }

    /// The state after the step that answers `report` at `now`.
    pub open spec fn next_state(self, report: Report, now: u64) -> SchedulerView {
        let running = self.running && !report.closes();
        match self.phase {
            Phase::Idle => SchedulerView {
                phase: Phase::Draining,
                running,
                last_fixed_update: now,
                ..self
            },
            Phase::Draining => {
                if report.arrived() && !report.closes() && self.budget(now) > 0 {
                    self
                } else {
                    self.cycle_started(running, now)
                }
            },
            Phase::Beginning => SchedulerView {
                phase: if self.tick == 0 {
                    Phase::Startup
                } else {
                    Phase::Systems
                },
                running,
                ..self
            },
            Phase::Startup => SchedulerView { phase: Phase::Systems, running, ..self },
            Phase::Systems => SchedulerView {
                phase: Phase::Ending,
                tick: if self.tick < u64::MAX {
                    (self.tick + 1) as u64
                } else {
                    self.tick
                },
                running,
                ..self
            },
            Phase::Ending => SchedulerView {
                phase: if running && self.tick < u64::MAX {
                    Phase::Draining
                } else {
                    Phase::Closing
                },
                running,
                ..self
            },
            Phase::Closing => SchedulerView { phase: Phase::Exited, running, ..self },
            Phase::Exited => SchedulerView { running, ..self },
        }
    }

    /// The action that the step hands out which answers `report` at `now`.
    pub open spec fn next_action(self, report: Report, now: u64) -> Action {
        let after = self.next_state(report, now);
        match after.phase {
            Phase::Idle => Action::Exit,
            Phase::Draining => Action::Receive { timeout: after.budget(now) },
            Phase::Beginning => Action::Emit(EngineEvent::BeginFixedUpdate(after.tick)),
            Phase::Startup => Action::RunStartupSystems,
            Phase::Systems => Action::RunSystems,
            Phase::Ending => Action::Emit(EngineEvent::EndFixedUpdate(self.tick)),
            Phase::Closing => Action::Emit(EngineEvent::Closed),
            Phase::Exited => Action::Exit,
        }
    }
}

/// The length of a tick in nanoseconds at `ticks_per_second` ticks per second.
pub open spec fn tick_period(ticks_per_second: u32) -> u64
    recommends
        ticks_per_second > 0,
{
    (NANOS_PER_SECOND as int / ticks_per_second as int) as u64
}

/// The decisions of the tick loop.
///
/// A scheduler counts its cycles from 0. When it has counted as far as a `u64` reaches it
/// closes, as if it had been asked to, rather than use a number twice.
pub struct Scheduler {
    phase: Phase,
    tick: u64,
    running: bool,
    period: u64,
    last_fixed_update: u64,
}

impl Scheduler {
    pub closed spec fn view(&self) -> SchedulerView {
        SchedulerView {
            phase: self.phase,
            tick: self.tick,
            running: self.running,
            period: self.period,
            last_fixed_update: self.last_fixed_update,
        }
    }

    /// A scheduler that runs `ticks_per_second` cycles per second.
    pub fn new(ticks_per_second: u32) -> (scheduler: Scheduler)
        requires
            ticks_per_second > 0,
        ensures
            scheduler@ == SchedulerView::initial(tick_period(ticks_per_second)),
    {
        Scheduler {
            phase: Phase::Idle,
            tick: 0,
            running: true,
            period: NANOS_PER_SECOND / (ticks_per_second as u64),
            last_fixed_update: 0,
        }
    }

    /// The number of the cycle that is under way or comes next.
    pub fn tick(&self) -> (tick: u64)
        ensures
            tick == self@.tick,
    {
        self.tick
    }

    /// Whether another cycle is to follow the current one.
    pub fn is_running(&self) -> (running: bool)
        ensures
            running == self@.running,
    {
        self.running
    }

    pub fn phase(&self) -> (phase: Phase)
        ensures
            phase == self@.phase,
    {
        self.phase
    }

    /// The nanoseconds that are left at `now` until the next tick is due.
    pub fn budget(&self, now: u64) -> (budget: u64)
        ensures
            budget == self@.budget(now),
    {
        let elapsed: u64 = now.saturating_sub(self.last_fixed_update);
        self.period.saturating_sub(elapsed)
    }

    /// Answers the report on the last action with the next action.
    ///
    /// `now` is the reading of a clock that counts nanoseconds and never runs backwards.
    /// The first call may carry any report.
    pub fn step(&mut self, report: Report, now: u64) -> (action: Action)
        ensures
            final(self)@ == old(self)@.next_state(report, now),
            action == old(self)@.next_action(report, now),
    {
        let closes = match report {
            Report::Received(event) => event.is_close_request(),
            _ => false,
        };
        let arrived = match report {
            Report::Completed => false,
            _ => true,
        };
        if closes {
            self.running = false;
        }
        match self.phase {
            Phase::Idle => {
                self.phase = Phase::Draining;
                self.last_fixed_update = now;
                Action::Receive { timeout: self.budget(now) }
            },
            Phase::Draining => {
                let budget: u64 = self.budget(now);
                if arrived && !closes && budget > 0 {
                    Action::Receive { timeout: budget }
                } else {
                    self.phase = Phase::Beginning;
                    self.last_fixed_update = now;
                    Action::Emit(EngineEvent::BeginFixedUpdate(self.tick))
                }
            },
            Phase::Beginning => {
                if self.tick == 0 {
                    self.phase = Phase::Startup;
                    Action::RunStartupSystems
                } else {
                    self.phase = Phase::Systems;
                    Action::RunSystems
                }
            },
            Phase::Startup => {
                self.phase = Phase::Systems;
                Action::RunSystems
            },
            Phase::Systems => {
                let tick: u64 = self.tick;
                self.phase = Phase::Ending;
                if tick < u64::MAX {
                    self.tick = tick + 1;
                }
                Action::Emit(EngineEvent::EndFixedUpdate(tick))
            },
            Phase::Ending => {
                if self.running && self.tick < u64::MAX {
                    self.phase = Phase::Draining;
                    Action::Receive { timeout: self.budget(now) }
                } else {
                    self.phase = Phase::Closing;
                    Action::Emit(EngineEvent::Closed)
                }
            },
            Phase::Closing => {
                self.phase = Phase::Exited;
                Action::Exit
            },
            Phase::Exited => Action::Exit,
        }
    }
}

/// One step of a run: a report and the clock reading that comes with it.
pub struct Input {
    pub report: Report,
    pub now: u64,
}

impl SchedulerView {
    /// The state after one step for each of `inputs`, in their order.
    pub open spec fn after(self, inputs: Seq<Input>) -> SchedulerView
        decreases inputs.len(),
    {
        if inputs.len() == 0 {
            self
        } else {
            self.after(inputs.drop_last()).next_state(inputs.last().report, inputs.last().now)
        }
    }

    /// The actions that the steps for `inputs` hand out, in their order.
    pub open spec fn actions(self, inputs: Seq<Input>) -> Seq<Action>
        decreases inputs.len(),
    {
        if inputs.len() == 0 {
            Seq::empty()
        } else {
            self.actions(inputs.drop_last()).push(
                self.after(inputs.drop_last()).next_action(
                    inputs.last().report,
                    inputs.last().now,
                ),
            )
        }
    }

    /// The engine events that a scheduler in this state has handed out since it was made.
    pub open spec fn expected_events(self) -> Seq<EngineEvent> {
        let completed = fixed_updates(self.tick as nat);
        match self.phase {
            Phase::Idle | Phase::Draining | Phase::Ending => completed,
            Phase::Beginning | Phase::Startup | Phase::Systems => completed.push(
                EngineEvent::BeginFixedUpdate(self.tick),
            ),
            Phase::Closing | Phase::Exited => completed.push(EngineEvent::Closed),
        }
    }

    /// The runs of systems that a scheduler in this state has asked for since it was made.
    pub open spec fn expected_runs(self) -> Seq<Action> {
        match self.phase {
            Phase::Startup => startup_then(0),
            Phase::Systems => startup_then(self.tick as nat + 1),
            _ => if self.tick == 0 {
                Seq::empty()
            } else {
                startup_then(self.tick as nat)
            },
        }
    }
}

/// The engine events among `actions`, in their order.
pub open spec fn emitted(actions: Seq<Action>) -> Seq<EngineEvent>
    decreases actions.len(),
{
    if actions.len() == 0 {
        Seq::empty()
    } else {
        match actions.last() {
            Action::Emit(event) => emitted(actions.drop_last()).push(event),
            _ => emitted(actions.drop_last()),
        }
    }
}

/// The runs of systems among `actions`, in their order.
pub open spec fn runs(actions: Seq<Action>) -> Seq<Action>
    decreases actions.len(),
{
    if actions.len() == 0 {
        Seq::empty()
    } else {
        match actions.last() {
            Action::RunStartupSystems => runs(actions.drop_last()).push(Action::RunStartupSystems),
            Action::RunSystems => runs(actions.drop_last()).push(Action::RunSystems),
            _ => runs(actions.drop_last()),
        }
    }
}

/// The events of the cycles `0` to `count - 1`: for each cycle its `BeginFixedUpdate`
/// directly followed by its `EndFixedUpdate`.
pub open spec fn fixed_updates(count: nat) -> Seq<EngineEvent>
    decreases count,
{
    if count == 0 {
        Seq::empty()
    } else {
        fixed_updates((count - 1) as nat).push(
            EngineEvent::BeginFixedUpdate((count - 1) as u64),
        ).push(EngineEvent::EndFixedUpdate((count - 1) as u64))
    }
}

/// One run of the startup systems followed by `count` runs of the per-tick systems.
pub open spec fn startup_then(count: nat) -> Seq<Action>
    decreases count,
{
    if count == 0 {
        seq![Action::RunStartupSystems]
    } else {
        startup_then((count - 1) as nat).push(Action::RunSystems)
    }
}

proof fn lemma_emitted_push(actions: Seq<Action>, action: Action)
    ensures
        emitted(actions.push(action)) == (match action {
            Action::Emit(event) => emitted(actions).push(event),
            _ => emitted(actions),
        }),
{
    assert(actions.push(action).drop_last() =~= actions);
}

proof fn lemma_runs_push(actions: Seq<Action>, action: Action)
    ensures
        runs(actions.push(action)) == (match action {
            Action::RunStartupSystems => runs(actions).push(action),
            Action::RunSystems => runs(actions).push(action),
            _ => runs(actions),
        }),
{
    assert(actions.push(action).drop_last() =~= actions);
}

/// One step keeps the scheduler well formed and adds to the events and to the runs of
/// systems exactly what its action says.
pub proof fn lemma_step(state: SchedulerView, report: Report, now: u64)
    requires
        state.wf(),
    ensures
        state.next_state(report, now).wf(),
        state.next_state(report, now).expected_events() == (match state.next_action(report, now) {
            Action::Emit(event) => state.expected_events().push(event),
            _ => state.expected_events(),
        }),
        state.next_state(report, now).expected_runs() == (match state.next_action(report, now) {
            Action::RunStartupSystems => state.expected_runs().push(Action::RunStartupSystems),
            Action::RunSystems => state.expected_runs().push(Action::RunSystems),
            _ => state.expected_runs(),
        }),
{
}

/// Every reachable state is well formed, and the events and the runs of systems that
/// were handed out on the way are the ones that the state stands for.
proof fn lemma_run(period: u64, inputs: Seq<Input>)
    ensures
        SchedulerView::initial(period).after(inputs).wf(),
        emitted(SchedulerView::initial(period).actions(inputs)) == SchedulerView::initial(
            period,
        ).after(inputs).expected_events(),
        runs(SchedulerView::initial(period).actions(inputs)) == SchedulerView::initial(
            period,
        ).after(inputs).expected_runs(),
    decreases inputs.len(),
{
    let start = SchedulerView::initial(period);
    if inputs.len() == 0 {
    } else {
        let earlier = inputs.drop_last();
        let last = inputs.last();
        lemma_run(period, earlier);
        lemma_step(start.after(earlier), last.report, last.now);
        lemma_emitted_push(
            start.actions(earlier),
            start.after(earlier).next_action(last.report, last.now),
        );
        lemma_runs_push(
            start.actions(earlier),
            start.after(earlier).next_action(last.report, last.now),
        );
    }
}

/// The wait for client events never outlasts a tick, and it shrinks as time passes: the
/// later the clock reading, the less is left until the next tick is due.
pub proof fn lemma_budget_shrinks(state: SchedulerView, earlier: u64, later: u64)
    requires
        earlier <= later,
    ensures
        state.budget(later) <= state.budget(earlier),
        state.budget(earlier) <= state.period,
        state.next_action(Report::Completed, later) matches Action::Receive { timeout }
            ==> timeout <= state.period,
{
}

/// Whatever the caller reports and whenever, the engine events that a scheduler hands
/// out are `BeginFixedUpdate(0)`, `EndFixedUpdate(0)`, `BeginFixedUpdate(1)`,
/// `EndFixedUpdate(1)` and so on: the ticks start at 0 and rise by one, the end of a tick
/// follows its beginning directly, and `Closed`, if it comes, comes last and after the
/// end of a tick.
pub proof fn lemma_ticks_in_order(period: u64, inputs: Seq<Input>)
    ensures
        ({
            let state = SchedulerView::initial(period).after(inputs);
            let events = emitted(SchedulerView::initial(period).actions(inputs));
            let completed = fixed_updates(state.tick as nat);
            ||| events == completed
            ||| events == completed.push(EngineEvent::BeginFixedUpdate(state.tick))
            ||| events == completed.push(EngineEvent::Closed) && state.tick > 0
        }),
{
    lemma_run(period, inputs);
    lemma_closes_after_a_cycle(period, inputs);
}

/// A scheduler never closes before it has completed a cycle.
proof fn lemma_closes_after_a_cycle(period: u64, inputs: Seq<Input>)
    ensures
        ({
            let state = SchedulerView::initial(period).after(inputs);
            (state.phase is Ending || state.phase is Closing || state.phase is Exited)
                ==> state.tick > 0
        }),
    decreases inputs.len(),
{
    if inputs.len() > 0 {
        lemma_closes_after_a_cycle(period, inputs.drop_last());
        lemma_run(period, inputs.drop_last());
    }
}

/// Whatever the caller reports and whenever, the startup systems are run at most once,
/// and before every run of the per-tick systems: the runs that a scheduler asks for are
/// none at all, or one run of the startup systems followed by runs of the per-tick
/// systems, one for each cycle that has got that far.
pub proof fn lemma_startup_runs_once(period: u64, inputs: Seq<Input>)
    ensures
        ({
            let state = SchedulerView::initial(period).after(inputs);
            let asked = runs(SchedulerView::initial(period).actions(inputs));
            ||| asked == Seq::<Action>::empty() && state.tick == 0
            ||| asked == startup_then(state.tick as nat)
            ||| asked == startup_then(state.tick as nat + 1) && state.phase is Systems
        }),
{
    lemma_run(period, inputs);
}

} // verus!
