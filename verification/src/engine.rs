//! The simulation: its launch parameters, the events it sends to the front-end, and the
//! engine that runs the systems tick by tick.

use crate::plugin::Plugin;
use crate::scheduler::Action;
use crate::scheduler::Input;
use crate::scheduler::Phase;
use crate::scheduler::Report;
use crate::scheduler::Scheduler;
use crate::scheduler::SchedulerView;
use crate::system::each_run_once_more;
use crate::system::run_counts;
use crate::system::BoxedSystem;
use crate::system::System;
use crate::system::Systems;
use crate::world::BoxedCommand;
use crate::world::World;
use crate::world::WorldView;
use vstd::prelude::*;

verus! {

/// What the simulation tells the front-end.
///
/// The set of events may grow. A receiver must not assume that it knows every event.
#[derive(Clone, Copy, Debug, PartialEq, Eq, Structural)]
#[non_exhaustive]
pub enum EngineEvent {
    /// The simulation has run its last cycle and shuts down.
    Closed,
    /// The cycle with this number starts.
    BeginFixedUpdate(u64),
    /// The cycle with this number is over.
    EndFixedUpdate(u64),
}

/// The number of cycles per second of an engine that was not told otherwise.
pub const TICKS_PER_SECOND: u32 = 120;

/// A plugin that a simulation is configured with.
#[derive(Clone)]
pub struct PluginConfig {
    path: String,
    enabled: bool,
}

impl PluginConfig {
    /// The path of the plugin's shared library.
    pub closed spec fn spec_path(&self) -> Seq<char> {
        self.path@
    }

    /// Whether the plugin is to be loaded.
    pub closed spec fn spec_enabled(&self) -> bool {
        self.enabled
    }

    pub fn new(path: String, enabled: bool) -> (config: PluginConfig)
        ensures
            config.spec_path() == path@,
            config.spec_enabled() == enabled,
    {
        PluginConfig { path, enabled }
    }

    /// The path of the plugin's shared library.
    pub fn path(&self) -> (path: &str)
        ensures
            path@ == self.spec_path(),
    {
        self.path.as_str()
    }

    /// Whether the plugin is to be loaded.
    pub fn enabled(&self) -> (enabled: bool)
        ensures
            enabled == self.spec_enabled(),
    {
        self.enabled
    }
}

/// The settings of a simulation that do not depend on the tick.
#[derive(Clone)]
pub struct EngineConfig {
    plugins: Vec<PluginConfig>,
}

/// The plugins among `plugins` that are to be loaded, in their order.
pub open spec fn enabled(plugins: Seq<PluginConfig>) -> Seq<PluginConfig>
    decreases plugins.len(),
{
    if plugins.len() == 0 {
        Seq::empty()
    } else if plugins.last().spec_enabled() {
        enabled(plugins.drop_last()).push(plugins.last())
    } else {
        enabled(plugins.drop_last())
    }
}

impl EngineConfig {
    /// The configured plugins, in their order.
    pub closed spec fn spec_plugins(&self) -> Seq<PluginConfig> {
        self.plugins@
    }

    pub fn new(plugins: Vec<PluginConfig>) -> (config: EngineConfig)
        ensures
            config.spec_plugins() == plugins@,
    {
        EngineConfig { plugins }
    }

    /// The configured plugins, in their order.
    pub fn plugins(&self) -> (plugins: &[PluginConfig])
        ensures
            plugins@ == self.spec_plugins(),
    {
        self.plugins.as_slice()
    }

    /// The configured plugins that are to be loaded, in their order.
    pub fn enabled_plugins(&self) -> (plugins: Vec<&PluginConfig>)
        ensures
            plugins@.len() == enabled(self.spec_plugins()).len(),
            forall|i: int|
                0 <= i < plugins@.len() ==> *(#[trigger] plugins@[i]) == enabled(
                    self.spec_plugins(),
                )[i],
    {
        let mut chosen: Vec<&PluginConfig> = Vec::new();
        let mut index: usize = 0;
        while index < self.plugins.len()
            invariant
                index <= self.plugins.len(),
                chosen@.len() == enabled(self.plugins@.take(index as int)).len(),
                forall|i: int|
                    0 <= i < chosen@.len() ==> *(#[trigger] chosen@[i]) == enabled(
                        self.plugins@.take(index as int),
                    )[i],
            decreases self.plugins.len() - index,
        {
            let config = &self.plugins[index];
            assert(self.plugins@.take(index + 1).drop_last() =~= self.plugins@.take(
                index as int,
            ));
            if config.enabled {
                chosen.push(config);
            }
            index = index + 1;
        }
        assert(self.plugins@.take(index as int) =~= self.plugins@);
        chosen
    }
}

/// The launch parameters of the simulation process.
///
/// The front-end hands them to the simulation process in its one argument.
pub struct EngineBuilder {
    pipe: String,
    engine_config: EngineConfig,
}

impl EngineBuilder {
    /// The address at which the front-end waits for the simulation to connect.
    pub closed spec fn spec_pipe(&self) -> Seq<char> {
        self.pipe@
    }

    /// The settings that the simulation is started with.
    pub closed spec fn spec_engine_config(&self) -> EngineConfig {
        self.engine_config
    }

    pub fn new(pipe: String, engine_config: EngineConfig) -> (builder: EngineBuilder)
        ensures
            builder.spec_pipe() == pipe@,
            builder.spec_engine_config() == engine_config,
    {
        EngineBuilder { pipe, engine_config }
    }

    /// The settings that the simulation is started with.
    pub fn engine_config(&self) -> (config: &EngineConfig)
        ensures
            *config == self.spec_engine_config(),
    {
        &self.engine_config
    }

    /// The address at which the front-end waits for the simulation to connect.
    pub fn pipe(&self) -> (pipe: &str)
        ensures
            pipe@ == self.spec_pipe(),
    {
        self.pipe.as_str()
    }

    /// The same parameters, borrowed.
    pub fn as_ref(&self) -> (borrowed: EngineBuilderRef<'_>)
        ensures
            borrowed.spec_pipe() == self.spec_pipe(),
            borrowed.spec_engine_config() == self.spec_engine_config(),
    {
        EngineBuilderRef { pipe: self.pipe.as_str(), engine_config: &self.engine_config }
    }

    /// The engine that these parameters describe, before its first step. It keeps the
    /// settings; the pipe is for the caller, who dials it before the engine is built.
    pub fn build(self) -> (engine: Engine)
        ensures
            engine@ == EngineView::initial(),
            engine.spec_engine_config() == self.spec_engine_config(),
            engine.wf(),
    {
        Engine::with_config(self.engine_config)
    }
}

/// The launch parameters of the simulation process, borrowed.
pub struct EngineBuilderRef<'a> {
    pipe: &'a str,
    engine_config: &'a EngineConfig,
}

impl<'a> EngineBuilderRef<'a> {
    /// The address at which the front-end waits for the simulation to connect.
    pub closed spec fn spec_pipe(&self) -> Seq<char> {
        self.pipe@
    }

    /// The settings that the simulation is started with.
    pub closed spec fn spec_engine_config(&self) -> EngineConfig {
        *self.engine_config
    }

    pub fn new(pipe: &'a str, engine_config: &'a EngineConfig) -> (builder: EngineBuilderRef<'a>)
        ensures
            builder.spec_pipe() == pipe@,
            builder.spec_engine_config() == *engine_config,
    {
        EngineBuilderRef { pipe, engine_config }
    }

    /// The settings that the simulation is started with.
    pub fn engine_config(&self) -> (config: &'a EngineConfig)
        ensures
            *config == self.spec_engine_config(),
    {
        self.engine_config
    }

    /// The address at which the front-end waits for the simulation to connect.
    pub fn pipe(&self) -> (pipe: &'a str)
        ensures
            pipe@ == self.spec_pipe(),
    {
        self.pipe
    }
}

/// What an engine holds.
pub struct EngineView {
    pub scheduler: SchedulerView,
    pub world: WorldView,
    /// The startup systems, in the order of registration.
    pub startup_systems: Seq<BoxedSystem>,
    /// The per-tick systems, in the order of registration.
    pub systems: Seq<BoxedSystem>,
}

impl SchedulerView {
    /// Whether the step that answers `report` asks for a run of the startup systems.
    pub open spec fn starts_up(self, report: Report, now: u64) -> bool {
        self.next_state(report, now).phase is Startup
    }

    /// Whether the step that answers `report` asks for a run of systems.
    pub open spec fn runs_systems(self, report: Report, now: u64) -> bool {
        self.next_state(report, now).phase is Startup || self.next_state(report, now).phase
            is Systems
    }

    /// The state after the step that answers `report` and after the steps that report the
    /// runs of systems which that step and its successors ask for.
    pub open spec fn advanced(self, report: Report, now: u64) -> SchedulerView {
        let first = self.next_state(report, now);
        let second = if first.phase is Startup {
            first.next_state(Report::Completed, now)
        } else {
            first
        };
        if second.phase is Systems {
            second.next_state(Report::Completed, now)
        } else {
            second
        }
    }

    /// The action that is left for the caller once the runs of systems are done.
    pub open spec fn advanced_action(self, report: Report, now: u64) -> Action {
        let first = self.next_state(report, now);
        let second = if first.phase is Startup {
            first.next_state(Report::Completed, now)
        } else {
            first
        };
        if second.phase is Systems {
            second.next_action(Report::Completed, now)
        } else if first.phase is Startup {
            first.next_action(Report::Completed, now)
        } else {
            self.next_action(report, now)
        }
    }
}

impl SchedulerView {
    /// The state after [`Engine::run`] has answered each of `inputs`, in their order.
    pub open spec fn advanced_after(self, inputs: Seq<Input>) -> SchedulerView
        decreases inputs.len(),
    {
        if inputs.len() == 0 {
            self
        } else {
            self.advanced_after(inputs.drop_last()).advanced(
                inputs.last().report,
                inputs.last().now,
            )
        }
    }

    /// The actions that [`Engine::run`] hands out when it answers each of `inputs`, in
    /// their order.
    pub open spec fn advanced_actions(self, inputs: Seq<Input>) -> Seq<Action>
        decreases inputs.len(),
    {
        if inputs.len() == 0 {
            Seq::empty()
        } else {
            self.advanced_actions(inputs.drop_last()).push(
                self.advanced_after(inputs.drop_last()).advanced_action(
                    inputs.last().report,
                    inputs.last().now,
                ),
            )
        }
    }
}

/// Whatever is reported to an engine and whenever, the engine events that
/// [`Engine::run`] hands out are `BeginFixedUpdate(0)`, `EndFixedUpdate(0)`,
/// `BeginFixedUpdate(1)`, `EndFixedUpdate(1)` and so on, with `Closed`, if it comes, at
/// the end.
pub proof fn lemma_engine_ticks_in_order(period: u64, inputs: Seq<Input>)
    ensures
        ({
            let state = SchedulerView::initial(period).advanced_after(inputs);
            let events = crate::scheduler::emitted(
                SchedulerView::initial(period).advanced_actions(inputs),
            );
            &&& state.wf()
            &&& !(state.phase is Startup)
            &&& !(state.phase is Systems)
            &&& events == state.expected_events()
        }),
    decreases inputs.len(),
{
    let start = SchedulerView::initial(period);
    if inputs.len() > 0 {
        let earlier = inputs.drop_last();
        let last = inputs.last();
        lemma_engine_ticks_in_order(period, earlier);
        let reached = start.advanced_after(earlier);
        let first = reached.next_state(last.report, last.now);
        crate::scheduler::lemma_step(reached, last.report, last.now);
        if first.phase is Startup {
            crate::scheduler::lemma_step(first, Report::Completed, last.now);
            crate::scheduler::lemma_step(
                first.next_state(Report::Completed, last.now),
                Report::Completed,
                last.now,
            );
        } else if first.phase is Systems {
            crate::scheduler::lemma_step(first, Report::Completed, last.now);
        }
        let action = reached.advanced_action(last.report, last.now);
        let before = start.advanced_actions(earlier);
        assert(before.push(action).drop_last() =~= before);
    }
}

/// How far an engine has got: the state of its scheduler and the runs of its systems.
pub struct Progress {
    pub scheduler: SchedulerView,
    /// For every startup system, in the order of registration, how often it has run.
    pub startup_runs: Seq<nat>,
    /// For every per-tick system, in the order of registration, how often it has run.
    pub system_runs: Seq<nat>,
}

impl Progress {
    /// An engine with `startup` startup systems and `systems` per-tick systems that has
    /// not taken a step yet.
    pub open spec fn initial(period: u64, startup: nat, systems: nat) -> Progress {
        Progress {
            scheduler: SchedulerView::initial(period),
            startup_runs: Seq::new(startup, |i: int| 0nat),
            system_runs: Seq::new(systems, |i: int| 0nat),
        }
    }

    /// The progress after [`Engine::run`] has answered `report` at `now`.
    pub open spec fn advanced(self, report: Report, now: u64) -> Progress {
        Progress {
            scheduler: self.scheduler.advanced(report, now),
            startup_runs: if self.scheduler.starts_up(report, now) {
                each_run_once_more(self.startup_runs)
            } else {
                self.startup_runs
            },
            system_runs: if self.scheduler.runs_systems(report, now) {
                each_run_once_more(self.system_runs)
            } else {
                self.system_runs
            },
        }
    }

    /// The progress after [`Engine::run`] has answered each of `inputs`, in their order.
    pub open spec fn after(self, inputs: Seq<Input>) -> Progress
        decreases inputs.len(),
    {
        if inputs.len() == 0 {
            self
        } else {
            self.after(inputs.drop_last()).advanced(inputs.last().report, inputs.last().now)
        }
    }

    /// Whether every system has run as often as the tick counter asks for: a startup
    /// system once if a cycle has been completed and never before, a per-tick system
    /// once for every completed cycle.
    pub open spec fn in_step(self) -> bool {
        &&& forall|i: int|
            0 <= i < self.startup_runs.len() ==> #[trigger] self.startup_runs[i] == (if
                self.scheduler.tick > 0 {
                1nat
            } else {
                0nat
            })
        &&& forall|i: int|
            0 <= i < self.system_runs.len() ==> #[trigger] self.system_runs[i]
                == self.scheduler.tick
    }
}

/// Whatever is reported to an engine and whenever, and however many systems it holds,
/// between two calls of [`Engine::run`] every startup system has run exactly once if a
/// cycle has been completed, and not at all before, and every per-tick system has run
/// exactly once for every completed cycle.
pub proof fn lemma_systems_run_with_the_ticks(
    period: u64,
    startup: nat,
    systems: nat,
    inputs: Seq<Input>,
)
    ensures
        Progress::initial(period, startup, systems).after(inputs).in_step(),
        Progress::initial(period, startup, systems).after(inputs).startup_runs.len() == startup,
        Progress::initial(period, startup, systems).after(inputs).system_runs.len() == systems,
        Progress::initial(period, startup, systems).after(inputs).scheduler.wf(),
        !(Progress::initial(period, startup, systems).after(inputs).scheduler.phase is Startup),
        !(Progress::initial(period, startup, systems).after(inputs).scheduler.phase is Systems),
    decreases inputs.len(),
{
    if inputs.len() > 0 {
        lemma_systems_run_with_the_ticks(period, startup, systems, inputs.drop_last());
    }
}

impl EngineView {
    /// How far the engine has got.
    pub open spec fn progress(self) -> Progress {
        Progress {
            scheduler: self.scheduler,
            startup_runs: self.startup_runs(),
            system_runs: self.system_runs(),
        }
    }

    /// For every startup system, in the order of registration, how often it has run.
    pub open spec fn startup_runs(self) -> Seq<nat> {
        run_counts(self.startup_systems)
    }

    /// For every per-tick system, in the order of registration, how often it has run.
    pub open spec fn system_runs(self) -> Seq<nat> {
        run_counts(self.systems)
    }

    /// An engine without systems, before its first step.
    pub open spec fn initial() -> EngineView {
        EngineView {
            scheduler: SchedulerView::initial(crate::scheduler::tick_period(TICKS_PER_SECOND)),
            world: WorldView {
                read: crate::world::SlotView { snapshot: Seq::empty(), pending: Seq::empty() },
                write: crate::world::SlotView { snapshot: Seq::empty(), pending: Seq::empty() },
            },
            startup_systems: Seq::empty(),
            systems: Seq::empty(),
        }
    }
}

/// The simulation: a scheduler, a world, and the systems that run against it.
pub struct Engine {
    engine_config: EngineConfig,
    scheduler: Scheduler,
    world: World,
    startup_systems: Systems,
    systems: Systems,
}

impl Engine {
    pub closed spec fn view(&self) -> EngineView {
        EngineView {
            scheduler: self.scheduler@,
            world: self.world@,
            startup_systems: self.startup_systems@,
            systems: self.systems@,
        }
    }

    /// The settings that the engine was built with.
    pub closed spec fn spec_engine_config(&self) -> EngineConfig {
        self.engine_config
    }

    /// The world of the engine.
    pub closed spec fn spec_world(&self) -> World {
        self.world
    }

    /// The registry of the startup systems.
    pub closed spec fn spec_startup_systems(&self) -> Systems {
        self.startup_systems
    }

    /// The registry of the per-tick systems.
    pub closed spec fn spec_systems(&self) -> Systems {
        self.systems
    }

    /// Whether `after` is this engine with its scheduler in the state `scheduler`: the
    /// same world, the same registries, the same settings.
    pub open spec fn stepped_to(self, after: Engine, scheduler: SchedulerView) -> bool {
        &&& after@ == (EngineView { scheduler, ..self@ })
        &&& after.spec_world() == self.spec_world()
        &&& after.spec_startup_systems() == self.spec_startup_systems()
        &&& after.spec_systems() == self.spec_systems()
        &&& after.spec_engine_config() == self.spec_engine_config()
    }

    /// Whether the engine can take a step: its world must be between two cycles.
    pub open spec fn wf(&self) -> bool {
        self@.world.settled()
    }

    pub fn new() -> (engine: Engine)
        ensures
            engine@ == EngineView::initial(),
            engine.spec_engine_config().spec_plugins() == Seq::<PluginConfig>::empty(),
            engine.wf(),
    {
        Engine::with_config(EngineConfig::new(Vec::new()))
    }

    /// An engine without systems that keeps the settings `engine_config`.
    pub fn with_config(engine_config: EngineConfig) -> (engine: Engine)
        ensures
            engine@ == EngineView::initial(),
            engine.spec_engine_config() == engine_config,
            engine.wf(),
    {
        let engine = Engine {
            engine_config,
            scheduler: Scheduler::new(TICKS_PER_SECOND),
            world: World::new(),
            startup_systems: Systems::new(),
            systems: Systems::new(),
        };
        assert(engine@.world.write.pending =~= EngineView::initial().world.write.pending);
        engine
    }

    /// The settings that the engine was built with.
    pub fn engine_config(&self) -> (config: &EngineConfig)
        ensures
            *config == self.spec_engine_config(),
    {
        &self.engine_config
    }

    /// Registers a system that runs once, before the per-tick systems of the first cycle.
    pub fn add_startup_system<S: System>(&mut self, system: S) -> (engine: &mut Self)
        ensures
            engine@ == (EngineView {
                startup_systems: old(self)@.startup_systems.push(BoxedSystem::of(system)),
                ..old(self)@
            }),
            engine@.startup_runs() == old(self)@.startup_runs().push(0),
            *final(self) == *final(engine),
    {
        self.startup_systems.add(system);
        self
    }

    /// Registers a system that runs once in every cycle.
    pub fn add_system<S: System>(&mut self, system: S) -> (engine: &mut Self)
        ensures
            engine@ == (EngineView {
                systems: old(self)@.systems.push(BoxedSystem::of(system)),
                ..old(self)@
            }),
            engine@.system_runs() == old(self)@.system_runs().push(0),
            *final(self) == *final(engine),
    {
        self.systems.add(system);
        self
    }

    /// Registers the systems of a plugin behind the systems that are registered already,
    /// each in its set. The plugin is left without systems.
    pub fn add_plugin(&mut self, plugin: &mut Plugin) -> (engine: &mut Self)
        ensures
            engine@ == (EngineView {
                startup_systems: old(self)@.startup_systems + old(plugin)@.startup_systems,
                systems: old(self)@.systems + old(plugin)@.systems,
                ..old(self)@
            }),
            final(plugin)@.startup_systems == Seq::<BoxedSystem>::empty(),
            final(plugin)@.systems == Seq::<BoxedSystem>::empty(),
            *final(self) == *final(engine),
    {
        plugin.register(&mut self.startup_systems, &mut self.systems);
        self
    }

    /// Tests whether the engine can take a step.
    pub fn is_settled(&self) -> (settled: bool)
        ensures
            settled == self.wf(),
    {
        self.world.is_settled()
    }

    /// The scheduler's answer to `report`, with nothing carried out.
    ///
    /// A caller that runs the systems itself, on threads of its own, takes this step
    /// and carries out every action that it is handed, the runs of systems included.
    pub fn step(&mut self, report: Report, now: u64) -> (action: Action)
        ensures
            final(self)@ == (EngineView {
                scheduler: old(self)@.scheduler.next_state(report, now),
                ..old(self)@
            }),
            action == old(self)@.scheduler.next_action(report, now),
    {
        self.scheduler.step(report, now)
    }

    /// The world together with the startup systems.
    pub fn startup_parts(&mut self) -> (parts: (&mut World, &mut Systems))
        ensures
            *parts.0 == old(self).spec_world(),
            *parts.1 == old(self).spec_startup_systems(),
            parts.0@ == old(self)@.world,
            parts.1@ == old(self)@.startup_systems,
            final(self)@ == (EngineView {
                world: final(parts.0)@,
                startup_systems: final(parts.1)@,
                ..old(self)@
            }),
            final(self).spec_world() == *final(parts.0),
            final(self).spec_startup_systems() == *final(parts.1),
            final(self).spec_systems() == old(self).spec_systems(),
    {
        (&mut self.world, &mut self.startup_systems)
    }

    /// The world together with the per-tick systems.
    pub fn cycle_parts(&mut self) -> (parts: (&mut World, &mut Systems))
        ensures
            *parts.0 == old(self).spec_world(),
            *parts.1 == old(self).spec_systems(),
            parts.0@ == old(self)@.world,
            parts.1@ == old(self)@.systems,
            final(self)@ == (EngineView {
                world: final(parts.0)@,
                systems: final(parts.1)@,
                ..old(self)@
            }),
            final(self).spec_world() == *final(parts.0),
            final(self).spec_systems() == *final(parts.1),
            final(self).spec_startup_systems() == old(self).spec_startup_systems(),
    {
        (&mut self.world, &mut self.systems)
    }

    /// Runs one cycle of the world with the startup systems, one after another:
    /// [`World::write_swap_sync`] is called on a borrow of the engine's world and a borrow
    /// of the registry of the startup systems.
    pub fn run_startup_systems(&mut self)
        requires
            old(self).wf(),
        ensures
            final(self).wf(),
            final(self)@.scheduler == old(self)@.scheduler,
            final(self)@.world == old(self)@.world.cycle(final(self)@.world.read.pending),
            final(self)@.startup_runs() == each_run_once_more(old(self)@.startup_runs()),
            final(self)@.systems == old(self)@.systems,
            final(self).spec_systems() == old(self).spec_systems(),
            final(self).spec_engine_config() == old(self).spec_engine_config(),
            exists|world: &mut World, registry: &mut Systems|
                {
                    &&& *world == old(self).spec_world()
                    &&& *final(world) == final(self).spec_world()
                    &&& *registry == old(self).spec_startup_systems()
                    &&& *final(registry) == final(self).spec_startup_systems()
                    &&& #[trigger] call_ensures(World::write_swap_sync, (world, registry), ())
                },
    {
        self.world.write_swap_sync(&mut self.startup_systems);
        proof {
            let (world, registry) = choose|world: &mut World, registry: &mut Systems|
                {
                    &&& *world == old(self).world
                    &&& *final(world) == self.world
                    &&& *registry == old(self).startup_systems
                    &&& *final(registry) == self.startup_systems
                    &&& #[trigger] call_ensures(World::write_swap_sync, (world, registry), ())
                };
            assert(*world == old(self).spec_world());
            assert(call_ensures(World::write_swap_sync, (world, registry), ()));
        }
    }

    /// Runs one cycle of the world with the per-tick systems, one after another:
    /// [`World::write_swap_sync`] is called on a borrow of the engine's world and a borrow
    /// of the registry of the per-tick systems.
    pub fn run_systems(&mut self)
        requires
            old(self).wf(),
        ensures
            final(self).wf(),
            final(self)@.scheduler == old(self)@.scheduler,
            final(self)@.world == old(self)@.world.cycle(final(self)@.world.read.pending),
            final(self)@.system_runs() == each_run_once_more(old(self)@.system_runs()),
            final(self)@.startup_systems == old(self)@.startup_systems,
            final(self).spec_startup_systems() == old(self).spec_startup_systems(),
            final(self).spec_engine_config() == old(self).spec_engine_config(),
            exists|world: &mut World, registry: &mut Systems|
                {
                    &&& *world == old(self).spec_world()
                    &&& *final(world) == final(self).spec_world()
                    &&& *registry == old(self).spec_systems()
                    &&& *final(registry) == final(self).spec_systems()
                    &&& #[trigger] call_ensures(World::write_swap_sync, (world, registry), ())
                },
    {
        self.world.write_swap_sync(&mut self.systems);
        proof {
            let (world, registry) = choose|world: &mut World, registry: &mut Systems|
                {
                    &&& *world == old(self).world
                    &&& *final(world) == self.world
                    &&& *registry == old(self).systems
                    &&& *final(registry) == self.systems
                    &&& #[trigger] call_ensures(World::write_swap_sync, (world, registry), ())
                };
            assert(*world == old(self).spec_world());
            assert(call_ensures(World::write_swap_sync, (world, registry), ()));
        }
    }

    /// Answers the report on the last action with the next action that needs the outside
    /// world: a wait for a client event, an engine event to send, or the exit.
    ///
    /// Runs of systems that are due are carried out on the way, one system after
    /// another: in the first cycle [`Engine::run_startup_systems`] and then
    /// [`Engine::run_systems`], in every later cycle [`Engine::run_systems`] alone,
    /// between the cycle's `BeginFixedUpdate` and its `EndFixedUpdate`. The scheduler
    /// takes one step before each run and one after the last.
    pub fn run(&mut self, report: Report, now: u64) -> (action: Action)
        requires
            old(self).wf(),
        ensures
            final(self).wf(),
            final(self)@.progress() == old(self)@.progress().advanced(report, now),
            action == old(self)@.scheduler.advanced_action(report, now),
            !(action is RunStartupSystems),
            !(action is RunSystems),
            final(self).spec_engine_config() == old(self).spec_engine_config(),
            !old(self)@.scheduler.runs_systems(report, now) ==> old(self).stepped_to(
                *final(self),
                old(self)@.scheduler.next_state(report, now),
            ),
            old(self)@.scheduler.runs_systems(report, now) && !old(self)@.scheduler.starts_up(
                report,
                now,
            ) ==> exists|cycle: &mut Engine|
                {
                    &&& old(self).stepped_to(*cycle, old(self)@.scheduler.next_state(report, now))
                    &&& #[trigger] call_ensures(Engine::run_systems, (cycle,), ())
                    &&& final(cycle).stepped_to(
                        *final(self),
                        final(cycle)@.scheduler.next_state(Report::Completed, now),
                    )
                },
            old(self)@.scheduler.starts_up(report, now) ==> exists|startup: &mut Engine|
                {
                    &&& old(self).stepped_to(
                        *startup,
                        old(self)@.scheduler.next_state(report, now),
                    )
                    &&& #[trigger] call_ensures(Engine::run_startup_systems, (startup,), ())
                    &&& exists|cycle: &mut Engine|
                        {
                            &&& final(startup).stepped_to(
                                *cycle,
                                final(startup)@.scheduler.next_state(Report::Completed, now),
                            )
                            &&& #[trigger] call_ensures(Engine::run_systems, (cycle,), ())
                            &&& final(cycle).stepped_to(
                                *final(self),
                                final(cycle)@.scheduler.next_state(Report::Completed, now),
                            )
                        }
                },
    {
        let mut action = self.scheduler.step(report, now);
        let ghost first = *self;
        let ghost mut second = *self;
        let ghost mut third = *self;
        let ghost mut fourth = *self;
        if let Action::RunStartupSystems = action {
            self.run_startup_systems();
            proof {
                second = *self;
            }
            action = self.scheduler.step(Report::Completed, now);
            proof {
                third = *self;
            }
        }
        if let Action::RunSystems = action {
            proof {
                third = *self;
            }
            self.run_systems();
            proof {
                fourth = *self;
            }
            action = self.scheduler.step(Report::Completed, now);
        }
        proof {
            if old(self)@.scheduler.starts_up(report, now) {
                let startup = choose|startup: &mut Engine|
                    {
                        &&& *startup == first
                        &&& *final(startup) == second
                        &&& #[trigger] call_ensures(Engine::run_startup_systems, (startup,), ())
                    };
                let cycle = choose|cycle: &mut Engine|
                    {
                        &&& *cycle == third
                        &&& *final(cycle) == fourth
                        &&& #[trigger] call_ensures(Engine::run_systems, (cycle,), ())
                    };
                assert(old(self).stepped_to(*startup, old(self)@.scheduler.next_state(report, now)));
                assert(final(startup).stepped_to(
                    *cycle,
                    final(startup)@.scheduler.next_state(Report::Completed, now),
                ));
                assert(final(cycle).stepped_to(
                    *self,
                    final(cycle)@.scheduler.next_state(Report::Completed, now),
                ));
                assert(call_ensures(Engine::run_systems, (cycle,), ()));
                assert(call_ensures(Engine::run_startup_systems, (startup,), ()));
            } else if old(self)@.scheduler.runs_systems(report, now) {
                let cycle = choose|cycle: &mut Engine|
                    {
                        &&& *cycle == third
                        &&& *final(cycle) == fourth
                        &&& #[trigger] call_ensures(Engine::run_systems, (cycle,), ())
                    };
                assert(old(self).stepped_to(*cycle, old(self)@.scheduler.next_state(report, now)));
                assert(final(cycle).stepped_to(
                    *self,
                    final(cycle)@.scheduler.next_state(Report::Completed, now),
                ));
                assert(call_ensures(Engine::run_systems, (cycle,), ()));
            }
        }
        action
    }
}

} // verus!
