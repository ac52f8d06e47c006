use nd_engine::client::ClientEvent;
use nd_engine::engine::Engine;
use nd_engine::engine::EngineBuilder;
use nd_engine::engine::EngineBuilderRef;
use nd_engine::engine::EngineConfig;
use nd_engine::engine::EngineEvent;
use nd_engine::engine::PluginConfig;
use nd_engine::engine::TICKS_PER_SECOND;
use nd_engine::plugin::Plugin;
use nd_engine::scheduler::Action;
use nd_engine::scheduler::Report;
use nd_engine::system::FromFn;
use nd_engine::system::System;
use nd_engine::system::Systems;
use nd_engine::world::Command;
use nd_engine::world::Commands;
use nd_engine::world::RawWorld;
use std::sync::atomic::AtomicUsize;
use std::sync::atomic::Ordering;
use std::sync::Arc;
use std::sync::Mutex;

struct Mark {
    label: &'static str,
    log: Arc<Mutex<Vec<&'static str>>>,
}

impl Command for Mark {
    fn run(self: Box<Self>, _world: &mut RawWorld) {
        self.log.lock().unwrap().push(self.label);
    }
}

struct Recorder {
    label: &'static str,
    log: Arc<Mutex<Vec<&'static str>>>,
}

impl System for Recorder {
    fn run(&mut self, _world: &RawWorld, _commands: &mut Commands) {
        self.log.lock().unwrap().push(self.label);
    }
}

fn run_until_exit(engine: &mut Engine, close_at_round: usize) -> Vec<Action> {
    let mut actions = Vec::new();
    let mut report = Report::Completed;
    let mut now: u64 = 0;
    for round in 0..10_000 {
        assert!(engine.is_settled());
        let action = engine.run(report, now);
        actions.push(action);
        now += 1_000_000;
        report = match action {
            Action::Exit => return actions,
            Action::Receive { .. } if round >= close_at_round => {
                Report::Received(ClientEvent::CloseRequested)
            }
            _ => Report::Completed,
        };
    }
    panic!("the engine did not exit");
}

#[test]
fn the_engine_ticks_120_times_per_second() {
    assert_eq!(TICKS_PER_SECOND, 120);
    let mut engine = Engine::new();
    assert_eq!(engine.run(Report::Completed, 0), Action::Receive { timeout: 8_333_333 });
}

#[test]
fn startup_systems_run_once_before_the_first_per_tick_system() {
    let log = Arc::new(Mutex::new(Vec::new()));
    let mut engine = Engine::new();
    engine
        .add_startup_system(Recorder { label: "startup", log: log.clone() })
        .add_system(Recorder { label: "tick", log: log.clone() })
        .add_startup_system(Recorder { label: "late startup", log: log.clone() });
    let actions = run_until_exit(&mut engine, 40);
    let log = log.lock().unwrap();
    assert_eq!(log[0], "startup");
    assert_eq!(log[1], "late startup");
    assert!(log.len() > 4);
    assert!(log[2..].iter().all(|label| *label == "tick"));
    let ends = actions
        .iter()
        .filter(|action| matches!(action, Action::Emit(EngineEvent::EndFixedUpdate(_))))
        .count();
    assert_eq!(log.len() - 2, ends);
}

#[test]
fn an_engine_without_systems_still_emits_its_ticks() {
    let mut engine = Engine::new();
    let actions = run_until_exit(&mut engine, 0);
    assert_eq!(
        actions,
        vec![
            Action::Receive { timeout: 8_333_333 },
            Action::Emit(EngineEvent::BeginFixedUpdate(0)),
            Action::Emit(EngineEvent::EndFixedUpdate(0)),
            Action::Emit(EngineEvent::Closed),
            Action::Exit,
        ]
    );
}

#[test]
fn the_engine_never_hands_out_a_run_of_systems() {
    let mut engine = Engine::new();
    engine.add_system(FromFn::new(|_world: &RawWorld, _commands: &mut Commands| {}));
    for action in run_until_exit(&mut engine, 30) {
        assert!(!matches!(action, Action::RunStartupSystems | Action::RunSystems));
    }
}

#[test]
fn a_startup_command_is_applied_during_the_first_per_tick_run() {
    let log = Arc::new(Mutex::new(Vec::new()));
    let mut engine = Engine::new();
    let handle = log.clone();
    engine.add_startup_system(FromFn::new(move |_world: &RawWorld, commands: &mut Commands| {
        commands.add(Mark { label: "command", log: handle.clone() });
    }));
    engine.add_system(Recorder { label: "tick", log: log.clone() });
    assert_eq!(engine.run(Report::Completed, 0), Action::Receive { timeout: 8_333_333 });
    assert_eq!(
        engine.run(Report::Completed, 1),
        Action::Emit(EngineEvent::BeginFixedUpdate(0))
    );
    assert!(log.lock().unwrap().is_empty());
    assert_eq!(engine.run(Report::Completed, 2), Action::Emit(EngineEvent::EndFixedUpdate(0)));
    assert_eq!(*log.lock().unwrap(), vec!["command", "tick"]);
}

#[test]
fn a_caller_can_take_the_steps_and_run_the_systems_itself() {
    let runs = Arc::new(AtomicUsize::new(0));
    let mut engine = Engine::new();
    let handle = runs.clone();
    engine.add_system(FromFn::new(move |_world: &RawWorld, _commands: &mut Commands| {
        handle.fetch_add(1, Ordering::SeqCst);
    }));
    let mut report = Report::Completed;
    let mut emitted = Vec::new();
    for round in 0..100u64 {
        match engine.step(report, round * 1_000_000) {
            Action::Receive { .. } if round > 20 => {
                report = Report::Received(ClientEvent::CloseRequested);
                continue;
            }
            Action::Emit(event) => emitted.push(event),
            Action::RunStartupSystems => {
                let (world, systems) = engine.startup_parts();
                assert!(world.is_settled());
                world.write_swap_sync(systems);
            }
            Action::RunSystems => {
                let (world, systems) = engine.cycle_parts();
                assert!(world.is_settled());
                world.write_swap_sync(systems);
            }
            Action::Exit => break,
            Action::Receive { .. } => {}
        }
        report = Report::Completed;
    }
    assert_eq!(emitted.last(), Some(&EngineEvent::Closed));
    let ends = emitted
        .iter()
        .filter(|event| matches!(event, EngineEvent::EndFixedUpdate(_)))
        .count();
    assert!(ends >= 2);
    assert_eq!(runs.load(Ordering::SeqCst), ends);
}

#[test]
fn run_startup_systems_and_run_systems_run_their_own_set() {
    let log = Arc::new(Mutex::new(Vec::new()));
    let mut engine = Engine::new();
    engine.add_startup_system(Recorder { label: "startup", log: log.clone() });
    engine.add_system(Recorder { label: "tick", log: log.clone() });
    engine.run_systems();
    engine.run_startup_systems();
    engine.run_systems();
    assert_eq!(*log.lock().unwrap(), vec!["tick", "startup", "tick"]);
    assert!(engine.is_settled());
}

#[test]
fn the_builder_keeps_the_pipe_and_the_configuration() {
    let plugins = vec![
        PluginConfig::new("plugins/a.so".to_string(), true),
        PluginConfig::new("plugins/b.so".to_string(), false),
    ];
    let builder = EngineBuilder::new("pipe-17".to_string(), EngineConfig::new(plugins));
    assert_eq!(builder.pipe(), "pipe-17");
    let configured = builder.engine_config().plugins();
    assert_eq!(configured.len(), 2);
    assert_eq!(configured[0].path(), "plugins/a.so");
    assert!(configured[0].enabled());
    assert_eq!(configured[1].path(), "plugins/b.so");
    assert!(!configured[1].enabled());
    let borrowed = EngineBuilderRef::new(builder.pipe(), builder.engine_config());
    assert_eq!(borrowed.pipe(), "pipe-17");
    assert_eq!(borrowed.engine_config().plugins().len(), 2);
    let same = builder.as_ref();
    assert_eq!(same.pipe(), "pipe-17");
    assert_eq!(same.engine_config().plugins()[1].path(), "plugins/b.so");
    let mut engine = builder.build();
    assert_eq!(engine.engine_config().plugins().len(), 2);
    assert_eq!(engine.engine_config().plugins()[0].path(), "plugins/a.so");
    assert!(Engine::new().engine_config().plugins().is_empty());
    assert_eq!(engine.run(Report::Completed, 0), Action::Receive { timeout: 8_333_333 });
}

#[test]
fn the_systems_of_a_plugin_run_behind_the_ones_registered_before() {
    let log = Arc::new(Mutex::new(Vec::new()));
    let mut engine = Engine::new();
    engine.add_system(Recorder { label: "own", log: log.clone() });
    let mut plugin = Plugin::new();
    plugin
        .add_startup_system(Recorder { label: "plugin startup", log: log.clone() })
        .add_system(Recorder { label: "plugin first", log: log.clone() })
        .add_system(Recorder { label: "plugin second", log: log.clone() });
    engine.add_plugin(&mut plugin);
    engine.add_plugin(&mut plugin);
    engine.run_startup_systems();
    engine.run_systems();
    assert_eq!(
        *log.lock().unwrap(),
        vec!["plugin startup", "own", "plugin first", "plugin second"]
    );
}

#[test]
fn appending_moves_the_systems_over() {
    let log = Arc::new(Mutex::new(Vec::new()));
    let mut first = Systems::new();
    first.add(Recorder { label: "a", log: log.clone() });
    let mut second = Systems::new();
    second.add(Recorder { label: "b", log: log.clone() });
    second.add(Recorder { label: "c", log: log.clone() });
    first.append(&mut second);
    assert_eq!(first.len(), 3);
    assert_eq!(second.len(), 0);
    let world = RawWorld::new();
    let mut commands = Commands::new();
    second.run(&world, &mut commands);
    assert!(log.lock().unwrap().is_empty());
    first.run(&world, &mut commands);
    assert_eq!(*log.lock().unwrap(), vec!["a", "b", "c"]);
}

#[test]
fn only_enabled_plugins_are_chosen_and_in_their_order() {
    let config = EngineConfig::new(vec![
        PluginConfig::new("a".to_string(), false),
        PluginConfig::new("b".to_string(), true),
        PluginConfig::new("c".to_string(), false),
        PluginConfig::new("d".to_string(), true),
        PluginConfig::new("e".to_string(), true),
    ]);
    let chosen: Vec<&str> = config.enabled_plugins().iter().map(|plugin| plugin.path()).collect();
    assert_eq!(chosen, vec!["b", "d", "e"]);
    assert!(EngineConfig::new(Vec::new()).enabled_plugins().is_empty());
    let none = EngineConfig::new(vec![PluginConfig::new("x".to_string(), false)]);
    assert!(none.enabled_plugins().is_empty());
}
