use nd_engine::system::FromFn;
use nd_engine::system::System;
use nd_engine::system::Systems;
use nd_engine::world::BoxedCommand;
use nd_engine::world::Command;
use nd_engine::world::Commands;
use nd_engine::world::EventBuffer;
use nd_engine::world::EventWriter;
use nd_engine::world::RawWorld;
use nd_engine::world::World;
use std::sync::atomic::AtomicUsize;
use std::sync::atomic::Ordering;
use std::sync::Arc;
use std::sync::Mutex;

struct Count {
    applied: Arc<AtomicUsize>,
}

impl Command for Count {
    fn run(self: Box<Self>, _world: &mut RawWorld) {
        self.applied.fetch_add(1, Ordering::SeqCst);
    }
}

struct Note {
    label: u32,
    log: Arc<Mutex<Vec<u32>>>,
}

impl Command for Note {
    fn run(self: Box<Self>, _world: &mut RawWorld) {
        self.log.lock().unwrap().push(self.label);
    }
}

struct Emitter {
    applied: Arc<AtomicUsize>,
    seen: Arc<Mutex<Vec<usize>>>,
}

impl System for Emitter {
    fn run(&mut self, _world: &RawWorld, commands: &mut Commands) {
        self.seen.lock().unwrap().push(self.applied.load(Ordering::SeqCst));
        commands.add(Count { applied: self.applied.clone() });
    }
}

struct Numbering {
    next: u32,
    log: Arc<Mutex<Vec<u32>>>,
}

impl System for Numbering {
    fn run(&mut self, _world: &RawWorld, commands: &mut Commands) {
        commands.add(Note { label: self.next, log: self.log.clone() });
        commands.add(Note { label: self.next + 1, log: self.log.clone() });
        self.next += 2;
    }
}

#[test]
fn command_is_applied_one_cycle_later() {
    let applied = Arc::new(AtomicUsize::new(0));
    let seen = Arc::new(Mutex::new(Vec::new()));
    let mut world = World::new();
    let mut systems = Systems::new();
    systems.add(Emitter { applied: applied.clone(), seen: seen.clone() });
    let handle = applied.clone();
    systems.add(FromFn::new(move |_world: &RawWorld, commands: &mut Commands| {
        commands.add(Count { applied: handle.clone() });
    }));
    assert!(world.is_settled());
    world.write_swap_sync(&mut systems);
    assert_eq!(applied.load(Ordering::SeqCst), 0);
    world.write_swap_sync(&mut systems);
    assert_eq!(applied.load(Ordering::SeqCst), 2);
    world.write_swap_sync(&mut systems);
    assert_eq!(applied.load(Ordering::SeqCst), 4);
    assert!(world.is_settled());
}

#[test]
fn no_command_is_applied_during_the_cycle_that_enqueues_it() {
    let applied = Arc::new(AtomicUsize::new(0));
    let seen = Arc::new(Mutex::new(Vec::new()));
    let mut world = World::new();
    let mut systems = Systems::new();
    systems.add(Emitter { applied: applied.clone(), seen: seen.clone() });
    systems.add(Emitter { applied: applied.clone(), seen: seen.clone() });
    for cycle in 0..4 {
        world.write_swap_sync(&mut systems);
        assert_eq!(applied.load(Ordering::SeqCst), 2 * cycle);
    }
    let seen = seen.lock().unwrap();
    assert_eq!(seen.len(), 8);
    for (index, count) in seen.iter().enumerate() {
        assert!(*count <= 2 * (index / 2));
    }
}

#[test]
fn commands_are_applied_in_the_order_of_their_enqueuing() {
    let log = Arc::new(Mutex::new(Vec::new()));
    let mut world = World::new();
    let mut systems = Systems::new();
    systems.add(Numbering { next: 0, log: log.clone() });
    world.write_swap_sync(&mut systems);
    assert_eq!(*log.lock().unwrap(), Vec::<u32>::new());
    world.write_swap_sync(&mut systems);
    assert_eq!(*log.lock().unwrap(), vec![0, 1]);
    world.write_swap_sync(&mut systems);
    assert_eq!(*log.lock().unwrap(), vec![0, 1, 2, 3]);
}

#[test]
fn a_cycle_without_systems_keeps_the_world_settled() {
    let mut world = World::new();
    let mut systems = Systems::new();
    assert_eq!(systems.len(), 0);
    world.write_swap_sync(&mut systems);
    world.write_swap_sync(&mut systems);
    assert!(world.is_settled());
}

#[test]
fn a_cycle_in_steps_does_what_a_cycle_at_once_does() {
    let log = Arc::new(Mutex::new(Vec::new()));
    let mut world = World::new();
    let mut systems = Systems::new();
    systems.add(Numbering { next: 10, log: log.clone() });
    systems.add(Numbering { next: 100, log: log.clone() });
    for _ in 0..3 {
        assert!(world.is_settled());
        world.begin_cycle();
        let mut batches = Vec::new();
        {
            let (snapshot, write) = world.halves();
            write.apply_pending();
            for system in systems.as_mut_slice().iter_mut() {
                let mut batch = Commands::new();
                system.run(snapshot, &mut batch);
                batches.push(batch);
            }
        }
        for batch in batches {
            world.enqueue(batch);
        }
        world.end_cycle();
    }
    assert_eq!(*log.lock().unwrap(), vec![10, 11, 100, 101, 12, 13, 102, 103]);
}

#[test]
fn the_world_is_unsettled_between_the_roles_exchange_and_the_drain() {
    let applied = Arc::new(AtomicUsize::new(0));
    let seen = Arc::new(Mutex::new(Vec::new()));
    let mut world = World::new();
    let mut systems = Systems::new();
    systems.add(Emitter { applied: applied.clone(), seen });
    world.write_swap_sync(&mut systems);
    world.begin_cycle();
    assert!(!world.is_settled());
    {
        let (_snapshot, write) = world.halves();
        write.apply_pending();
    }
    assert!(world.is_settled());
    assert_eq!(applied.load(Ordering::SeqCst), 1);
    world.end_cycle();
}

#[test]
fn a_queue_hands_out_what_was_added_oldest_first() {
    let log = Arc::new(Mutex::new(Vec::new()));
    let mut commands = Commands::new();
    assert!(commands.is_empty());
    commands.add(Note { label: 1, log: log.clone() });
    commands.push(Note { label: 2, log: log.clone() });
    commands.add(Note { label: 3, log: log.clone() });
    assert!(!commands.is_empty());
    let mut world = RawWorld::new();
    commands.run(&mut world);
    assert!(commands.is_empty());
    assert_eq!(*log.lock().unwrap(), vec![1, 2, 3]);
    commands.run(&mut world);
    assert_eq!(*log.lock().unwrap(), vec![1, 2, 3]);
}

#[test]
fn a_boxed_command_runs_once() {
    let applied = Arc::new(AtomicUsize::new(0));
    let boxed = BoxedCommand::new(Count { applied: applied.clone() });
    let mut world = RawWorld::new();
    boxed.run(&mut world);
    assert_eq!(applied.load(Ordering::SeqCst), 1);
}

#[test]
fn every_system_runs_once_per_cycle_in_the_order_of_registration() {
    let order = Arc::new(Mutex::new(Vec::new()));
    let mut systems = Systems::new();
    for label in 0..3u32 {
        let order = order.clone();
        systems.add_system(FromFn::new(move |_world: &RawWorld, _commands: &mut Commands| {
            order.lock().unwrap().push(label);
        }));
    }
    assert_eq!(systems.len(), 3);
    let world = RawWorld::new();
    let mut commands = Commands::new();
    systems.run(&world, &mut commands);
    systems.run(&world, &mut commands);
    assert_eq!(*order.lock().unwrap(), vec![0, 1, 2, 0, 1, 2]);
    assert!(commands.is_empty());
}

#[test]
fn new_event_lists_are_empty() {
    let _writer: EventWriter<u32> = EventWriter::new();
    let buffer: EventBuffer<u32> = EventBuffer::new();
    assert_eq!(buffer.iter().count(), 0);
    assert!(buffer.iter().next().is_none());
}

#[test]
fn a_snapshot_can_be_copied() {
    let world = RawWorld::new();
    let _copy = world.clone();
}
