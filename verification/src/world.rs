//! The double-buffered world and its command queues.
//!
//! Two slots hold one snapshot and one command queue each. During a cycle the systems
//! read the snapshot of the read slot and enqueue commands into its queue, while the
//! commands enqueued during the previous cycle are applied to the snapshot of the write
//! slot. A command therefore never changes what the systems of its own cycle see, and
//! it is part of what the systems see two cycles later.

use crate::system::each_run_once_more;
use crate::system::run_counts;
use crate::system::Systems;
use crossbeam::queue::SegQueue;
use vstd::prelude::*;
use vstd::std_specs::iter::IteratorSpec;

verus! {

/// A snapshot of simulation state, handed to systems by shared reference.
///
/// The snapshot carries no data of its own. Which commands have been applied to the
/// snapshot of a slot is tracked by the [`World`] that owns the slot.
#[derive(Clone)]
pub struct RawWorld {}

impl RawWorld {
    pub fn new() -> (world: RawWorld)
        ensures
            world == (RawWorld {  }),
    {
        RawWorld {  }
    }
}

/// The producer side of a double-buffered event list.
pub struct EventWriter<T> {
    write: Vec<T>,
}

impl<T> EventWriter<T> {
    /// The events written so far, oldest first.
    pub closed spec fn view(&self) -> Seq<T> {
        self.write@
    }

    pub fn new() -> (writer: Self)
        ensures
            writer@ == Seq::<T>::empty(),
    {
        Self { write: Vec::new() }
    }
}

/// The consumer side of a double-buffered event list.
pub struct EventBuffer<T> {
    read: Vec<T>,
}

impl<T> EventBuffer<T> {
    /// The events that can be read, oldest first.
    pub closed spec fn view(&self) -> Seq<T> {
        self.read@
    }

    pub fn new() -> (buffer: Self)
        ensures
            buffer@ == Seq::<T>::empty(),
    {
        Self { read: Vec::new() }
    }

    /// Iterates over the readable events, oldest first.
    pub fn iter(&self) -> (events: core::slice::Iter<'_, T>)
        ensures
            events.remaining() == self@.as_ref(),
    {
        self.read.as_slice().iter()
    }
}

/// A deferred mutation of the world.
///
/// A system captures a command by value while it reads the world; the command runs
/// later, when no system is reading the snapshot it is applied to.
pub trait Command: 'static + Send + Sync {
    fn run(self: Box<Self>, world: &mut RawWorld);
}

/// Whether `borrow` shows a snapshot before and after a call of `run` on `command`, as
/// far as the command's own `run` promises anything of such a call.
spec fn promised<C: Command + ?Sized>(command: Box<C>, borrow: &mut RawWorld) -> bool {
    call_ensures(C::run, (command, borrow), ())
}

/// Runs `command` on `world`.
fn apply<C: Command + ?Sized>(command: Box<C>, world: &mut RawWorld)
    ensures
        exists|borrow: &mut RawWorld|
            {
                &&& *borrow == *old(world)
                &&& *final(borrow) == *final(world)
                &&& #[trigger] promised(command, borrow)
            },
{
    let ghost before = *world;
    command.run(world);
    proof {
        let borrow = choose|borrow: &mut RawWorld|
            {
                &&& *borrow == before
                &&& *final(borrow) == *world
                &&& #[trigger] call_ensures(C::run, (command, borrow), ())
            };
        assert(promised(command, borrow));
    }
}

/// A command behind a pointer, as the queues hold it.
pub struct BoxedCommand {
    command: Box<dyn Command>,
}

impl BoxedCommand {
    /// The queue entry that `command` becomes.
    pub closed spec fn of<C: Command>(command: C) -> BoxedCommand {
        BoxedCommand { command: Box::new(command) }
    }

    pub fn new<C: Command>(command: C) -> (boxed: BoxedCommand)
        ensures
            boxed == BoxedCommand::of(command),
    {
        BoxedCommand { command: Box::new(command) }
    }

    /// Whether `borrow` shows a snapshot before and after a call of the command's `run`,
    /// as far as that `run` promises anything of such a call.
    pub closed spec fn runs_on(self, borrow: &mut RawWorld) -> bool {
        promised(self.command, borrow)
    }

    /// Applies the command to `world`: the command's own `run` is called on a borrow of
    /// the snapshot, which holds what the snapshot held before and leaves what it holds
    /// after.
    pub fn run(self, world: &mut RawWorld)
        ensures
            exists|borrow: &mut RawWorld|
                {
                    &&& *borrow == *old(world)
                    &&& *final(borrow) == *final(world)
                    &&& #[trigger] self.runs_on(borrow)
                },
    {
        let ghost before = *world;
        apply(self.command, world);
        proof {
            let borrow = choose|borrow: &mut RawWorld|
                {
                    &&& *borrow == before
                    &&& *final(borrow) == *world
                    &&& #[trigger] promised(self.command, borrow)
                };
            assert(self.runs_on(borrow));
        }
    }
}

/// `crossbeam::queue::SegQueue`, of which nothing but its commands is looked at.
#[verifier::external_type_specification]
#[verifier::external_body]
#[verifier::reject_recursive_types(T)]
pub struct ExSegQueue<T>(SegQueue<T>);

/// The commands that a queue holds, the one that leaves next first.
pub uninterp spec fn queued(queue: SegQueue<BoxedCommand>) -> Seq<BoxedCommand>;

/// `SegQueue::new`: the queue it returns holds nothing.
#[verifier::external_body]
fn queue_new() -> (queue: SegQueue<BoxedCommand>)
    ensures
        queued(queue) == Seq::<BoxedCommand>::empty(),
{
    SegQueue::new()
}

/// `SegQueue::push`: the element goes to the tail, behind everything the queue held.
///
/// The exclusive borrow keeps every other producer and consumer away for the length of
/// the call, so the queue behaves as a plain first-in-first-out list.
#[verifier::external_body]
fn queue_push(queue: &mut SegQueue<BoxedCommand>, command: BoxedCommand)
    ensures
        queued(*final(queue)) == queued(*old(queue)).push(command),
{
    queue.push(command)
}

/// `SegQueue::pop`: the head element leaves the queue and is returned; an empty queue
/// returns `None` and stays empty.
#[verifier::external_body]
fn queue_pop(queue: &mut SegQueue<BoxedCommand>) -> (head: Option<BoxedCommand>)
    ensures
        head == (if queued(*old(queue)).len() == 0 {
            None
        } else {
            Some(queued(*old(queue)).first())
        }),
        queued(*final(queue)) == (if queued(*old(queue)).len() == 0 {
            queued(*old(queue))
        } else {
            queued(*old(queue)).drop_first()
        }),
{
    queue.pop()
}

/// `SegQueue::is_empty`: whether the queue holds no element.
#[verifier::external_body]
fn queue_is_empty(queue: &SegQueue<BoxedCommand>) -> (empty: bool)
    ensures
        empty == (queued(*queue).len() == 0),
{
    queue.is_empty()
}

/// A first-in-first-out queue of commands.
pub struct Commands {
    queue: SegQueue<BoxedCommand>,
}

impl Commands {
    /// The queued commands, the one that is applied next first.
    pub closed spec fn view(&self) -> Seq<BoxedCommand> {
        queued(self.queue)
    }

    pub fn new() -> (commands: Commands)
        ensures
            commands@ == Seq::<BoxedCommand>::empty(),
    {
        Commands { queue: queue_new() }
    }

    /// Enqueues `command` behind everything already queued.
    pub fn add<C: Command>(&mut self, command: C)
        ensures
            final(self)@ == old(self)@.push(BoxedCommand::of(command)),
    {
        self.push_boxed(BoxedCommand::new(command))
    }

    /// Enqueues `command` behind everything already queued.
    pub fn push<C: Command>(&mut self, command: C)
        ensures
            final(self)@ == old(self)@.push(BoxedCommand::of(command)),
    {
        self.push_boxed(BoxedCommand::new(command))
    }

    /// Enqueues an already boxed command behind everything already queued.
    fn push_boxed(&mut self, command: BoxedCommand)
        ensures
            final(self)@ == old(self)@.push(command),
    {
        queue_push(&mut self.queue, command)
    }

    /// Takes the oldest command out of the queue.
    fn pop(&mut self) -> (head: Option<BoxedCommand>)
        ensures
            old(self)@.len() == 0 ==> head.is_none() && final(self)@ == old(self)@,
            old(self)@.len() > 0 ==> head == Some(old(self)@.first()) && final(self)@ == old(
                self,
            )@.drop_first(),
    {
        queue_pop(&mut self.queue)
    }

    pub fn is_empty(&self) -> (empty: bool)
        ensures
            empty == (self@.len() == 0),
    {
        queue_is_empty(&self.queue)
    }

    /// Applies every queued command to `world`, oldest first, and leaves the queue empty.
    ///
    /// [`BoxedCommand::run`] is what applies a command: every command of the queue, in
    /// their order, runs on a borrow of `world`. The first command finds the snapshot as
    /// it was handed in, every later one as the one before left it, and what the last one
    /// leaves is handed back.
    pub fn run(&mut self, world: &mut RawWorld)
        ensures
            final(self)@ == Seq::<BoxedCommand>::empty(),
            exists|borrows: Seq<&mut RawWorld>|
                {
                    &&& #[trigger] counted(borrows, old(self)@.len())
                    &&& forall|i: int|
                        #![trigger borrows[i]]
                        0 <= i < old(self)@.len() ==> {
                            &&& *borrows[i] == (if i == 0 {
                                *old(world)
                            } else {
                                *final(borrows[i - 1])
                            })
                            &&& old(self)@[i].runs_on(borrows[i])
                        }
                    &&& *final(world) == (if borrows.len() == 0 {
                        *old(world)
                    } else {
                        *final(borrows[borrows.len() - 1])
                    })
                },
    {
        let ghost mut log: Seq<BoxedCommand> = Seq::empty();
        assert(counted(Seq::<&mut RawWorld>::empty(), 0));
        loop
            invariant
                log + self@ == old(self)@,
                exists|borrows: Seq<&mut RawWorld>|
                    {
                        &&& #[trigger] counted(borrows, log.len())
                        &&& forall|i: int|
                            #![trigger borrows[i]]
                            0 <= i < log.len() ==> {
                                &&& *borrows[i] == (if i == 0 {
                                    *old(world)
                                } else {
                                    *final(borrows[i - 1])
                                })
                                &&& log[i].runs_on(borrows[i])
                            }
                        &&& *world == (if log.len() == 0 {
                            *old(world)
                        } else {
                            *final(borrows[log.len() - 1])
                        })
                    },
            ensures
                self@ == Seq::<BoxedCommand>::empty(),
                log == old(self)@,
            decreases self@.len(),
        {
            let ghost before = *world;
            let ghost done = log;
            match self.pop() {
                Some(command) => {
                    command.run(world);
                    proof {
                        let earlier = choose|borrows: Seq<&mut RawWorld>|
                            {
                                &&& #[trigger] counted(borrows, done.len())
                                &&& forall|i: int|
                                    #![trigger borrows[i]]
                                    0 <= i < done.len() ==> {
                                        &&& *borrows[i] == (if i == 0 {
                                            *old(world)
                                        } else {
                                            *final(borrows[i - 1])
                                        })
                                        &&& done[i].runs_on(borrows[i])
                                    }
                                &&& before == (if done.len() == 0 {
                                    *old(world)
                                } else {
                                    *final(borrows[done.len() - 1])
                                })
                            };
                        let borrow = choose|borrow: &mut RawWorld|
                            {
                                &&& *borrow == before
                                &&& *final(borrow) == *world
                                &&& #[trigger] command.runs_on(borrow)
                            };
                        log = log.push(command);
                        let borrows = earlier.push(borrow);
                        assert(counted(borrows, log.len()));
                        assert forall|i: int| #![trigger borrows[i]] 0 <= i < log.len() implies {
                            &&& *borrows[i] == (if i == 0 {
                                *old(world)
                            } else {
                                *final(borrows[i - 1])
                            })
                            &&& log[i].runs_on(borrows[i])
                        } by {
                            if i < done.len() {
                                assert(borrows[i] == earlier[i]);
                                assert(log[i] == done[i]);
                            }
                            if i > 0 {
                                assert(borrows[i - 1] == earlier[i - 1]);
                            }
                        }
                        assert(*world == *final(borrows[log.len() - 1]));
                    }
                },
                None => {
                    break ;
                },
            }
        }
    }
}

/// Whether there is one borrow of the snapshot for each of `count` commands.
pub open spec fn counted(borrows: Seq<&mut RawWorld>, count: nat) -> bool {
    borrows.len() == count
}

/// What one slot holds.
pub struct SlotView {
    /// The commands whose effects the snapshot of the slot holds, oldest first.
    pub snapshot: Seq<BoxedCommand>,
    /// The commands that wait in the queue of the slot, oldest first.
    pub pending: Seq<BoxedCommand>,
}

/// What the two slots of a world hold.
pub struct WorldView {
    /// The slot whose snapshot the systems read and whose queue they fill.
    pub read: SlotView,
    /// The slot whose snapshot receives the commands that are applied.
    pub write: SlotView,
}

impl WorldView {
    /// The two slots with their roles exchanged.
    pub open spec fn exchanged(self) -> WorldView {
        WorldView { read: self.write, write: self.read }
    }

    /// The write slot with every command of its queue applied to its snapshot.
    pub open spec fn applied(self) -> WorldView {
        WorldView {
            read: self.read,
            write: SlotView {
                snapshot: self.write.snapshot + self.write.pending,
                pending: Seq::empty(),
            },
        }
    }

    /// The read slot with `commands` enqueued behind what its queue held.
    pub open spec fn enqueued(self, commands: Seq<BoxedCommand>) -> WorldView {
        WorldView {
            read: SlotView {
                snapshot: self.read.snapshot,
                pending: self.read.pending + commands,
            },
            write: self.write,
        }
    }

    /// The read slot with its snapshot replaced by a copy of the write slot's snapshot.
    pub open spec fn published(self) -> WorldView {
        WorldView {
            read: SlotView { snapshot: self.write.snapshot, pending: self.read.pending },
            write: self.write,
        }
    }

    /// The world after one cycle during which the systems enqueue `commands`.
    pub open spec fn cycle(self, commands: Seq<BoxedCommand>) -> WorldView {
        self.exchanged().applied().enqueued(commands).published()
    }

    /// Whether the write slot's queue is empty, as it is between two cycles.
    pub open spec fn settled(self) -> bool {
        self.write.pending.len() == 0
    }

    /// Whether both slots show the same snapshot, as they do between two cycles.
    pub open spec fn mirrored(self) -> bool {
        self.read.snapshot == self.write.snapshot
    }
}

/// One of the two slots of a world: a snapshot and the queue that belongs to it.
pub struct WorldAndCommands {
    world: RawWorld,
    commands: Commands,
    applied: Ghost<Seq<BoxedCommand>>,
}

impl WorldAndCommands {
    pub closed spec fn view(&self) -> SlotView {
        SlotView { snapshot: self.applied@, pending: self.commands@ }
    }

    fn new() -> (slot: Self)
        ensures
            slot@.snapshot == Seq::<BoxedCommand>::empty(),
            slot@.pending == Seq::<BoxedCommand>::empty(),
    {
        Self { world: RawWorld::new(), commands: Commands::new(), applied: Ghost(Seq::empty()) }
    }

    /// The queue of the slot.
    pub closed spec fn queue(&self) -> Commands {
        self.commands
    }

    /// The snapshot of the slot.
    pub closed spec fn snapshot(&self) -> RawWorld {
        self.world
    }

    /// Applies every command of the slot's queue to the slot's snapshot, oldest first:
    /// [`Commands::run`] is called on a borrow of the slot's queue and a borrow of the
    /// slot's snapshot.
    pub fn apply_pending(&mut self)
        ensures
            final(self)@.snapshot == old(self)@.snapshot + old(self)@.pending,
            final(self)@.pending == Seq::<BoxedCommand>::empty(),
            exists|queue: &mut Commands, world: &mut RawWorld|
                {
                    &&& *queue == old(self).queue()
                    &&& *final(queue) == final(self).queue()
                    &&& *world == old(self).snapshot()
                    &&& *final(world) == final(self).snapshot()
                    &&& #[trigger] call_ensures(Commands::run, (queue, world), ())
                },
    {
        let ghost applied = self.commands@;
        self.commands.run(&mut self.world);
        self.applied = Ghost(self.applied@ + applied);
        proof {
            let (queue, world) = choose|queue: &mut Commands, world: &mut RawWorld|
                {
                    &&& *queue == old(self).commands
                    &&& *final(queue) == self.commands
                    &&& *world == old(self).world
                    &&& *final(world) == self.world
                    &&& #[trigger] call_ensures(Commands::run, (queue, world), ())
                };
            assert(call_ensures(Commands::run, (queue, world), ()));
            assert(*queue == old(self).queue());
        }
    }

    /// Replaces the slot's snapshot by a copy of the snapshot of `source`.
    fn replicate(&mut self, source: &WorldAndCommands)
        ensures
            final(self)@.snapshot == source@.snapshot,
            final(self)@.pending == old(self)@.pending,
            final(self).queue() == old(self).queue(),
            final(self).snapshot() == source.snapshot(),
    {
        self.world = source.world.clone();
        self.applied = Ghost(source.applied@);
    }
}

/// Two slots that exchange the roles of read slot and write slot once per cycle.
pub struct World {
    src: WorldAndCommands,
    dst: WorldAndCommands,
}

impl World {
    pub closed spec fn view(&self) -> WorldView {
        WorldView { read: self.src@, write: self.dst@ }
    }

    /// The slot whose snapshot the systems read and whose queue they fill.
    pub closed spec fn read_slot(&self) -> WorldAndCommands {
        self.src
    }

    /// The slot whose snapshot receives the commands that are applied.
    pub closed spec fn write_slot(&self) -> WorldAndCommands {
        self.dst
    }

    /// Whether a cycle may start: the write slot's queue must be empty.
    pub open spec fn wf(&self) -> bool {
        self@.settled()
    }

    pub fn new() -> (world: World)
        ensures
            world.wf(),
            world@.mirrored(),
            world@.read.snapshot == Seq::<BoxedCommand>::empty(),
            world@.read.pending == Seq::<BoxedCommand>::empty(),
    {
        World { src: WorldAndCommands::new(), dst: WorldAndCommands::new() }
    }

    /// Tests whether a cycle may start.
    pub fn is_settled(&self) -> (settled: bool)
        ensures
            settled == self.wf(),
    {
        self.dst.commands.is_empty()
    }

    /// Runs one cycle with the systems executed one after another.
    ///
    /// The commands that were enqueued during the previous cycle are applied, every
    /// system of `systems` runs once against the snapshot that does not hold them yet,
    /// and the snapshot that holds them becomes the one the next cycle reads. What the
    /// systems enqueue stays in the read slot's queue until the next cycle.
    pub fn write_swap_sync(&mut self, systems: &mut Systems)
        requires
            old(self).wf(),
        ensures
            final(self)@ == old(self)@.cycle(final(self)@.read.pending),
            final(self).wf(),
            final(self)@.mirrored(),
            run_counts(final(systems)@) == each_run_once_more(run_counts(old(systems)@)),
            exists|slot: &mut WorldAndCommands|
                {
                    &&& *slot == old(self).read_slot()
                    &&& *final(slot) == final(self).write_slot()
                    &&& #[trigger] call_ensures(WorldAndCommands::apply_pending, (slot,), ())
                },
            exists|registry: &mut Systems, queue: &mut Commands|
                {
                    &&& *registry == *old(systems)
                    &&& *final(registry) == *final(systems)
                    &&& *queue == old(self).write_slot().queue()
                    &&& *final(queue) == final(self).read_slot().queue()
                    &&& #[trigger] call_ensures(
                        Systems::run,
                        (registry, &old(self).write_slot().snapshot(), queue),
                        (),
                    )
                },
    {
        self.begin_cycle();
        self.dst.apply_pending();
        let ghost applied = self.dst;
        systems.run(&self.src.world, &mut self.src.commands);
        let ghost filled = self.src.commands;
        self.end_cycle();
        proof {
            let slot = choose|slot: &mut WorldAndCommands|
                {
                    &&& *slot == old(self).src
                    &&& *final(slot) == applied
                    &&& #[trigger] call_ensures(WorldAndCommands::apply_pending, (slot,), ())
                };
            assert(*final(slot) == self.write_slot());
            assert(call_ensures(WorldAndCommands::apply_pending, (slot,), ()));
            let (registry, queue) = choose|registry: &mut Systems, queue: &mut Commands|
                {
                    &&& *registry == *old(systems)
                    &&& *final(registry) == *systems
                    &&& *queue == old(self).dst.commands
                    &&& *final(queue) == filled
                    &&& #[trigger] call_ensures(
                        Systems::run,
                        (registry, &old(self).dst.world, queue),
                        (),
                    )
                };
            assert(*final(queue) == self.read_slot().queue());
            assert(call_ensures(
                Systems::run,
                (registry, &old(self).write_slot().snapshot(), queue),
                (),
            ));
        }
    }

    /// Opens a cycle: the two slots exchange their roles.
    ///
    /// The slot whose queue was filled during the previous cycle becomes the write slot,
    /// and the slot whose queue is empty becomes the read slot.
    pub fn begin_cycle(&mut self)
        requires
            old(self).wf(),
        ensures
            final(self)@ == old(self)@.exchanged(),
            final(self).read_slot() == old(self).write_slot(),
            final(self).write_slot() == old(self).read_slot(),
    {
        std::mem::swap(&mut self.src, &mut self.dst);
    }

    /// The snapshot that the systems of the open cycle read, and the write slot.
    pub fn halves(&mut self) -> (halves: (&RawWorld, &mut WorldAndCommands))
        ensures
            *halves.0 == old(self).read_slot().snapshot(),
            *halves.1 == old(self).write_slot(),
            final(self).write_slot() == *final(halves.1),
            final(self).read_slot() == old(self).read_slot(),
            halves.1@ == old(self)@.write,
            final(self)@.write == final(halves.1)@,
            final(self)@.read == old(self)@.read,
    {
        (&self.src.world, &mut self.dst)
    }

    /// Moves the commands of `batch` to the back of the read slot's queue, oldest first.
    pub fn enqueue(&mut self, batch: Commands)
        ensures
            final(self)@ == old(self)@.enqueued(batch@),
    {
        let mut batch = batch;
        let ghost all = batch@;
        let ghost mut moved: Seq<BoxedCommand> = Seq::empty();
        loop
            invariant
                self@.write == old(self)@.write,
                self@.read.snapshot == old(self)@.read.snapshot,
                self@.read.pending == old(self)@.read.pending + moved,
                moved + batch@ == all,
            ensures
                self@ == old(self)@.enqueued(all),
            decreases batch@.len(),
        {
            match batch.pop() {
                Some(command) => {
                    self.src.commands.push_boxed(command);
                    proof {
                        moved = moved.push(command);
                    }
                },
                None => {
                    break ;
                },
            }
        }
    }

    /// Closes a cycle: the read slot's snapshot becomes a copy of the write slot's.
    pub fn end_cycle(&mut self)
        ensures
            final(self)@ == old(self)@.published(),
            final(self).write_slot() == old(self).write_slot(),
            final(self).read_slot().queue() == old(self).read_slot().queue(),
            final(self).read_slot().snapshot() == old(self).write_slot().snapshot(),
    {
        self.src.replicate(&self.dst);
    }
}

/// A cycle that is carried out in steps is a cycle: the roles exchanged, the write slot's
/// queue applied, what the systems enqueued taken in batch by batch, and the snapshot
/// published, is what one cycle makes of the world when the systems enqueue the batches
/// in a row.
pub proof fn lemma_cycle_in_steps(
    world: WorldView,
    first: Seq<BoxedCommand>,
    second: Seq<BoxedCommand>,
)
    ensures
        world.exchanged().applied().enqueued(first).enqueued(second).published() == world.cycle(
            first + second,
        ),
        world.exchanged().applied().enqueued(first).published() == world.cycle(first),
        world.exchanged().applied().published() == world.cycle(Seq::empty()),
{
    assert((world.write.pending + first) + second =~= world.write.pending + (first + second));
    assert(world.write.pending + Seq::<BoxedCommand>::empty() =~= world.write.pending);
}

/// A command that the systems enqueue during one cycle is applied to no snapshot during
/// that cycle: the snapshot that the next cycle reads is the same whatever was enqueued.
/// One cycle later the command has been applied, and the cycle after that reads it.
pub proof fn lemma_propagation_delay(
    world: WorldView,
    first: Seq<BoxedCommand>,
    second: Seq<BoxedCommand>,
)
    requires
        world.settled(),
    ensures
        world.cycle(first).read.snapshot == world.cycle(Seq::empty()).read.snapshot,
        world.cycle(first).write.snapshot == world.cycle(Seq::empty()).write.snapshot,
        world.cycle(first).read.pending == first,
        world.cycle(first).settled(),
        world.cycle(first).cycle(second).read.snapshot == world.cycle(first).read.snapshot + first,
        world.cycle(first).cycle(second).write.snapshot == world.cycle(first).read.snapshot
            + first,
        world.cycle(first).cycle(second).read.pending == second,
{
}

} // verus!
