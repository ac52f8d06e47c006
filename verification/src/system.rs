//! Schedulable units and the registry that holds them.

use crate::world::Commands;
use crate::world::RawWorld;
use vstd::prelude::*;

verus! {

/// A unit of simulation logic.
///
/// A system reads the snapshot it is handed and expresses every change it wants as a
/// command; it never gets a mutable reference to the world.
pub trait System: 'static + Send + Sync {
    fn run(&mut self, world: &RawWorld, commands: &mut Commands);
}

/// A system made of a callback.
pub struct FromFn<F: 'static + Send + Sync + Fn(&RawWorld, &mut Commands)> {
    callback: F,
}

impl<F: 'static + Send + Sync + Fn(&RawWorld, &mut Commands)> FromFn<F> {
    #[verifier::type_invariant]
    spec fn callable(self) -> bool {
        forall|world: &RawWorld, commands: &mut Commands|
            call_requires(self.callback, (world, commands))
    }

    /// The callback that the system is made of.
    pub closed spec fn callback(&self) -> F {
        self.callback
    }

    /// Wraps a callback that can be called on every world and every queue.
    pub fn new(callback: F) -> (system: Self)
        requires
            forall|world: &RawWorld, commands: &mut Commands|
                call_requires(callback, (world, commands)),
        ensures
            system.callback() == callback,
    {
        FromFn { callback }
    }
}

impl<F: 'static + Send + Sync + Fn(&RawWorld, &mut Commands)> System for FromFn<F> {
    /// Calls the callback once on `world` and `commands`: what the callback promises of a
    /// call on a borrow of the queue holds of what the queue held before and holds after.
    fn run(&mut self, world: &RawWorld, commands: &mut Commands)
        ensures
            final(self).callback() == old(self).callback(),
            exists|borrow: &mut Commands|
                {
                    &&& *borrow == *old(commands)
                    &&& *final(borrow) == *final(commands)
                    &&& #[trigger] call_ensures(old(self).callback(), (world, borrow), ())
                },
    {
        proof {
            use_type_invariant(&*self);
        }
        let ghost before = *commands;
        (self.callback)(world, commands);
        proof {
            let borrow = choose|borrow: &mut Commands|
                {
                    &&& *borrow == before
                    &&& *final(borrow) == *commands
                    &&& #[trigger] call_ensures(self.callback, (world, borrow), ())
                };
            assert(call_ensures(old(self).callback(), (world, borrow), ()));
        }
    }
}

/// Whether `me` and `borrow` show a system and a queue before and after a call of the
/// system's `run` on `world`, as far as that `run` promises anything of such a call.
pub open spec fn promised<S: System + ?Sized>(
    me: &mut S,
    world: &RawWorld,
    borrow: &mut Commands,
) -> bool {
    call_ensures(S::run, (me, world, borrow), ())
}

/// Runs `system` once against `world`.
fn apply<S: System + ?Sized>(system: &mut S, world: &RawWorld, commands: &mut Commands)
    ensures
        exists|me: &mut S, borrow: &mut Commands|
            {
                &&& &*me == &*old(system)
                &&& &*final(me) == &*final(system)
                &&& *borrow == *old(commands)
                &&& *final(borrow) == *final(commands)
                &&& #[trigger] promised(me, world, borrow)
            },
{
    let ghost before = *commands;
    system.run(world, commands);
    proof {
        let (me, borrow) = choose|me: &mut S, borrow: &mut Commands|
            {
                &&& &*me == &*old(system)
                &&& &*final(me) == &*system
                &&& *borrow == before
                &&& *final(borrow) == *commands
                &&& #[trigger] call_ensures(S::run, (me, world, borrow), ())
            };
        assert(promised(me, world, borrow));
    }
}

/// A system behind a pointer.
///
/// The field is public so that a contract can say of a borrow that it is a borrow of
/// this very system.
pub struct Held {
    pub system: Box<dyn System>,
}

/// A registered system together with the number of times it has been run.
pub struct BoxedSystem {
    held: Held,
    runs: Ghost<nat>,
}

impl BoxedSystem {
    /// The system that is registered.
    pub closed spec fn held(&self) -> Held {
        self.held
    }

    /// How often the system has been run since it was registered.
    pub closed spec fn runs(&self) -> nat {
        self.runs@
    }

    /// The registry entry that `system` becomes.
    pub closed spec fn of<S: System>(system: S) -> BoxedSystem {
        BoxedSystem { held: Held { system: Box::new(system) }, runs: Ghost(0) }
    }

    pub fn new<S: System>(system: S) -> (boxed: BoxedSystem)
        ensures
            boxed == BoxedSystem::of(system),
            boxed.runs() == 0,
    {
        BoxedSystem { held: Held { system: Box::new(system) }, runs: Ghost(0) }
    }

    /// Runs the system once against `world`: the system's own `run` is called on a
    /// borrow of the system and a borrow of the queue, which hold what the system and the
    /// queue held before and leave what they hold after.
    pub fn run(&mut self, world: &RawWorld, commands: &mut Commands)
        ensures
            final(self).runs() == old(self).runs() + 1,
            exists|me: &mut (dyn System + 'static), borrow: &mut Commands|
                {
                    &&& &*me == &*old(self).held().system
                    &&& &*final(me) == &*final(self).held().system
                    &&& *borrow == *old(commands)
                    &&& *final(borrow) == *final(commands)
                    &&& #[trigger] promised(me, world, borrow)
                },
    {
        let ghost before = *commands;
        apply(&mut *self.held.system, world, commands);
        self.runs = Ghost((self.runs@ + 1) as nat);
        proof {
            let (me, borrow) = choose|me: &mut (dyn System + 'static), borrow: &mut Commands|
                {
                    &&& &*me == &*old(self).held.system
                    &&& &*final(me) == &*self.held.system
                    &&& *borrow == before
                    &&& *final(borrow) == *commands
                    &&& #[trigger] promised(me, world, borrow)
                };
            assert(&*me == &*old(self).held().system);
            assert(promised(me, world, borrow));
        }
    }
}

/// The systems of one phase, in the order of their registration.
///
/// A registry is filled before the scheduler starts. Nothing is ever removed from it.
pub struct Systems {
    systems: Vec<BoxedSystem>,
}

/// Every count of `runs` raised by one.
pub open spec fn each_run_once_more(runs: Seq<nat>) -> Seq<nat> {
    Seq::new(runs.len(), |i: int| runs[i] + 1)
}

/// Whether there is one borrow of an entry and one borrow of the queue for each of
/// `count` runs.
pub open spec fn paired(
    entries: Seq<&mut BoxedSystem>,
    borrows: Seq<&mut Commands>,
    count: nat,
) -> bool {
    entries.len() == count && borrows.len() == count
}

/// For every entry of `systems`, in their order, how often its system has run.
pub open spec fn run_counts(systems: Seq<BoxedSystem>) -> Seq<nat> {
    Seq::new(systems.len(), |i: int| systems[i].runs())
}

impl Systems {
    /// The registered systems, in the order of registration.
    pub closed spec fn view(&self) -> Seq<BoxedSystem> {
        self.systems@
    }

    pub fn new() -> (systems: Systems)
        ensures
            systems@ == Seq::<BoxedSystem>::empty(),
    {
        Systems { systems: Vec::new() }
    }

    /// Registers `system` behind the systems that are already registered.
    pub fn add<S: System>(&mut self, system: S)
        ensures
            final(self)@ == old(self)@.push(BoxedSystem::of(system)),
            run_counts(final(self)@) == run_counts(old(self)@).push(0),
    {
        self.systems.push(BoxedSystem::new(system));
        assert(run_counts(self@) =~= run_counts(old(self)@).push(0));
    }

    /// Registers `system` behind the systems that are already registered.
    pub fn add_system<S: System>(&mut self, system: S)
        ensures
            final(self)@ == old(self)@.push(BoxedSystem::of(system)),
            run_counts(final(self)@) == run_counts(old(self)@).push(0),
    {
        self.add(system)
    }

    /// Moves every system of `other` behind the systems that are already registered, in
    /// the order in which `other` held them.
    pub fn append(&mut self, other: &mut Systems)
        ensures
            final(self)@ == old(self)@ + old(other)@,
            final(other)@ == Seq::<BoxedSystem>::empty(),
    {
        self.systems.append(&mut other.systems);
    }

    /// The number of registered systems.
    pub fn len(&self) -> (count: usize)
        ensures
            count == self@.len(),
    {
        self.systems.len()
    }

    /// The registered systems, in the order of registration, for a caller that runs
    /// them itself.
    pub fn as_mut_slice(&mut self) -> (systems: &mut [BoxedSystem])
        ensures
            systems@ == old(self)@,
            final(self)@ == final(systems)@,
    {
        self.systems.as_mut_slice()
    }

    /// Runs every registered system once against `world`, in the order of registration.
    ///
    /// [`BoxedSystem::run`] is called once on a borrow of every entry, in their order,
    /// and on a borrow of `commands`. The first system finds the queue as it was handed
    /// in, every later one as the one before left it, and what the last one leaves is
    /// handed back.
    pub fn run(&mut self, world: &RawWorld, commands: &mut Commands)
        ensures
            run_counts(final(self)@) == each_run_once_more(run_counts(old(self)@)),
            exists|entries: Seq<&mut BoxedSystem>, borrows: Seq<&mut Commands>|
                {
                    &&& #[trigger] paired(entries, borrows, old(self)@.len())
                    &&& final(self)@.len() == old(self)@.len()
                    &&& forall|i: int|
                        #![trigger entries[i]]
                        #![trigger borrows[i]]
                        0 <= i < old(self)@.len() ==> {
                            &&& *entries[i] == old(self)@[i]
                            &&& *final(entries[i]) == final(self)@[i]
                            &&& *borrows[i] == (if i == 0 {
                                *old(commands)
                            } else {
                                *final(borrows[i - 1])
                            })
                            &&& call_ensures(BoxedSystem::run, (entries[i], world, borrows[i]), ())
                        }
                    &&& *final(commands) == (if borrows.len() == 0 {
                        *old(commands)
                    } else {
                        *final(borrows[borrows.len() - 1])
                    })
                },
    {
        let count = self.systems.len();
        let mut index: usize = 0;
        assert(paired(Seq::<&mut BoxedSystem>::empty(), Seq::<&mut Commands>::empty(), 0));
        while index < count
            invariant
                index <= count,
                self.systems.len() == count,
                old(self).systems.len() == count,
                forall|i: int|
                    index <= i < count ==> (#[trigger] self.systems[i]) == old(self).systems[i],
                forall|i: int|
                    0 <= i < index ==> (#[trigger] self.systems[i]).runs() == old(
                        self,
                    ).systems[i].runs() + 1,
                exists|entries: Seq<&mut BoxedSystem>, borrows: Seq<&mut Commands>|
                    {
                        &&& #[trigger] paired(entries, borrows, index as nat)
                        &&& forall|i: int|
                            #![trigger entries[i]]
                            #![trigger borrows[i]]
                            0 <= i < index ==> {
                                &&& *entries[i] == old(self).systems@[i]
                                &&& *final(entries[i]) == self.systems@[i]
                                &&& *borrows[i] == (if i == 0 {
                                    *old(commands)
                                } else {
                                    *final(borrows[i - 1])
                                })
                                &&& call_ensures(
                                    BoxedSystem::run,
                                    (entries[i], world, borrows[i]),
                                    (),
                                )
                            }
                        &&& *commands == (if index == 0 {
                            *old(commands)
                        } else {
                            *final(borrows[index - 1])
                        })
                    },
            decreases count - index,
        {
            let ghost before = *commands;
            let ghost held = self.systems@;
            self.systems[index].run(world, commands);
            proof {
                let (earlier, lent) = choose|
                    entries: Seq<&mut BoxedSystem>,
                    borrows: Seq<&mut Commands>,
                |
                    {
                        &&& #[trigger] paired(entries, borrows, index as nat)
                        &&& forall|i: int|
                            #![trigger entries[i]]
                            #![trigger borrows[i]]
                            0 <= i < index ==> {
                                &&& *entries[i] == old(self).systems@[i]
                                &&& *final(entries[i]) == held[i]
                                &&& *borrows[i] == (if i == 0 {
                                    *old(commands)
                                } else {
                                    *final(borrows[i - 1])
                                })
                                &&& call_ensures(
                                    BoxedSystem::run,
                                    (entries[i], world, borrows[i]),
                                    (),
                                )
                            }
                        &&& before == (if index == 0 {
                            *old(commands)
                        } else {
                            *final(borrows[index - 1])
                        })
                    };
                let (entry, borrow) = choose|entry: &mut BoxedSystem, borrow: &mut Commands|
                    {
                        &&& *entry == held[index as int]
                        &&& *final(entry) == self.systems@[index as int]
                        &&& *borrow == before
                        &&& *final(borrow) == *commands
                        &&& #[trigger] call_ensures(BoxedSystem::run, (entry, world, borrow), ())
                    };
                let entries = earlier.push(entry);
                let borrows = lent.push(borrow);
                assert(paired(entries, borrows, (index + 1) as nat));
                assert forall|i: int|
                    #![trigger entries[i]]
                    #![trigger borrows[i]]
                    0 <= i < index + 1 implies {
                    &&& *entries[i] == old(self).systems@[i]
                    &&& *final(entries[i]) == self.systems@[i]
                    &&& *borrows[i] == (if i == 0 {
                        *old(commands)
                    } else {
                        *final(borrows[i - 1])
                    })
                    &&& call_ensures(BoxedSystem::run, (entries[i], world, borrows[i]), ())
                } by {
                    if i < index {
                        assert(entries[i] == earlier[i]);
                        assert(borrows[i] == lent[i]);
                        assert(self.systems[i] == held[i]);
                    }
                    if i > 0 {
                        assert(borrows[i - 1] == lent[i - 1]);
                    }
                }
                assert(*commands == *final(borrows[index as int]));
            }
            index = index + 1;
        }
        proof {
            assert(run_counts(self@) =~= each_run_once_more(run_counts(old(self)@)));
        }
    }
}

} // verus!
