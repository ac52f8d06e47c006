//! The state of an input between its start and its end.

use vstd::prelude::*;

verus! {

/// A reading that takes up a later reading of its kind.
pub trait Apply: Sized {
    fn apply(&mut self, other: Self);
}

/// The reading of a button: it is pressed, and there is no more to say.
#[derive(Clone, Copy, Debug, PartialEq, Eq, Structural)]
pub struct Digital;

impl Apply for Digital {
    fn apply(&mut self, _other: Self) {
    }
}

impl Digital {
    /// The reading of a button that is pressed, and none of one that is released.
    pub fn pressed(pressed: bool) -> (reading: Option<Digital>)
        ensures
            reading == (if pressed {
                Some(Digital)
            } else {
                None
            }),
    {
        if pressed {
            Some(Digital)
        } else {
            None
        }
    }
}

/// Whether an input is active, and since when.
///
/// Times are readings of the caller's clock.
pub enum State<T> {
    /// The input is active since `start`; `state` is what its readings add up to.
    Started { start: u64, state: T },
    /// The input is at rest since `start`.
    Ended { start: u64 },
}

impl<T> State<T> {
    /// An input that comes to rest at `now`.
    pub fn ended(now: u64) -> (state: Self)
        ensures
            state == (State::<T>::Ended { start: now }),
    {
        Self::Ended { start: now }
    }

    /// An input that becomes active at `now` with the reading `state`.
    pub fn started(state: T, now: u64) -> (started: Self)
        ensures
            started == (State::Started { start: now, state }),
    {
        Self::Started { start: now, state }
    }

    /// An input that is first heard of at `now`: active if there is a reading.
    pub fn new(state: Option<T>, now: u64) -> (made: Self)
        ensures
            made == (match state {
                None => State::<T>::Ended { start: now },
                Some(reading) => State::Started { start: now, state: reading },
            }),
    {
        match state {
            None => Self::ended(now),
            Some(state) => Self::started(state, now),
        }
    }

    /// The state of an input after something is heard of it at `now`, given the state
    /// that was kept for it, if any.
    ///
    /// An input that is heard of for the first time starts out as [`State::new`] says.
    /// Any other takes note of what is heard as [`State::apply`] says.
    pub fn upsert(kept: Option<Self>, value: Option<T>, now: u64) -> (state: Self) where
        T: Apply,

        ensures
            kept is None ==> state == (match value {
                None => State::<T>::Ended { start: now },
                Some(reading) => State::Started { start: now, state: reading },
            }),
            kept is Some && value is None ==> state == (State::<T>::Ended { start: now }),
            kept is Some && value is Some && kept->0 is Ended ==> state == (State::Started {
                start: now,
                state: value->0,
            }),
            kept is Some && value is Some && kept->0 is Started ==> {
                &&& state is Started
                &&& state->Started_start == kept->0->Started_start
                &&& exists|reading: &mut T|
                    {
                        &&& *reading == kept->0->state
                        &&& *final(reading) == state->state
                        &&& #[trigger] call_ensures(T::apply, (reading, value->0), ())
                    }
            },
    {
        match kept {
            None => Self::new(value, now),
            Some(kept) => {
                let mut state = kept;
                state.apply(value, now);
                proof {
                    if value is Some && kept is Started {
                        let reading = choose|reading: &mut T|
                            {
                                &&& *reading == kept->state
                                &&& *final(reading) == state->state
                                &&& #[trigger] call_ensures(T::apply, (reading, value->0), ())
                            };
                        assert(call_ensures(T::apply, (reading, value->0), ()));
                    }
                }
                state
            },
        }
    }

    /// Takes note of what is heard of the input at `now`.
    ///
    /// Without a reading the input comes to rest at `now`. With a reading an input at
    /// rest becomes active at `now`, and an active input stays active since when it
    /// was, its state taking up the reading: the state's own `apply` is called on a
    /// borrow of the state and on the reading.
    pub fn apply(&mut self, value: Option<T>, now: u64) where T: Apply
        ensures
            value is None ==> *final(self) == (State::<T>::Ended { start: now }),
            value is Some && *old(self) is Ended ==> *final(self) == (State::Started {
                start: now,
                state: value->0,
            }),
            value is Some && *old(self) is Started ==> {
                &&& *final(self) is Started
                &&& final(self)->Started_start == old(self)->Started_start
                &&& exists|reading: &mut T|
                    {
                        &&& *reading == old(self)->state
                        &&& *final(reading) == final(self)->state
                        &&& #[trigger] call_ensures(T::apply, (reading, value->0), ())
                    }
            },
    {
        if let Some(value) = value {
            match self {
                Self::Started { state, .. } => {
                    state.apply(value);
                },
                Self::Ended { .. } => *self = State::started(value, now),
            }
            proof {
                if *old(self) is Started {
                    let reading = choose|reading: &mut T|
                        {
                            &&& *reading == old(self)->state
                            &&& *final(reading) == self->state
                            &&& #[trigger] call_ensures(T::apply, (reading, value), ())
                        };
                    assert(call_ensures(T::apply, (reading, value), ()));
                }
            }
        } else {
            *self = State::ended(now)
        }
    }
}

} // verus!
