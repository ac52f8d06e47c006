//! Messages from the front-end to the simulation.

use vstd::prelude::*;

verus! {

/// The reading that comes with the start of an action.
///
/// Axis readings are IEEE 754 single-precision numbers, carried as their bit patterns.
#[derive(Clone, Copy, Debug, PartialEq, Eq, Structural)]
pub enum Value {
    Digital,
    Analog { x: u32 },
    Velocity { x: u32 },
    Velocity2 { x: u32, y: u32 },
    Position { x: u32 },
    Position2 { x: u32, y: u32 },
}

/// What the front-end tells the simulation.
///
/// The set of events may grow. A receiver must not assume that it knows every event.
#[derive(Clone, Copy, Debug, PartialEq, Eq, Structural)]
#[non_exhaustive]
pub enum ClientEvent {
    /// The simulation is to shut down after the cycle that is under way.
    CloseRequested,
    /// The action `id` starts with the reading `value`.
    BeginAction { id: u8, value: Value },
    /// The action `id` ends.
    EndAction { id: u8 },
}

impl ClientEvent {
    /// Whether the event asks the simulation to shut down.
    pub open spec fn spec_is_close_request(self) -> bool {
        self is CloseRequested
    }

    #[verifier::when_used_as_spec(spec_is_close_request)]
    pub fn is_close_request(self) -> (close: bool)
        ensures
            close == (self is CloseRequested),
    {
        match self {
            ClientEvent::CloseRequested => true,
            _ => false,
        }
    }
}

} // verus!
