//! The one-shot connection point through which two processes that share nothing yet
//! exchange the ends of their channels.
//!
//! The side that starts the other opens a rendezvous and passes its token along in the
//! argument of the new process. The new process dials the token and sends one message
//! that carries the two channel ends meant for its parent. After that message the token
//! is used up.

use vstd::prelude::*;

verus! {

/// The message that the simulation sends through the rendezvous: the two channel ends
/// that belong to the front-end.
pub struct Connect<S, R> {
    /// The end through which the front-end sends client events.
    pub app_sender: S,
    /// The end from which the front-end receives engine events.
    pub engine_receiver: R,
}

/// A breach of the handshake protocol.
#[derive(Clone, Copy, Debug, PartialEq, Eq, Structural)]
pub enum ProtocolViolation {
    /// A connection was offered to a rendezvous that had accepted one already.
    TokenConsumed,
}

/// The state of a rendezvous.
pub struct RendezvousView {
    /// The address that the other process dials.
    pub token: Seq<char>,
    /// Whether the one connection has been accepted.
    pub consumed: bool,
}

impl RendezvousView {
    /// Whether a connection that is offered now is accepted.
    pub open spec fn admits(self) -> bool {
        !self.consumed
    }

    /// The state after a connection was offered, accepted or not.
    pub open spec fn offered(self) -> RendezvousView {
        RendezvousView { token: self.token, consumed: true }
    }
}

/// A connection point that accepts exactly one connection.
pub struct Rendezvous {
    token: String,
    consumed: bool,
}

impl Rendezvous {
    pub closed spec fn view(&self) -> RendezvousView {
        RendezvousView { token: self.token@, consumed: self.consumed }
    }

    /// A rendezvous at the address `token` that has accepted nothing yet.
    pub fn open(token: String) -> (rendezvous: Rendezvous)
        ensures
            rendezvous@ == (RendezvousView { token: token@, consumed: false }),
    {
        Rendezvous { token, consumed: false }
    }

    /// The address that the other process dials.
    pub fn token(&self) -> (token: &str)
        ensures
            token@ == self@.token,
    {
        self.token.as_str()
    }

    /// Whether the one connection has been accepted.
    pub fn is_consumed(&self) -> (consumed: bool)
        ensures
            consumed == self@.consumed,
    {
        self.consumed
    }

    /// Takes the message of a connection and hands out the channel ends in it.
    ///
    /// The first connection is accepted. Every later one is rejected, and its message is
    /// dropped.
    pub fn accept<S, R>(&mut self, message: Connect<S, R>) -> (ends: Result<
        (S, R),
        ProtocolViolation,
    >)
        ensures
            final(self)@ == old(self)@.offered(),
            old(self)@.admits() ==> ends == Ok::<(S, R), ProtocolViolation>(
                (message.app_sender, message.engine_receiver),
            ),
            !old(self)@.admits() ==> ends == Err::<(S, R), ProtocolViolation>(
                ProtocolViolation::TokenConsumed,
            ),
    {
        if self.consumed {
            Err(ProtocolViolation::TokenConsumed)
        } else {
            self.consumed = true;
            Ok((message.app_sender, message.engine_receiver))
        }
    }
}

/// A rendezvous accepts one connection and no second one: once a connection has been
/// offered, no connection is admitted any more, however many are offered.
pub proof fn lemma_token_is_accepted_once(rendezvous: RendezvousView)
    ensures
        !rendezvous.offered().admits(),
        rendezvous.offered().offered() == rendezvous.offered(),
        rendezvous.offered().token == rendezvous.token,
{
}

} // verus!
