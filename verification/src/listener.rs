//! The listener: it binds once, then accepts connections for as long as it
//! runs.
//!
//! The caller owns the socket. It tries to bind and then to accept, tells
//! [`serve`] how each attempt went, and does what it is told.

use vstd::prelude::*;

verus! {

/// The state of the listener.
#[derive(Debug, Clone, Copy, PartialEq, Eq, Structural)]
pub enum Listener {
    /// Not bound yet.
    Starting,
    /// Bound, and accepting connections.
    Accepting,
    /// The address could not be bound.
    Aborted,
}

/// How the attempt went that the listener made last: to bind while starting,
/// to accept while accepting.
#[derive(Debug, Clone, Copy, PartialEq, Eq, Structural)]
pub enum Attempt {
    Succeeded,
    Failed,
}

/// What the caller does next.
#[derive(Debug, Clone, Copy, PartialEq, Eq, Structural)]
pub enum Dispatch {
    /// Accept the first connection.
    Accept,
    /// Hand the accepted connection to a handler of its own, and accept again.
    Spawn,
    /// Log the failure, and accept again.
    Report,
    /// Give up.
    Abort,
}

/// What an attempt leads to. A failure to bind is final. A failure to accept
/// is reported and changes nothing.
pub open spec fn turn(state: Listener, attempt: Attempt) -> (Listener, Dispatch) {
    match (state, attempt) {
        (Listener::Starting, Attempt::Succeeded) => (Listener::Accepting, Dispatch::Accept),
        (Listener::Starting, Attempt::Failed) => (Listener::Aborted, Dispatch::Abort),
        (Listener::Accepting, Attempt::Succeeded) => (Listener::Accepting, Dispatch::Spawn),
        (Listener::Accepting, Attempt::Failed) => (Listener::Accepting, Dispatch::Report),
        (Listener::Aborted, _) => (Listener::Aborted, Dispatch::Abort),
    }
}

/// Takes one step of the listener.
pub fn serve(state: Listener, attempt: Attempt) -> (r: (Listener, Dispatch))
    ensures
        r == turn(state, attempt),
{
    match (state, attempt) {
        (Listener::Starting, Attempt::Succeeded) => (Listener::Accepting, Dispatch::Accept),
        (Listener::Starting, Attempt::Failed) => (Listener::Aborted, Dispatch::Abort),
        (Listener::Accepting, Attempt::Succeeded) => (Listener::Accepting, Dispatch::Spawn),
        (Listener::Accepting, Attempt::Failed) => (Listener::Accepting, Dispatch::Report),
        (Listener::Aborted, _) => (Listener::Aborted, Dispatch::Abort),
    }
}

/// A listener that accepts goes on accepting, whatever becomes of an attempt,
/// and hands out every connection that it accepts.
pub proof fn law_accepting_never_stops(attempt: Attempt)
    ensures
        turn(Listener::Accepting, attempt).0 == Listener::Accepting,
        attempt == Attempt::Succeeded <==> turn(Listener::Accepting, attempt).1
            == Dispatch::Spawn,
{
}

} // verus!
