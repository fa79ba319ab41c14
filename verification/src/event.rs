//! The inputs a node reacts to, and the capability that consumes them.

use vstd::prelude::*;

verus! {

/// One input of the node.
///
/// `N` is the network event type, `T` the timeout token and `A` the control
/// message accepted from the API. The three payload types belong to the
/// collaborators that produce them; an event only carries them.
#[derive(Debug, PartialEq, Eq)]
pub enum Event<N, T, A> {
    Network(N),
    Timeout(T),
    Api(A),
}

/// The consumer of the merged stream. Events arrive one at a time, in the
/// order in which the aggregator emitted them.
pub trait EventHandler<N, T, A> {
    fn handle_event(&mut self, event: Event<N, T, A>);
}

impl<N, T, A> Event<N, T, A> {
    /// Wraps a network event.
    pub fn from_network(event: N) -> (r: Self)
        ensures
            r == Event::<N, T, A>::Network(event),
    {
        Event::Network(event)
    }

    /// Wraps the token of a timeout that has come due.
    pub fn from_timeout(token: T) -> (r: Self)
        ensures
            r == Event::<N, T, A>::Timeout(token),
    {
        Event::Timeout(token)
    }

    /// Wraps a control message.
    pub fn from_api(message: A) -> (r: Self)
        ensures
            r == Event::<N, T, A>::Api(message),
    {
        Event::Api(message)
    }
}

} // verus!
