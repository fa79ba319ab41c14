//! Non-blocking sources: what one poll of a source reports, the interface a
//! source offers, and a source that replays a fixed script.

use futures::{Async, Poll};
use vstd::prelude::*;

verus! {

/// `futures::Async`, the readiness half of a poll's result. Verus reads the
/// enum's two variants, `Ready` with its value and `NotReady`, from the crate
/// itself; nothing more is claimed of it.
#[verifier::external_type_specification]
#[verifier::reject_recursive_types(T)]
pub struct ExAsync<T>(Async<T>);

/// The outcome of a poll that yields `item`.
pub open spec fn item<V, E>(item: V) -> Poll<Option<V>, E> {
    Ok(Async::Ready(Some(item)))
}

/// The outcome of a poll that finds the stream at its end.
pub open spec fn ended<V, E>() -> Poll<Option<V>, E> {
    Ok(Async::Ready(None))
}

/// The outcome of a poll that finds nothing ready yet.
pub open spec fn pending<V, E>() -> Poll<Option<V>, E> {
    Ok(Async::NotReady)
}

/// A producer of items that never blocks. A poll reports an item, an error,
/// that nothing is ready yet, or that the source is exhausted.
pub trait Source: Sized {
    type Item;

    type Error;

    /// What one poll may do: take the source from `pre` to `post` and report
    /// `outcome`. A source that states nothing here may do anything.
    open spec fn polled(pre: Self, post: Self, outcome: Poll<Option<Self::Item>, Self::Error>) -> bool {
        true
    }

    fn poll(&mut self) -> (outcome: Poll<Option<Self::Item>, Self::Error>)
        ensures
            Self::polled(*old(self), *final(self), outcome),
    ;
}

/// Every poll of `source`, as it stands, reports `outcome`.
pub open spec fn reports<S: Source>(source: S, outcome: Poll<Option<S::Item>, S::Error>) -> bool {
    forall|post: S, o: Poll<Option<S::Item>, S::Error>| #[trigger]
        S::polled(source, post, o) ==> o == outcome
}

/// A source that replays a script of outcomes, one per poll, and counts how
/// often it was polled. When the script has run out it reports its end, on
/// every further poll too.
#[verifier::reject_recursive_types(V)]
pub struct Script<V, E> {
    script: Vec<Poll<Option<V>, E>>,
    polls: u64,
}

impl<V, E> Script<V, E> {
    /// The outcomes still to come, the next one first.
    pub closed spec fn remaining(self) -> Seq<Poll<Option<V>, E>> {
        self.script@
    }

    /// How often the source has been polled; the count stops at `u64::MAX`.
    pub closed spec fn polls(self) -> nat {
        self.polls as nat
    }

    /// A source that will report `script`, outcome by outcome.
    pub fn new(script: Vec<Poll<Option<V>, E>>) -> (r: Self)
        ensures
            r.remaining() == script@,
            r.polls() == 0,
    {
        Script { script, polls: 0 }
    }

    /// How often the source has been polled.
    pub fn poll_count(&self) -> (r: u64)
        ensures
            r == self.polls(),
    {
        self.polls
    }

    /// How many outcomes of the script are still to come.
    pub fn len(&self) -> (r: usize)
        ensures
            r == self.remaining().len(),
    {
        self.script.len()
    }

    /// What the next poll reports: the script's next outcome, or the end
    /// when the script has run out.
    pub open spec fn next(self) -> Poll<Option<V>, E> {
        if self.remaining().len() == 0 {
            ended()
        } else {
            self.remaining()[0]
        }
    }

    /// A script reports its next outcome and nothing else.
    pub proof fn lemma_reports_next(self)
        ensures
            reports(self, self.next()),
    {
    }
}

impl<V, E> Source for Script<V, E> {
    type Item = V;

    type Error = E;

    open spec fn polled(pre: Self, post: Self, outcome: Poll<Option<V>, E>) -> bool {
        &&& post.polls() == if pre.polls() < u64::MAX { pre.polls() + 1 } else { pre.polls() }
        &&& if pre.remaining().len() == 0 {
            &&& outcome == ended::<V, E>()
            &&& post.remaining() == pre.remaining()
        } else {
            &&& outcome == pre.remaining()[0]
            &&& post.remaining() == pre.remaining().skip(1)
        }
    }

    fn poll(&mut self) -> (outcome: Poll<Option<V>, E>) {
        if self.polls < u64::MAX {
            self.polls = self.polls + 1;
        }
        if self.script.len() == 0 {
            Ok(Async::Ready(None))
        } else {
            self.script.remove(0)
        }
    }
}

} // verus!
