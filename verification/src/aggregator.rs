//! The merge engine: three sources behind one prioritised stream of events.

use crate::event::Event;
use crate::source::{ended, item, pending, reports, Source};
use futures::{Async, Poll};
use vstd::prelude::*;

verus! {

/// Merges a timeout source, a network source and an API source into one
/// stream of events. Timeouts come before network events, network events
/// before control messages, and the stream ends for good as soon as any one
/// of the three sources does.
#[derive(Debug)]
pub struct EventsAggregator<S1, S2, S3> {
    done: bool,
    timeout: S1,
    network: S2,
    api: S3,
}

/// What a step returns once the sources it polled have answered: the first
/// outcome in priority order that is not "nothing ready yet", an item wrapped
/// into the event of its source; and "nothing ready yet" when all three say so.
/// `network` counts only where `timeout` had nothing ready, and `api` only
/// where neither had.
pub open spec fn merged<N, T, A, E>(
    timeout: Poll<Option<T>, E>,
    network: Poll<Option<N>, E>,
    api: Poll<Option<A>, E>,
) -> Poll<Option<Event<N, T, A>>, E> {
    match timeout {
        Ok(Async::Ready(Some(token))) => item(Event::Timeout(token)),
        Ok(Async::Ready(None)) => ended(),
        Err(e) => Err(e),
        Ok(Async::NotReady) => match network {
            Ok(Async::Ready(Some(event))) => item(Event::Network(event)),
            Ok(Async::Ready(None)) => ended(),
            Err(e) => Err(e),
            Ok(Async::NotReady) => match api {
                Ok(Async::Ready(Some(message))) => item(Event::Api(message)),
                Ok(Async::Ready(None)) => ended(),
                Err(e) => Err(e),
                Ok(Async::NotReady) => pending(),
            },
        },
    }
}

impl<S1, S2, S3> EventsAggregator<S1, S2, S3> {
    /// Whether the stream has ended.
    pub closed spec fn finished(self) -> bool {
        self.done
    }

    /// The timeout source as it stands.
    pub closed spec fn timeout(self) -> S1 {
        self.timeout
    }

    /// The network source as it stands.
    pub closed spec fn network(self) -> S2 {
        self.network
    }

    /// The API source as it stands.
    pub closed spec fn api(self) -> S3 {
        self.api
    }

    /// An aggregator that owns the three sources and has not ended.
    pub fn new(timeout: S1, network: S2, api: S3) -> (r: EventsAggregator<S1, S2, S3>)
        ensures
            !r.finished(),
            r.timeout() == timeout,
            r.network() == network,
            r.api() == api,
    {
        EventsAggregator { done: false, network: network, timeout: timeout, api: api }
    }

    /// Whether the stream has ended.
    pub fn is_finished(&self) -> (r: bool)
        ensures
            r == self.finished(),
    {
        self.done
    }

    /// The timeout source.
    pub fn timeout_source(&self) -> (r: &S1)
        ensures
            *r == self.timeout(),
    {
        &self.timeout
    }

    /// The network source.
    pub fn network_source(&self) -> (r: &S2)
        ensures
            *r == self.network(),
    {
        &self.network
    }

    /// The API source.
    pub fn api_source(&self) -> (r: &S3)
        ensures
            *r == self.api(),
    {
        &self.api
    }
}

impl<S1, S2, S3> EventsAggregator<S1, S2, S3> where
    S1: Source,
    S2: Source<Error = S1::Error>,
    S3: Source<Error = S1::Error>,
 {
    /// One step from `pre` to `post` with result `result`.
    ///
    /// An aggregator that has ended stays as it is and reports the end. One
    /// that has not polls the timeout source; the network source if that had
    /// nothing ready; the API source if neither had. A source that is not
    /// polled stays as it is. The result is `merged` of the outcomes, and the
    /// aggregator has ended afterwards exactly if the result is the end.
    pub open spec fn stepped(
        pre: Self,
        post: Self,
        result: Poll<Option<Event<S2::Item, S1::Item, S3::Item>>, S1::Error>,
    ) -> bool {
        if pre.finished() {
            post == pre && result == ended::<Event<S2::Item, S1::Item, S3::Item>, S1::Error>()
        } else {
            exists|
                t: Poll<Option<S1::Item>, S1::Error>,
                n: Poll<Option<S2::Item>, S1::Error>,
                a: Poll<Option<S3::Item>, S1::Error>,
            |
                Self::stepped_with(pre, post, result, t, n, a)
        }
    }

    /// A step of an aggregator that has not ended, on which the sources that
    /// were polled answered `t`, `n` and `a`.
    pub open spec fn stepped_with(
        pre: Self,
        post: Self,
        result: Poll<Option<Event<S2::Item, S1::Item, S3::Item>>, S1::Error>,
        t: Poll<Option<S1::Item>, S1::Error>,
        n: Poll<Option<S2::Item>, S1::Error>,
        a: Poll<Option<S3::Item>, S1::Error>,
    ) -> bool {
        &&& S1::polled(pre.timeout(), post.timeout(), t)
        &&& if t == pending::<S1::Item, S1::Error>() {
            S2::polled(pre.network(), post.network(), n)
        } else {
            post.network() == pre.network()
        }
        &&& if t == pending::<S1::Item, S1::Error>() && n == pending::<S2::Item, S1::Error>() {
            S3::polled(pre.api(), post.api(), a)
        } else {
            post.api() == pre.api()
        }
        &&& result == merged(t, n, a)
        &&& post.finished() == (result == ended::<Event<S2::Item, S1::Item, S3::Item>, S1::Error>())
    }

    /// A run of steps: `states[i]` is the aggregator before step `i` and
    /// `states[i + 1]` after it, `results[i]` what the step returned.
    pub open spec fn run(
        states: Seq<Self>,
        results: Seq<Poll<Option<Event<S2::Item, S1::Item, S3::Item>>, S1::Error>>,
    ) -> bool {
        &&& states.len() == results.len() + 1
        &&& forall|i: int|
            0 <= i < results.len() ==> #[trigger] Self::stepped(
                states[i],
                states[i + 1],
                results[i],
            )
    }

    /// A step is decided by what the sources report: where the timeout source
    /// reports `t`, the network source `n` if it comes to be polled, and the
    /// API source `a` if it does, the step returns `merged(t, n, a)`, leaves
    /// every source that was not polled as it was, and ends the stream
    /// exactly if it returns the end.
    pub proof fn lemma_step_decided(
        pre: Self,
        post: Self,
        result: Poll<Option<Event<S2::Item, S1::Item, S3::Item>>, S1::Error>,
        t: Poll<Option<S1::Item>, S1::Error>,
        n: Poll<Option<S2::Item>, S1::Error>,
        a: Poll<Option<S3::Item>, S1::Error>,
    )
        requires
            !pre.finished(),
            Self::stepped(pre, post, result),
            reports(pre.timeout(), t),
            t == pending::<S1::Item, S1::Error>() ==> reports(pre.network(), n),
            t == pending::<S1::Item, S1::Error>() && n == pending::<S2::Item, S1::Error>()
                ==> reports(pre.api(), a),
        ensures
            result == merged(t, n, a),
            post.finished() == (result == ended::<
                Event<S2::Item, S1::Item, S3::Item>,
                S1::Error,
            >()),
            t != pending::<S1::Item, S1::Error>() ==> post.network() == pre.network(),
            t != pending::<S1::Item, S1::Error>() || n != pending::<S2::Item, S1::Error>()
                ==> post.api() == pre.api(),
    {
        let (t0, n0, a0) = choose|
            t0: Poll<Option<S1::Item>, S1::Error>,
            n0: Poll<Option<S2::Item>, S1::Error>,
            a0: Poll<Option<S3::Item>, S1::Error>,
        |
            Self::stepped_with(pre, post, result, t0, n0, a0);
        assert(t0 == t);
        if t == pending::<S1::Item, S1::Error>() {
            assert(n0 == n);
            if n == pending::<S2::Item, S1::Error>() {
                assert(a0 == a);
            }
        }
    }

    /// Where only the API source has an item ready and the other two have
    /// nothing ready, the step returns that item as an `Api` event and the
    /// stream has not ended.
    pub proof fn lemma_single_ready_source(
        pre: Self,
        post: Self,
        result: Poll<Option<Event<S2::Item, S1::Item, S3::Item>>, S1::Error>,
        message: S3::Item,
    )
        requires
            !pre.finished(),
            Self::stepped(pre, post, result),
            reports(pre.timeout(), pending()),
            reports(pre.network(), pending()),
            reports(pre.api(), item(message)),
        ensures
            result == item::<Event<S2::Item, S1::Item, S3::Item>, S1::Error>(Event::Api(message)),
            !post.finished(),
    {
        Self::lemma_step_decided(pre, post, result, pending(), pending(), item(message));
    }

    /// A ready timeout comes first: the step returns it as a `Timeout` event
    /// whatever the other two sources hold, and polls neither of them, so
    /// both are as they were.
    pub proof fn lemma_timeout_preempts(
        pre: Self,
        post: Self,
        result: Poll<Option<Event<S2::Item, S1::Item, S3::Item>>, S1::Error>,
        token: S1::Item,
    )
        requires
            !pre.finished(),
            Self::stepped(pre, post, result),
            reports(pre.timeout(), item(token)),
        ensures
            result == item::<Event<S2::Item, S1::Item, S3::Item>, S1::Error>(
                Event::Timeout(token),
            ),
            post.network() == pre.network(),
            post.api() == pre.api(),
            !post.finished(),
    {
        Self::lemma_step_decided(pre, post, result, item(token), pending(), pending());
    }

    /// A ready network event comes before the API source: where the timeout
    /// source has nothing ready, the step returns it as a `Network` event and
    /// does not poll the API source.
    pub proof fn lemma_network_preempts(
        pre: Self,
        post: Self,
        result: Poll<Option<Event<S2::Item, S1::Item, S3::Item>>, S1::Error>,
        event: S2::Item,
    )
        requires
            !pre.finished(),
            Self::stepped(pre, post, result),
            reports(pre.timeout(), pending()),
            reports(pre.network(), item(event)),
        ensures
            result == item::<Event<S2::Item, S1::Item, S3::Item>, S1::Error>(
                Event::Network(event),
            ),
            post.api() == pre.api(),
            !post.finished(),
    {
        Self::lemma_step_decided(pre, post, result, pending(), item(event), pending());
    }

    /// An error of the network source is handed on as it is: where the
    /// timeout source has nothing ready and the network source fails with
    /// `error`, the step returns `error`, no event, and the stream has not
    /// ended.
    pub proof fn lemma_error_propagates(
        pre: Self,
        post: Self,
        result: Poll<Option<Event<S2::Item, S1::Item, S3::Item>>, S1::Error>,
        error: S1::Error,
    )
        requires
            !pre.finished(),
            Self::stepped(pre, post, result),
            reports(pre.timeout(), pending()),
            reports(pre.network(), Err(error)),
        ensures
            result == Err::<Async<Option<Event<S2::Item, S1::Item, S3::Item>>>, S1::Error>(error),
            post.api() == pre.api(),
            !post.finished(),
    {
        Self::lemma_step_decided(pre, post, result, pending(), Err(error), pending());
    }

    /// No step that returns an error ends the stream, whichever source
    /// failed.
    pub proof fn lemma_error_never_finishes(
        pre: Self,
        post: Self,
        result: Poll<Option<Event<S2::Item, S1::Item, S3::Item>>, S1::Error>,
    )
        requires
            Self::stepped(pre, post, result),
            result is Err,
        ensures
            !pre.finished(),
            !post.finished(),
    {
    }

    /// The first source to be exhausted ends the stream: a step on which the
    /// timeout source reports its end, or the network source after a timeout
    /// source with nothing ready, or the API source after two such, returns
    /// the end and leaves the aggregator finished.
    pub proof fn lemma_exhaustion_finishes(
        pre: Self,
        post: Self,
        result: Poll<Option<Event<S2::Item, S1::Item, S3::Item>>, S1::Error>,
    )
        requires
            !pre.finished(),
            Self::stepped(pre, post, result),
            reports(pre.timeout(), ended()) || (reports(pre.timeout(), pending()) && (reports(
                pre.network(),
                ended(),
            ) || (reports(pre.network(), pending()) && reports(pre.api(), ended())))),
        ensures
            result == ended::<Event<S2::Item, S1::Item, S3::Item>, S1::Error>(),
            post.finished(),
    {
        if reports(pre.timeout(), ended()) {
            Self::lemma_step_decided(pre, post, result, ended(), pending(), pending());
        } else if reports(pre.network(), ended()) {
            Self::lemma_step_decided(pre, post, result, pending(), ended(), pending());
        } else {
            Self::lemma_step_decided(pre, post, result, pending(), pending(), ended());
        }
    }

    /// Once the stream has ended it stays ended: in a run of steps, after a
    /// step that returned the end, or from a state that is finished, every
    /// later step returns the end, polls nothing and leaves the aggregator as
    /// it was, finished.
    pub proof fn lemma_end_is_final(
        states: Seq<Self>,
        results: Seq<Poll<Option<Event<S2::Item, S1::Item, S3::Item>>, S1::Error>>,
        first: int,
        later: int,
    )
        requires
            Self::run(states, results),
            0 <= first <= later < results.len(),
            states[first].finished() || (first < later && results[first] == ended::<
                Event<S2::Item, S1::Item, S3::Item>,
                S1::Error,
            >()),
        ensures
            results[later] == ended::<Event<S2::Item, S1::Item, S3::Item>, S1::Error>(),
            states[later].finished(),
            states[later + 1] == states[later],
        decreases later - first,
    {
        assert(Self::stepped(states[later], states[later + 1], results[later]));
        if first < later {
            assert(Self::stepped(states[first], states[first + 1], results[first]));
            if later == first + 1 {
                assert(states[later].finished());
            } else {
                Self::lemma_end_is_final(states, results, first, later - 1);
                assert(Self::stepped(states[later - 1], states[later - 1 + 1], results[later - 1]));
            }
        }
    }

    /// Takes one step: returns the next event if one is ready, in the
    /// priority order of the sources, and never blocks.
    pub fn poll(&mut self) -> (result: Poll<Option<Event<S2::Item, S1::Item, S3::Item>>, S1::Error>)
        ensures
            Self::stepped(*old(self), *final(self), result),
    {
        if self.done {
            return Ok(Async::Ready(None));
        }
        let ghost pre = *self;
        let t = self.timeout.poll();
        match t {
            Ok(Async::Ready(Some(token))) => {
                let r = Ok(Async::Ready(Some(Event::Timeout(token))));
                proof {
                    assert(Self::stepped_with(pre, *self, r, t, pending(), pending()));
                }
                return r;
            },
            Ok(Async::Ready(None)) => {
                self.done = true;
                let r = Ok(Async::Ready(None));
                proof {
                    assert(Self::stepped_with(pre, *self, r, t, pending(), pending()));
                }
                return r;
            },
            Err(e) => {
                let r = Err(e);
                proof {
                    assert(Self::stepped_with(pre, *self, r, t, pending(), pending()));
                }
                return r;
            },
            Ok(Async::NotReady) => {},
        }
        let n = self.network.poll();
        match n {
            Ok(Async::Ready(Some(event))) => {
                let r = Ok(Async::Ready(Some(Event::Network(event))));
                proof {
                    assert(Self::stepped_with(pre, *self, r, t, n, pending()));
                }
                return r;
            },
            Ok(Async::Ready(None)) => {
                self.done = true;
                let r = Ok(Async::Ready(None));
                proof {
                    assert(Self::stepped_with(pre, *self, r, t, n, pending()));
                }
                return r;
            },
            Err(e) => {
                let r = Err(e);
                proof {
                    assert(Self::stepped_with(pre, *self, r, t, n, pending()));
                }
                return r;
            },
            Ok(Async::NotReady) => {},
        }
        let a = self.api.poll();
        match a {
            Ok(Async::Ready(Some(message))) => {
                let r = Ok(Async::Ready(Some(Event::Api(message))));
                proof {
                    assert(Self::stepped_with(pre, *self, r, t, n, a));
                }
                r
            },
            Ok(Async::Ready(None)) => {
                self.done = true;
                let r = Ok(Async::Ready(None));
                proof {
                    assert(Self::stepped_with(pre, *self, r, t, n, a));
                }
                r
            },
            Err(e) => {
                let r = Err(e);
                proof {
                    assert(Self::stepped_with(pre, *self, r, t, n, a));
                }
                r
            },
            Ok(Async::NotReady) => {
                let r = Ok(Async::NotReady);
                proof {
                    assert(Self::stepped_with(pre, *self, r, t, n, a));
                }
                r
            },
        }
    }
}

} // verus!
