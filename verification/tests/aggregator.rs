use events::{Event, EventsAggregator, Script, Source};
use futures::{Async, Poll};

type Outcome<V> = Poll<Option<V>, String>;
type Merged = Poll<Option<Event<&'static str, u32, char>>, String>;

fn ready<V>(item: V) -> Outcome<V> {
    Ok(Async::Ready(Some(item)))
}

fn end<V>() -> Outcome<V> {
    Ok(Async::Ready(None))
}

fn not_ready<V>() -> Outcome<V> {
    Ok(Async::NotReady)
}

fn fail<V>(message: &str) -> Outcome<V> {
    Err(String::from(message))
}

fn aggregator(
    timeout: Vec<Outcome<u32>>,
    network: Vec<Outcome<&'static str>>,
    api: Vec<Outcome<char>>,
) -> EventsAggregator<Script<u32, String>, Script<&'static str, String>, Script<char, String>> {
    EventsAggregator::new(Script::new(timeout), Script::new(network), Script::new(api))
}

#[test]
fn new_aggregator_has_not_finished_and_has_polled_nothing() {
    let agg = aggregator(vec![ready(1)], vec![ready("n")], vec![ready('a')]);
    assert!(!agg.is_finished());
    assert_eq!(agg.timeout_source().poll_count(), 0);
    assert_eq!(agg.network_source().poll_count(), 0);
    assert_eq!(agg.api_source().poll_count(), 0);
    assert_eq!(agg.timeout_source().len(), 1);
    assert_eq!(agg.network_source().len(), 1);
    assert_eq!(agg.api_source().len(), 1);
}

#[test]
fn only_api_ready_yields_api_event() {
    let mut agg = aggregator(vec![not_ready()], vec![not_ready()], vec![ready('a')]);
    let expected: Merged = Ok(Async::Ready(Some(Event::Api('a'))));
    assert_eq!(agg.poll(), expected);
    assert!(!agg.is_finished());
    assert_eq!(agg.timeout_source().poll_count(), 1);
    assert_eq!(agg.network_source().poll_count(), 1);
    assert_eq!(agg.api_source().poll_count(), 1);
}

#[test]
fn only_network_ready_yields_network_event() {
    let mut agg = aggregator(vec![not_ready()], vec![ready("block")], vec![not_ready()]);
    let expected: Merged = Ok(Async::Ready(Some(Event::Network("block"))));
    assert_eq!(agg.poll(), expected);
    assert!(!agg.is_finished());
}

#[test]
fn timeout_preempts_network_without_polling_it() {
    let mut agg = aggregator(vec![ready(7)], vec![ready("n")], vec![ready('a')]);
    let expected: Merged = Ok(Async::Ready(Some(Event::Timeout(7))));
    assert_eq!(agg.poll(), expected);
    assert!(!agg.is_finished());
    assert_eq!(agg.timeout_source().poll_count(), 1);
    assert_eq!(agg.network_source().poll_count(), 0);
    assert_eq!(agg.network_source().len(), 1);
    assert_eq!(agg.api_source().poll_count(), 0);
    assert_eq!(agg.api_source().len(), 1);
}

#[test]
fn network_preempts_api_without_polling_it() {
    let mut agg = aggregator(vec![not_ready()], vec![ready("n")], vec![ready('a')]);
    let expected: Merged = Ok(Async::Ready(Some(Event::Network("n"))));
    assert_eq!(agg.poll(), expected);
    assert_eq!(agg.network_source().poll_count(), 1);
    assert_eq!(agg.api_source().poll_count(), 0);
    assert_eq!(agg.api_source().len(), 1);
}

#[test]
fn one_event_per_step_and_the_rest_on_later_steps() {
    let mut agg = aggregator(
        vec![ready(1), not_ready(), not_ready(), not_ready()],
        vec![ready("n"), not_ready(), not_ready()],
        vec![ready('a'), not_ready()],
    );
    let first: Merged = Ok(Async::Ready(Some(Event::Timeout(1))));
    let second: Merged = Ok(Async::Ready(Some(Event::Network("n"))));
    let third: Merged = Ok(Async::Ready(Some(Event::Api('a'))));
    let fourth: Merged = Ok(Async::NotReady);
    assert_eq!(agg.poll(), first);
    assert_eq!(agg.poll(), second);
    assert_eq!(agg.poll(), third);
    assert_eq!(agg.poll(), fourth);
    assert!(!agg.is_finished());
}

#[test]
fn all_sources_not_ready_is_pending() {
    let mut agg = aggregator(vec![not_ready()], vec![not_ready()], vec![not_ready()]);
    let expected: Merged = Ok(Async::NotReady);
    assert_eq!(agg.poll(), expected);
    assert!(!agg.is_finished());
    assert_eq!(agg.timeout_source().poll_count(), 1);
    assert_eq!(agg.network_source().poll_count(), 1);
    assert_eq!(agg.api_source().poll_count(), 1);
}

#[test]
fn exhausted_timeout_source_ends_the_stream_for_good() {
    let mut agg = aggregator(vec![], vec![ready("n1"), ready("n2")], vec![ready('a')]);
    let ended: Merged = Ok(Async::Ready(None));
    assert_eq!(agg.poll(), ended);
    assert!(agg.is_finished());
    for _ in 0..100 {
        assert_eq!(agg.poll(), ended);
        assert!(agg.is_finished());
    }
    assert_eq!(agg.timeout_source().poll_count(), 1);
    assert_eq!(agg.network_source().poll_count(), 0);
    assert_eq!(agg.network_source().len(), 2);
    assert_eq!(agg.api_source().poll_count(), 0);
}

#[test]
fn exhausted_network_source_ends_the_stream_for_good() {
    let mut agg = aggregator(
        vec![not_ready(), ready(1), ready(2)],
        vec![end()],
        vec![ready('a')],
    );
    let ended: Merged = Ok(Async::Ready(None));
    assert_eq!(agg.poll(), ended);
    assert!(agg.is_finished());
    for _ in 0..100 {
        assert_eq!(agg.poll(), ended);
    }
    assert_eq!(agg.timeout_source().poll_count(), 1);
    assert_eq!(agg.timeout_source().len(), 2);
    assert_eq!(agg.network_source().poll_count(), 1);
    assert_eq!(agg.api_source().poll_count(), 0);
}

#[test]
fn exhausted_api_source_ends_the_stream_for_good() {
    let mut agg = aggregator(
        vec![not_ready(), ready(1)],
        vec![not_ready(), ready("n")],
        vec![end()],
    );
    let ended: Merged = Ok(Async::Ready(None));
    assert_eq!(agg.poll(), ended);
    assert!(agg.is_finished());
    for _ in 0..100 {
        assert_eq!(agg.poll(), ended);
    }
    assert_eq!(agg.timeout_source().len(), 1);
    assert_eq!(agg.network_source().len(), 1);
    assert_eq!(agg.api_source().poll_count(), 1);
}

#[test]
fn network_error_is_propagated_and_does_not_finish() {
    let mut agg = aggregator(vec![not_ready()], vec![fail("link down")], vec![ready('a')]);
    let expected: Merged = Err(String::from("link down"));
    assert_eq!(agg.poll(), expected);
    assert!(!agg.is_finished());
    assert_eq!(agg.api_source().poll_count(), 0);
    assert_eq!(agg.api_source().len(), 1);
}

#[test]
fn timeout_error_is_propagated_and_does_not_finish() {
    let mut agg = aggregator(vec![fail("timer")], vec![ready("n")], vec![ready('a')]);
    let expected: Merged = Err(String::from("timer"));
    assert_eq!(agg.poll(), expected);
    assert!(!agg.is_finished());
    assert_eq!(agg.network_source().poll_count(), 0);
    assert_eq!(agg.api_source().poll_count(), 0);
}

#[test]
fn api_error_is_propagated_and_does_not_finish() {
    let mut agg = aggregator(vec![not_ready()], vec![not_ready()], vec![fail("api")]);
    let expected: Merged = Err(String::from("api"));
    assert_eq!(agg.poll(), expected);
    assert!(!agg.is_finished());
}

#[test]
fn stepping_goes_on_after_an_error() {
    let mut agg = aggregator(
        vec![not_ready(), ready(3)],
        vec![fail("once"), ready("n")],
        vec![ready('a')],
    );
    let failed: Merged = Err(String::from("once"));
    let next: Merged = Ok(Async::Ready(Some(Event::Timeout(3))));
    assert_eq!(agg.poll(), failed);
    assert_eq!(agg.poll(), next);
    assert!(!agg.is_finished());
}

#[test]
fn first_source_to_finish_ends_the_stream() {
    let mut agg = aggregator(
        vec![ready(1)],
        vec![ready("n1"), ready("n2")],
        vec![ready('a')],
    );
    let first: Merged = Ok(Async::Ready(Some(Event::Timeout(1))));
    let ended: Merged = Ok(Async::Ready(None));
    assert_eq!(agg.poll(), first);
    assert!(!agg.is_finished());
    assert_eq!(agg.poll(), ended);
    assert!(agg.is_finished());
    assert_eq!(agg.poll(), ended);
    assert_eq!(agg.network_source().len(), 2);
    assert_eq!(agg.network_source().poll_count(), 0);
    assert_eq!(agg.api_source().len(), 1);
    assert_eq!(agg.api_source().poll_count(), 0);
}

#[test]
fn script_replays_its_outcomes_then_reports_the_end() {
    let mut script: Script<u32, String> = Script::new(vec![ready(1), not_ready(), fail("x")]);
    assert_eq!(script.len(), 3);
    assert_eq!(script.poll(), ready(1));
    assert_eq!(script.poll(), not_ready());
    assert_eq!(script.poll(), fail("x"));
    assert_eq!(script.len(), 0);
    assert_eq!(script.poll(), end());
    assert_eq!(script.poll(), end());
    assert_eq!(script.poll_count(), 5);
}

struct Countdown {
    left: u32,
    polls: u32,
}

impl Source for Countdown {
    type Item = u32;
    type Error = String;

    fn poll(&mut self) -> Poll<Option<u32>, String> {
        self.polls += 1;
        if self.left == 0 {
            Ok(Async::Ready(None))
        } else {
            self.left -= 1;
            Ok(Async::Ready(Some(self.left)))
        }
    }
}

#[test]
fn a_source_written_by_the_caller_is_merged_too() {
    let network: Script<&'static str, String> = Script::new(vec![ready("n")]);
    let api: Script<char, String> = Script::new(vec![ready('a')]);
    let mut agg = EventsAggregator::new(Countdown { left: 2, polls: 0 }, network, api);
    let first: Merged = Ok(Async::Ready(Some(Event::Timeout(1))));
    let second: Merged = Ok(Async::Ready(Some(Event::Timeout(0))));
    let ended: Merged = Ok(Async::Ready(None));
    assert_eq!(agg.poll(), first);
    assert_eq!(agg.poll(), second);
    assert_eq!(agg.poll(), ended);
    assert_eq!(agg.poll(), ended);
    assert_eq!(agg.timeout_source().polls, 3);
    assert_eq!(agg.network_source().poll_count(), 0);
}
