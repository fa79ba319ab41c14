//! The event-multiplexing core of a consensus node: three non-blocking
//! sources (timeouts, network events, control messages) merged into one
//! prioritised stream of events, and the ordering of scheduled timeouts.

pub mod aggregator;
pub mod event;
pub mod source;
pub mod timeout;

pub use crate::aggregator::EventsAggregator;
pub use crate::event::{Event, EventHandler};
pub use crate::source::{Script, Source};
pub use crate::timeout::TimeoutRequest;
