//! In-process health monitoring: publishers feed health signals into
//! components, and an aggregator combines component states into a single
//! application-wide severity.
//!
//! This crate holds the verified core of the pipeline: the data model
//! (severities, attributes, signals, reports), the per-component bookkeeping,
//! the debouncing state machine, and the decision logic of the component and
//! aggregator workers. The asynchronous plumbing that drives these decisions
//! (mailboxes, timers, broadcast slots) lives outside the verified library.

pub mod aggregator;
pub mod attribute;
pub mod attribute_string;
pub mod attribute_value;
pub mod component;
pub mod component_state;
pub mod debouncer;
pub mod filter;
pub mod health;
pub mod publisher;
pub mod report;
pub mod reports;
pub mod signal;
pub mod signals;
pub mod text;

pub use attribute::Attribute;
pub use attribute_string::AttributeString;
pub use attribute_value::AttributeValue;
pub use component::{ComponentMessage, ComponentWorker};
pub use component_state::ComponentState;
pub use debouncer::Debouncer;
pub use filter::Filter;
pub use health::Health;
pub use publisher::Publisher;
pub use report::Report;
pub use reports::Reports;
pub use signal::Signal;
pub use signals::Signals;
