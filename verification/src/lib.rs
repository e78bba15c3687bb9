//! A download orchestration engine around an external worker process:
//! a parser that turns the worker's mixed JSON and free-text output into
//! structured progress events, a runner model that aggregates a terminal
//! result, a cancellable session that multiplexes progress, cancellation
//! and completion into one ordered stream, and a facade that drives the
//! interface's download state machine.

pub mod facade;
pub mod fraction;
pub mod message;
pub mod progress;
pub mod session;
pub mod settings;
pub mod task;
pub mod text;
