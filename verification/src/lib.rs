//! A cooperative effect scheduler core.
//!
//! A script runs as a set of resumable execution contexts. Each time a context
//! suspends it hands over an [`effect::Effect`]; a [`driver::Driver`] turns
//! that request into one asynchronous action and, once the action has been
//! carried out, into the value the context is resumed with. The library holds
//! the rules of that exchange as plain state machines:
//!
//! - [`effect`]: the requests a context can make and the values it gets back;
//! - [`marshal`]: the boundary between those values and script values;
//! - [`driver`]: the resume, classify, perform cycle of one task;
//! - [`job`]: the one-shot channel that carries a forked task's result;
//! - [`spawn`]: the names that pair each forked task with its job;
//! - [`occupancy`]: who is inside the shared interpreter;
//! - [`registry`]: how long a handle keeps its value alive;
//! - [`error`]: the failures and what each means for the process.
//!
//! The caller owns the interpreter, the executor, the timers and the network.

pub mod effect;
pub mod error;
pub mod marshal;
pub mod job;
pub mod occupancy;
pub mod registry;
pub mod driver;
pub mod spawn;
