//! A minimal platform-abstraction layer for scheduling asynchronous work and
//! measuring time, without committing to one execution environment.
//!
//! The heart of the crate is the [`Runtime`](runtime::Runtime) capability
//! contract: the operations a host scheduler/clock must provide, together
//! with an adapter that lets a shared reference to an implementation satisfy
//! the same contract. A deterministic implementation with an explicitly
//! driven clock, [`SimRuntime`](sim::SimRuntime), is provided for test
//! environments.

pub mod duration;
pub mod laws;
pub mod runtime;
pub mod sim;
