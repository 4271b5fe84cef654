//! Lifecycle core of a container shim: it creates, starts, signals, waits on,
//! and tears down a single container instance, and guarantees that an exit
//! status is recorded exactly once however the process terminates.

pub mod cache;
mod clock;
pub mod exit_cell;
pub mod instance;
pub mod runtime_spec;
pub mod waiter;
