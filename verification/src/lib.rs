//! Supervisor for a single external command: a descriptor of what to run,
//! a start/stop protocol over a shared process slot, background reader and
//! poller step logic, and the termination primitive's command construction.

pub mod component;
pub mod config;
pub mod launcher;
pub mod shell;
pub mod status;
pub mod text;
pub mod workers;
