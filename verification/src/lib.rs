//! A credential-helper proxy for Git: the caller's request is turned into
//! the argument vector of a `git credential` helper that runs inside a WSL
//! distribution, and the decisions of the relay between the two processes
//! are taken by a small state machine.
//!
//! The crate performs no I/O. The program around it spawns the child,
//! copies the streams and reports every step to [`bridge::Bridge`].

pub mod args;
pub mod bridge;
