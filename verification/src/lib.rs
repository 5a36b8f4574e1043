//! Supervision of a sidecar backend process.
//!
//! A desktop shell starts one long-running backend (a local HTTP server run by
//! the `uv` runtime) and relays its output to the user interface. This crate
//! holds the decisions of that supervisor as verified functions on plain
//! values: which directory the backend lives in, which files are copied and
//! which commands are started before it runs, and what is done with every
//! event the running process reports. Performing those effects is left to the
//! caller.

pub mod command;
pub mod environment;
pub mod error;
pub mod host;
pub mod lifecycle;
pub mod paths;
pub mod provision;
pub mod relay;
pub mod startup;
pub mod text;
