//! Verified core of a remote-shell agent for Windows pre-installation
//! environments: wire types, command-line and environment assembly, the
//! one-shot executor's decisions, the pseudo-console session registry, the
//! attachment protocol, and the input handling of the terminal client and
//! the serial bridge.

pub mod types;
pub mod text;
pub mod command;
pub mod executor;
pub mod session;
pub mod attachment;
pub mod health;
pub mod client;
pub mod bridge;
