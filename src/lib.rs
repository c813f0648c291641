//! Declarative provisioning of a terminal-multiplexer workspace: a parsed
//! configuration is turned into a session model, then into the ordered list of
//! multiplexer operations that realises it, which a driver hands out one at a
//! time and stops at the first failure.

pub mod cli;
pub mod config;
pub mod tmux;
pub mod driver;
pub mod order;
pub mod workspace;
