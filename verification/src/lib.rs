//! The logic of a Model Context Protocol server for the Matrix chat protocol.
//!
//! [`server::MatrixServer`] takes the arguments of each tool and builds its answer;
//! [`manager::MatrixManager`] holds the settings and what is remembered between calls, and decides
//! what is asked of the Matrix client. Operations that take several steps are state machines: a
//! driver performs each step and reports back how it went. What the operations are for, as seen from
//! outside, stands in [`laws`].

pub mod account;
pub mod args;
pub mod backup;
pub mod events;
pub mod ids;
pub mod json;
pub mod laws;
pub mod manager;
pub mod media;
pub mod outcome;
pub mod path;
pub mod reading;
pub mod restore;
pub mod rooms;
pub mod sending;
pub mod server;
pub mod session;
pub mod sync;
pub mod text;
pub mod verification;
