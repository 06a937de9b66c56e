//! Decision logic of a command-line client for the OBS websocket control API.
//!
//! The library never talks to the network itself. It decides: which handler a
//! command gets, which remote request comes next given the replies so far,
//! how a nested item name is addressed, when a connection attempt is retried,
//! and how connection parameters and duration arguments are read.

pub mod address;
pub mod command;
pub mod connection;
pub mod duration;
pub mod error;
pub mod handlers;
pub mod plan;
pub mod registry;
pub mod request;
pub mod target;
pub mod text;
