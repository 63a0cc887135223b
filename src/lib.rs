//! Connection-pairing and relay engine of a transparent TCP port forwarder.
//!
//! The library holds the decisions: how command-line values become a
//! configuration, what a relay pump does after each read or write, how a
//! session pairs its two pumps, and how the acceptor reacts to an accept.
//! Sockets, tasks and logging stay with the program that drives it.
pub mod acceptor;
pub mod config;
pub mod pump;
pub mod session;
