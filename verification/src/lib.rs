//! Battery and wearing status of Bluetooth earbuds and other peripherals, gathered
//! from three independent sources and merged into one snapshot.
//!
//! The crate holds the decisions of the status daemon: how frames of the earbud
//! protocol are recognised and read, how each source folds what it learned into
//! the shared snapshot, and when a change is worth announcing. Sockets, timers and
//! the message bus live with the caller, which feeds events in and carries the
//! answers out.

pub mod airpods;
pub mod airpods_consts;
pub mod bluetooth;
pub mod config;
pub mod packets;
pub mod pbp;
pub mod pbp_client;
pub mod status;
pub mod store;
