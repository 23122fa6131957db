//! Bridges push-based feeds (a chat timeline, a room list) onto a pull-based
//! command surface: one subscription slot per feed kind, blocking polls that
//! a teardown can always release through a cancel token, the client cell with
//! its login guard and teardown, the steps of a login that restores a
//! persisted session or authenticates afresh, and the parsing of feed
//! identifiers.
pub mod error;
pub mod patch;
pub mod feed_id;
pub mod cancel;
pub mod slot;
pub mod client;
pub mod login;
pub mod laws;
