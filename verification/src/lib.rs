//! The connection logic of a Matrix client for Weechat.
//!
//! A connection logs in, keeps a long-polling sync going, and hands every
//! event that the server sends to the thread that owns the room state. This
//! crate holds the decisions of that machinery as verified state machines and
//! plain functions. It performs no network or disk access itself: the caller
//! carries out each action that a machine asks for and reports the outcome
//! back as an event.
pub mod auth;
pub mod channel;
pub mod commands;
pub mod connection;
pub mod device_id;
pub mod dispatcher;
pub mod message;
pub mod request;
pub mod runs;
pub mod sync;
