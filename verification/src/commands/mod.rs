//! The commands that a user types.
pub mod keys;
