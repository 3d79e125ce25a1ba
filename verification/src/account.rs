//! The account commands.

pub mod args;
