//! Command layer of a mail client: capability resolution, folder
//! synchronisation scope, folder commands and the attachment download
//! pipeline, each stated as a contract over plain values.

pub mod account;
pub mod attachment;
pub mod backend;
pub mod cli;
pub mod command;
pub mod folder;
pub mod text;
