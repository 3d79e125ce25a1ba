//! Folders as the backend reports them, and the commands that act on them.

use vstd::prelude::*;

pub mod args;
pub mod handlers;
pub mod sync;
pub mod table;

verus! {

/// A folder of a mail account.
#[derive(Clone, Debug)]
pub struct Folder {
    pub name: String,
    pub delim: String,
    pub desc: String,
}

} // verus!
