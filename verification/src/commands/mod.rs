//! The commands, each as the decisions it takes between the steps that
//! the caller performs: reading input, running `gpg`, writing a file.

pub mod init;
pub mod open;
pub mod query;
pub mod save;

use vstd::prelude::*;

verus! {

/// The key of the field that is kept encrypted on disk.
pub open spec fn secrets_key() -> Seq<char> {
    "secrets"@
}

/// A file to write, whole, in place of what was there.
#[derive(Debug)]
pub struct WriteFile {
    pub file: String,
    pub contents: String,
}

/// An optional path as an optional text.
pub open spec fn path_text(file: Option<String>) -> Option<Seq<char>> {
    match file {
        Some(path) => Some(path@),
        None => None,
    }
}

} // verus!
