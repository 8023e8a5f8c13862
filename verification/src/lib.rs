//! Entry pipeline of a small secret store.
//!
//! An entry is a JSON document whose `secrets` field is kept on disk as an
//! ASCII-armored OpenPGP message. This library holds every decision of the
//! pipeline that opens and saves such entries; running `gpg` and touching
//! files is left to the caller, who hands the outcomes back in.

pub mod codec;
pub mod commands;
pub mod document;
pub mod error;
pub mod gpg;
pub mod json;

pub use crate::error::Error;
