//! The one error type that the pipeline hands up.

use crate::gpg;
use vstd::prelude::*;

verus! {

/// What `serde_json` said when it could not read a text or write a
/// document: its message, and the line and column it stopped at (both
/// zero where it names no place).
#[derive(Debug)]
pub struct JsonError {
    pub message: String,
    pub line: usize,
    pub column: usize,
}

/// Everything that can stop the pipeline.
#[derive(Debug)]
pub enum Error {
    /// A text could not be read as a document, or a document not written
    /// out as text.
    Json(JsonError),
    /// A file or a stream could not be read or written.
    Io(std::io::Error),
    /// The document names no file: `$file` is absent or null.
    FileMissing,
    /// `$file` holds something other than a string.
    FileMustBeString,
    /// The document is not an object.
    RequiresJsonObject,
    /// The field to encrypt or decrypt is absent.
    SecretsPropertyMissing,
    /// The field to decrypt holds neither a string nor an object.
    SecretsMustBeString,
    /// The field to decrypt holds an object: it is decrypted already.
    SecretsAlreadyDecrypted,
    /// `gpg` failed.
    Gpg(gpg::Error),
    /// The configuration file exists already.
    InitAlreadyDone,
    /// The command has no behaviour yet.
    Unimplemented,
}

/// An [`Error`] as contracts speak of it: without what `serde_json` said,
/// and with the message of `gpg` as a text.
pub ghost enum ErrorView {
    Json,
    Io(std::io::Error),
    FileMissing,
    FileMustBeString,
    RequiresJsonObject,
    SecretsPropertyMissing,
    SecretsMustBeString,
    SecretsAlreadyDecrypted,
    Gpg(gpg::ErrorView),
    InitAlreadyDone,
    Unimplemented,
}

impl View for Error {
    type V = ErrorView;

    open spec fn view(&self) -> ErrorView {
        match self {
            Error::Json(_) => ErrorView::Json,
            Error::Io(e) => ErrorView::Io(*e),
            Error::FileMissing => ErrorView::FileMissing,
            Error::FileMustBeString => ErrorView::FileMustBeString,
            Error::RequiresJsonObject => ErrorView::RequiresJsonObject,
            Error::SecretsPropertyMissing => ErrorView::SecretsPropertyMissing,
            Error::SecretsMustBeString => ErrorView::SecretsMustBeString,
            Error::SecretsAlreadyDecrypted => ErrorView::SecretsAlreadyDecrypted,
            Error::Gpg(e) => ErrorView::Gpg(e@),
            Error::InitAlreadyDone => ErrorView::InitAlreadyDone,
            Error::Unimplemented => ErrorView::Unimplemented,
        }
    }
}

} // verus!
