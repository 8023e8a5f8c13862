//! Opening an entry: from its text to the document with `secrets` in the
//! clear.

use crate::codec::{from_str, json_parsed};
use crate::commands::{path_text, secrets_key};
use crate::document::{Document, Json};
use crate::error::{Error, ErrorView};
use crate::gpg;
use crate::json::{
    armored,
    attached,
    decrypted,
    file_key,
    json_add_file,
    json_decrypt_prop,
    json_decrypt_request,
};
use vstd::prelude::*;

verus! {

/// Where the entry comes from: the named file, or standard input where
/// none is named.
#[derive(Debug)]
pub struct OpenOpts {
    pub file: Option<String>,
}

/// An entry that was read and waits for `gpg`: the document, and the run
/// that decrypts its `secrets`.
#[derive(Debug)]
pub struct Opening {
    pub document: Document,
    pub request: gpg::Invocation,
}

/// The document that `contents` reads as, with `file` as its origin
/// where a file was named.
pub open spec fn loaded(file: Option<Seq<char>>, contents: Seq<char>) -> Result<Json, ErrorView> {
    match json_parsed(contents) {
        None => Err(ErrorView::Json),
        Some(document) => match file {
            Some(path) => attached(document, path),
            None => Ok(document),
        },
    }
}

/// First half of opening. `input` is what reading gave: the text of the
/// file that `opts` names, or of standard input where it names none. The
/// text is read as a document, the file's path is noted under `$file`,
/// and the run of `gpg` that decrypts `secrets` is made ready.
pub fn open(opts: OpenOpts, input: Result<String, std::io::Error>) -> (result: Result<
    Opening,
    Error,
>)
    ensures
        match input {
            Err(e) => result is Err && result->Err_0@ == ErrorView::Io(e),
            Ok(contents) => match loaded(path_text(opts.file), contents@) {
                Err(e) => result is Err && result->Err_0@ == e,
                Ok(document) => match armored(document, secrets_key()) {
                    Err(e) => result is Err && result->Err_0@ == e,
                    Ok(text) => {
                        &&& result is Ok
                        &&& result->Ok_0.document@ == document
                        &&& result->Ok_0.request.runs(gpg::decrypt_flags(), text)
                    },
                },
            },
        },
{
    let contents = match input {
        Ok(contents) => contents,
        Err(e) => {
            return Err(Error::Io(e));
        },
    };
    let mut document = match from_str(contents.as_str()) {
        Ok(document) => document,
        Err(e) => {
            return Err(Error::Json(e));
        },
    };
    if let Some(path) = opts.file {
        match json_add_file(&mut document, path) {
            Ok(()) => {},
            Err(e) => {
                return Err(e);
            },
        }
    }
    match json_decrypt_request(&document, "secrets") {
        Ok(request) => Ok(Opening { document, request }),
        Err(e) => Err(e),
    }
}

/// Second half of opening. `ran` is how the run that [`open`] made ready
/// ended. What `gpg` wrote is read as a document and put under
/// `secrets`.
pub fn open_finish(opening: Opening, ran: Result<gpg::Exit, std::io::Error>) -> (result: Result<
    Document,
    Error,
>)
    ensures
        match decrypted(opening.document@, secrets_key(), gpg::collected(ran)) {
            Ok(document) => result is Ok && result->Ok_0@ == document,
            Err(e) => result is Err && result->Err_0@ == e,
        },
{
    let mut document = opening.document;
    let plain = gpg::collect(ran);
    match json_decrypt_prop(&mut document, "secrets", plain) {
        Ok(()) => Ok(document),
        Err(e) => Err(e),
    }
}

/// Opening a file whose text reads as an object with a string under
/// `secrets` goes well as far as `gpg`; and where `gpg` then gives a
/// text that reads as a document, the entry has the file's path under
/// `$file` and that document under `secrets`.
pub proof fn opened_file_names_its_origin(file: Seq<char>, contents: Seq<char>, text: Seq<char>)
    requires
        json_parsed(contents) is Some,
        json_parsed(contents)->0.has(secrets_key()),
        json_parsed(contents)->0.field(secrets_key()) is String,
        json_parsed(text) is Some,
    ensures
        loaded(Some(file), contents) is Ok,
        armored(loaded(Some(file), contents)->Ok_0, secrets_key()) is Ok,
        decrypted(loaded(Some(file), contents)->Ok_0, secrets_key(), Ok(text)) is Ok,
        decrypted(loaded(Some(file), contents)->Ok_0, secrets_key(), Ok(text))->Ok_0.field(
            file_key(),
        ) == Json::String(file),
        decrypted(loaded(Some(file), contents)->Ok_0, secrets_key(), Ok(text))->Ok_0.field(
            secrets_key(),
        ) == json_parsed(text)->0,
{
    reveal_strlit("$file");
    reveal_strlit("secrets");
    assert(file_key().len() != secrets_key().len());
}

/// Opening standard input leaves `$file` as the text had it: absent, or
/// with the value it came with.
pub proof fn opened_input_keeps_its_origin(contents: Seq<char>, text: Seq<char>)
    requires
        loaded(None, contents) is Ok,
        decrypted(loaded(None, contents)->Ok_0, secrets_key(), Ok(text)) is Ok,
    ensures
        loaded(None, contents) == Ok::<Json, ErrorView>(json_parsed(contents)->0),
        decrypted(loaded(None, contents)->Ok_0, secrets_key(), Ok(text))->Ok_0.has(file_key())
            == json_parsed(contents)->0.has(file_key()),
        json_parsed(contents)->0.has(file_key()) ==> decrypted(
            loaded(None, contents)->Ok_0,
            secrets_key(),
            Ok(text),
        )->Ok_0.field(file_key()) == json_parsed(contents)->0.field(file_key()),
{
    reveal_strlit("$file");
    reveal_strlit("secrets");
    assert(file_key().len() != secrets_key().len());
}

} // verus!
