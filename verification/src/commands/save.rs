//! Saving an entry: from its text in the clear to the file with
//! `secrets` encrypted.

use crate::codec::{from_str, json_parsed, json_pretty, to_string_pretty};
use crate::commands::{path_text, secrets_key, WriteFile};
use crate::document::{Document, Json};
use crate::error::{Error, ErrorView};
use crate::gpg;
use crate::json::{
    encrypted,
    file_key,
    json_encrypt_prop,
    json_encrypt_request,
    json_get_file,
    json_remove_file,
    origin,
    plain,
    stripped,
};
use vstd::prelude::*;

verus! {

/// Where the entry goes: the named file, or the file that the entry
/// itself names under `$file`.
#[derive(Debug)]
pub struct SaveOpts {
    pub file: Option<String>,
}

/// An entry that was read and waits for `gpg`: the document without its
/// origin, the file it is to be written to, and the run that encrypts
/// its `secrets`.
#[derive(Debug)]
pub struct Saving {
    pub document: Document,
    pub file: String,
    pub request: gpg::Invocation,
}

/// The file to write to: the one given, else the document's origin.
pub open spec fn destination(file: Option<Seq<char>>, document: Json) -> Result<
    Seq<char>,
    ErrorView,
> {
    match file {
        Some(path) => Ok(path),
        None => origin(document),
    }
}

/// The document without its origin; one that is no object is left as it
/// is.
pub open spec fn unnamed(document: Json) -> Json {
    match stripped(document) {
        Ok(rest) => rest,
        Err(_) => document,
    }
}

/// First half of saving. `input` is what reading standard input gave.
/// The text is read as a document, the destination is settled, `$file`
/// is taken out, and the run of `gpg` that encrypts `secrets` is made
/// ready. Nothing is to be written yet.
pub fn save(opts: SaveOpts, input: Result<String, std::io::Error>) -> (result: Result<
    Saving,
    Error,
>)
    ensures
        match input {
            Err(e) => result is Err && result->Err_0@ == ErrorView::Io(e),
            Ok(contents) => match json_parsed(contents@) {
                None => result is Err && result->Err_0@ == ErrorView::Json,
                Some(document) => match destination(path_text(opts.file), document) {
                    Err(e) => result is Err && result->Err_0@ == e,
                    Ok(path) => match plain(unnamed(document), secrets_key()) {
                        Err(e) => result is Err && result->Err_0@ == e,
                        Ok(text) => {
                            &&& result is Ok
                            &&& result->Ok_0.document@ == unnamed(document)
                            &&& result->Ok_0.file@ == path
                            &&& result->Ok_0.request.runs(gpg::encrypt_flags(), text)
                        },
                    },
                },
            },
        },
{
    let contents = match input {
        Ok(contents) => contents,
        Err(e) => {
            return Err(Error::Io(e));
        },
    };
    let mut document = match from_str(contents.as_str()) {
        Ok(document) => document,
        Err(e) => {
            return Err(Error::Json(e));
        },
    };
    let file = match opts.file {
        Some(path) => path,
        None => match json_get_file(&document) {
            Ok(path) => path,
            Err(e) => {
                return Err(e);
            },
        },
    };
    let _ = json_remove_file(&mut document);
    match json_encrypt_request(&document, "secrets") {
        Ok(request) => Ok(Saving { document, file, request }),
        Err(e) => Err(e),
    }
}

/// Second half of saving. `ran` is how the run that [`save`] made ready
/// ended. The armored message goes under `secrets`, and the document is
/// written out in indented form for the destination. A file to write
/// comes back only where every step before it went well.
pub fn save_finish(saving: Saving, ran: Result<gpg::Exit, std::io::Error>) -> (result: Result<
    WriteFile,
    Error,
>)
    ensures
        match encrypted(saving.document@, secrets_key(), gpg::collected(ran)) {
            Err(e) => result is Err && result->Err_0@ == e,
            Ok(sealed) => match json_pretty(sealed) {
                None => result is Err && result->Err_0@ == ErrorView::Json,
                Some(text) => {
                    &&& result is Ok
                    &&& result->Ok_0.file@ == saving.file@
                    &&& result->Ok_0.contents@ == text
                },
            },
        },
{
    let mut document = saving.document;
    let armored = gpg::collect(ran);
    match json_encrypt_prop(&mut document, "secrets", armored) {
        Ok(()) => {},
        Err(e) => {
            return Err(e);
        },
    }
    match to_string_pretty(&document) {
        Ok(contents) => Ok(WriteFile { file: saving.file, contents }),
        Err(e) => Err(Error::Json(e)),
    }
}

/// What saving writes is in the form kept on disk: it has no `$file`,
/// and its `secrets` is the string that `gpg` wrote.
pub proof fn saved_entry_is_sealed(document: Json, message: Seq<char>)
    requires
        encrypted(unnamed(document), secrets_key(), Ok(message)) is Ok,
    ensures
        !encrypted(unnamed(document), secrets_key(), Ok(message))->Ok_0.has(file_key()),
        encrypted(unnamed(document), secrets_key(), Ok(message))->Ok_0.field(secrets_key())
            == Json::String(message),
{
    reveal_strlit("$file");
    reveal_strlit("secrets");
    assert(file_key().len() != secrets_key().len());
}

} // verus!
