//! The operations on an entry's document.

use crate::codec::{from_str, json_parsed, json_text, to_string};
use crate::document::{find, lemma_object_view, remove_entry, set_entry, Document, Json};
use crate::error::{Error, ErrorView};
use crate::gpg;
use vstd::prelude::*;

verus! {

/// The key under which a document names the file it came from.
pub open spec fn file_key() -> Seq<char> {
    "$file"@
}

/// How a call that was to turn `before` into `expected` went: on success
/// the document says what was expected; on failure the error is the
/// expected one and the document is untouched.
pub open spec fn turned(
    before: Document,
    after: Document,
    result: Result<(), Error>,
    expected: Result<Json, ErrorView>,
) -> bool {
    match expected {
        Ok(document) => result is Ok && after@ == document,
        Err(e) => result is Err && result->Err_0@ == e && after == before,
    }
}

/// The document with `file` as its origin, whatever origin it had.
pub open spec fn attached(document: Json, file: Seq<char>) -> Result<Json, ErrorView> {
    if document is Object {
        Ok(document.with(file_key(), Json::String(file)))
    } else {
        Err(ErrorView::RequiresJsonObject)
    }
}

/// Sets `$file` to `file`, over any value that was there.
pub fn json_add_file(json: &mut Document, file: String) -> (result: Result<(), Error>)
    ensures
        turned(*old(json), *final(json), result, attached(old(json)@, file@)),
{
    match json {
        Document::Object(entries) => {
            proof {
                lemma_object_view(*entries);
            }
            set_entry(entries, "$file".to_owned(), Document::String(file));
            proof {
                lemma_object_view(*entries);
            }
            Ok(())
        },
        _ => Err(Error::RequiresJsonObject),
    }
}

/// The document without its origin.
pub open spec fn stripped(document: Json) -> Result<Json, ErrorView> {
    if document is Object {
        Ok(document.without(file_key()))
    } else {
        Err(ErrorView::RequiresJsonObject)
    }
}

/// Removes `$file`; a document that has none is left as it is.
pub fn json_remove_file(json: &mut Document) -> (result: Result<(), Error>)
    ensures
        turned(*old(json), *final(json), result, stripped(old(json)@)),
{
    match json {
        Document::Object(entries) => {
            proof {
                lemma_object_view(*entries);
            }
            remove_entry(entries, "$file");
            proof {
                lemma_object_view(*entries);
            }
            Ok(())
        },
        _ => Err(Error::RequiresJsonObject),
    }
}

/// A text or an error, as contracts speak of them.
pub open spec fn text_or(result: Result<String, Error>) -> Result<Seq<char>, ErrorView> {
    match result {
        Ok(text) => Ok(text@),
        Err(e) => Err(e@),
    }
}

/// The file that the document names as its origin.
pub open spec fn origin(document: Json) -> Result<Seq<char>, ErrorView> {
    if !(document is Object) {
        Err(ErrorView::RequiresJsonObject)
    } else if !document.has(file_key()) {
        Err(ErrorView::FileMissing)
    } else {
        match document.field(file_key()) {
            Json::String(file) => Ok(file),
            Json::Null => Err(ErrorView::FileMissing),
            _ => Err(ErrorView::FileMustBeString),
        }
    }
}

/// Reads `$file`. An absent or null `$file` is missing; any other value
/// that is no string is refused.
pub fn json_get_file(json: &Document) -> (result: Result<String, Error>)
    ensures
        text_or(result) == origin(json@),
{
    match json {
        Document::Object(entries) => {
            proof {
                lemma_object_view(*entries);
            }
            match find(entries, "$file") {
                Some(i) => match &entries[i].1 {
                    Document::String(file) => Ok(file.clone()),
                    Document::Null => Err(Error::FileMissing),
                    _ => Err(Error::FileMustBeString),
                },
                None => Err(Error::FileMissing),
            }
        },
        _ => Err(Error::RequiresJsonObject),
    }
}

/// A run of `gpg` or an error, as contracts speak of them: the run by the
/// text it feeds to `gpg` with `flags`.
pub open spec fn asks(
    result: Result<gpg::Invocation, Error>,
    flags: Seq<Seq<char>>,
    expected: Result<Seq<char>, ErrorView>,
) -> bool {
    match expected {
        Ok(input) => result is Ok && result->Ok_0.runs(flags, input),
        Err(e) => result is Err && result->Err_0@ == e,
    }
}

/// The armored text that the field holds and `gpg` is to decrypt.
pub open spec fn armored(document: Json, prop: Seq<char>) -> Result<Seq<char>, ErrorView> {
    if !(document is Object) {
        Err(ErrorView::RequiresJsonObject)
    } else if !document.has(prop) {
        Err(ErrorView::SecretsPropertyMissing)
    } else {
        match document.field(prop) {
            Json::String(text) => Ok(text),
            Json::Object(_) => Err(ErrorView::SecretsAlreadyDecrypted),
            _ => Err(ErrorView::SecretsMustBeString),
        }
    }
}

/// The document with the field decrypted, given what `gpg` made of the
/// field's text: the field then holds what that plain text reads as.
pub open spec fn decrypted(
    document: Json,
    prop: Seq<char>,
    plain: Result<Seq<char>, gpg::ErrorView>,
) -> Result<Json, ErrorView> {
    match armored(document, prop) {
        Err(e) => Err(e),
        Ok(_) => match plain {
            Err(e) => Err(ErrorView::Gpg(e)),
            Ok(text) => match json_parsed(text) {
                Some(value) => Ok(document.with(prop, value)),
                None => Err(ErrorView::Json),
            },
        },
    }
}

/// The run of `gpg` that decrypts the field: it is fed the string that
/// the field holds.
pub fn json_decrypt_request(json: &Document, prop: &str) -> (result: Result<
    gpg::Invocation,
    Error,
>)
    ensures
        asks(result, gpg::decrypt_flags(), armored(json@, prop@)),
{
    match json {
        Document::Object(entries) => {
            proof {
                lemma_object_view(*entries);
            }
            match find(entries, prop) {
                Some(i) => match &entries[i].1 {
                    Document::String(text) => Ok(gpg::decrypt(text.as_str())),
                    Document::Object(_) => Err(Error::SecretsAlreadyDecrypted),
                    _ => Err(Error::SecretsMustBeString),
                },
                None => Err(Error::SecretsPropertyMissing),
            }
        },
        _ => Err(Error::RequiresJsonObject),
    }
}

/// Puts in place of the field's armored string the document that `gpg`
/// decrypted it to. `plain` is what [`gpg::collect`] made of the run that
/// [`json_decrypt_request`] asked for.
pub fn json_decrypt_prop(json: &mut Document, prop: &str, plain: Result<String, gpg::Error>) -> (result:
    Result<(), Error>)
    ensures
        turned(
            *old(json),
            *final(json),
            result,
            decrypted(old(json)@, prop@, gpg::outcome(plain)),
        ),
{
    match json {
        Document::Object(entries) => {
            proof {
                lemma_object_view(*entries);
            }
            match find(entries, prop) {
                Some(i) => match &entries[i].1 {
                    Document::String(_) => match plain {
                        Ok(text) => match from_str(text.as_str()) {
                            Ok(value) => {
                                set_entry(entries, prop.to_owned(), value);
                                proof {
                                    lemma_object_view(*entries);
                                }
                                Ok(())
                            },
                            Err(e) => Err(Error::Json(e)),
                        },
                        Err(e) => Err(Error::Gpg(e)),
                    },
                    Document::Object(_) => Err(Error::SecretsAlreadyDecrypted),
                    _ => Err(Error::SecretsMustBeString),
                },
                None => Err(Error::SecretsPropertyMissing),
            }
        },
        _ => Err(Error::RequiresJsonObject),
    }
}

/// The text that `gpg` is to encrypt for the field: the field's value,
/// written out as compact JSON.
pub open spec fn plain(document: Json, prop: Seq<char>) -> Result<Seq<char>, ErrorView> {
    if !(document is Object) {
        Err(ErrorView::RequiresJsonObject)
    } else if !document.has(prop) {
        Err(ErrorView::SecretsPropertyMissing)
    } else {
        match json_text(document.field(prop)) {
            Some(text) => Ok(text),
            None => Err(ErrorView::Json),
        }
    }
}

/// The document with the field encrypted, given what `gpg` made of the
/// field's text: the field then holds the armored message as a string.
pub open spec fn encrypted(
    document: Json,
    prop: Seq<char>,
    armored: Result<Seq<char>, gpg::ErrorView>,
) -> Result<Json, ErrorView> {
    match plain(document, prop) {
        Err(e) => Err(e),
        Ok(_) => match armored {
            Err(e) => Err(ErrorView::Gpg(e)),
            Ok(text) => Ok(document.with(prop, Json::String(text))),
        },
    }
}

/// The run of `gpg` that encrypts the field: it is fed the field's value
/// as compact JSON, whatever kind of value that is.
pub fn json_encrypt_request(json: &Document, prop: &str) -> (result: Result<
    gpg::Invocation,
    Error,
>)
    ensures
        asks(result, gpg::encrypt_flags(), plain(json@, prop@)),
{
    match json {
        Document::Object(entries) => {
            proof {
                lemma_object_view(*entries);
            }
            match find(entries, prop) {
                Some(i) => match to_string(&entries[i].1) {
                    Ok(text) => Ok(gpg::encrypt(text.as_str())),
                    Err(e) => Err(Error::Json(e)),
                },
                None => Err(Error::SecretsPropertyMissing),
            }
        },
        _ => Err(Error::RequiresJsonObject),
    }
}

/// Puts in place of the field's value the armored message that `gpg`
/// encrypted it to. `armored` is what [`gpg::collect`] made of the run
/// that [`json_encrypt_request`] asked for.
pub fn json_encrypt_prop(json: &mut Document, prop: &str, armored: Result<String, gpg::Error>) -> (result:
    Result<(), Error>)
    ensures
        turned(
            *old(json),
            *final(json),
            result,
            encrypted(old(json)@, prop@, gpg::outcome(armored)),
        ),
{
    match json {
        Document::Object(entries) => {
            proof {
                lemma_object_view(*entries);
            }
            match find(entries, prop) {
                Some(i) => match to_string(&entries[i].1) {
                    Ok(_) => match armored {
                        Ok(text) => {
                            set_entry(entries, prop.to_owned(), Document::String(text));
                            proof {
                                lemma_object_view(*entries);
                            }
                            Ok(())
                        },
                        Err(e) => Err(Error::Gpg(e)),
                    },
                    Err(e) => Err(Error::Json(e)),
                },
                None => Err(Error::SecretsPropertyMissing),
            }
        },
        _ => Err(Error::RequiresJsonObject),
    }
}

/// The line that an armored OpenPGP message begins with.
pub open spec fn armor_header() -> Seq<char> {
    "-----BEGIN PGP MESSAGE-----"@
}

/// A document that is not an object is refused by every operation, with
/// the same error.
pub proof fn refuses_what_is_no_object(
    document: Json,
    file: Seq<char>,
    prop: Seq<char>,
    ran: Result<Seq<char>, gpg::ErrorView>,
)
    requires
        !(document is Object),
    ensures
        attached(document, file) == Err::<Json, ErrorView>(ErrorView::RequiresJsonObject),
        stripped(document) == Err::<Json, ErrorView>(ErrorView::RequiresJsonObject),
        origin(document) == Err::<Seq<char>, ErrorView>(ErrorView::RequiresJsonObject),
        armored(document, prop) == Err::<Seq<char>, ErrorView>(ErrorView::RequiresJsonObject),
        decrypted(document, prop, ran) == Err::<Json, ErrorView>(ErrorView::RequiresJsonObject),
        plain(document, prop) == Err::<Seq<char>, ErrorView>(ErrorView::RequiresJsonObject),
        encrypted(document, prop, ran) == Err::<Json, ErrorView>(ErrorView::RequiresJsonObject),
{
}

/// Attaching an origin to an object and stripping it again gives the
/// object without the origin it had before, if it had one.
pub proof fn strip_undoes_attach(document: Json, file: Seq<char>)
    requires
        document is Object,
    ensures
        attached(document, file) is Ok,
        stripped(attached(document, file)->Ok_0) == stripped(document),
{
    let entries = document->Object_0;
    assert(entries.insert(file_key(), Json::String(file)).remove(file_key()) =~= entries.remove(
        file_key(),
    ));
}

/// Encrypting a field always leaves a string in it: the message that
/// `gpg` wrote, whatever the field held before. Where that message
/// begins with the armor header, so does the field.
pub proof fn encrypted_field_holds_the_message(
    document: Json,
    prop: Seq<char>,
    message: Seq<char>,
)
    requires
        encrypted(document, prop, Ok(message)) is Ok,
    ensures
        encrypted(document, prop, Ok(message))->Ok_0.has(prop),
        encrypted(document, prop, Ok(message))->Ok_0.field(prop) == Json::String(message),
        armor_header().is_prefix_of(message) ==> armor_header().is_prefix_of(
            encrypted(document, prop, Ok(message))->Ok_0.field(prop)->String_0,
        ),
{
}

/// Encrypting a field and decrypting it again, where `gpg` gives back
/// the text that it was given, puts in the field what its value reads as
/// once it is written out and read again; the rest of the document stays.
pub proof fn decrypt_undoes_encrypt(document: Json, prop: Seq<char>, message: Seq<char>)
    requires
        plain(document, prop) is Ok,
    ensures
        encrypted(document, prop, Ok(message)) is Ok,
        decrypted(
            encrypted(document, prop, Ok(message))->Ok_0,
            prop,
            Ok(plain(document, prop)->Ok_0),
        ) == match json_parsed(json_text(document.field(prop))->0) {
            Some(value) => Ok::<Json, ErrorView>(document.with(prop, value)),
            None => Err::<Json, ErrorView>(ErrorView::Json),
        },
{
    let entries = document->Object_0;
    let text = json_text(document.field(prop))->0;
    match json_parsed(text) {
        Some(value) => {
            assert(entries.insert(prop, Json::String(message)).insert(prop, value)
                =~= entries.insert(prop, value));
        },
        None => {},
    }
}

} // verus!
