//! Setting up a directory: the configuration file that `init` writes.

use crate::codec::{json_pretty, to_string_pretty};
use crate::commands::WriteFile;
use crate::document::{entries_map, set_entry, lemma_object_view, Document, Json};
use crate::error::{Error, ErrorView};
use vstd::prelude::*;

verus! {

/// The configuration of a directory of entries. Its one option is kept
/// for later use and read by nothing.
#[derive(Debug)]
pub struct ConfigFile {
    pub save_other_gpg_recipients: Option<Vec<String>>,
}

/// The name of the configuration file, in the working directory.
pub open spec fn config_file() -> Seq<char> {
    "jpas.json"@
}

/// The name of the configuration file, for the caller who looks whether
/// it exists.
pub fn config_file_name() -> (name: &'static str)
    ensures
        name@ == config_file(),
{
    "jpas.json"
}

impl ConfigFile {
    /// The configuration as a document: an object with the one key
    /// `save_other_gpg_recipients`, which holds null or the list of
    /// recipients as strings.
    pub open spec fn json(&self) -> Json {
        Json::Object(
            Map::empty().insert(
                "save_other_gpg_recipients"@,
                match self.save_other_gpg_recipients {
                    None => Json::Null,
                    Some(list) => Json::Array(
                        Seq::new(list@.len(), |i: int| Json::String(list@[i]@)),
                    ),
                },
            ),
        )
    }

    /// Lays the configuration out as a document.
    pub fn to_document(&self) -> (document: Document)
        ensures
            document@ == self.json(),
    {
        let recipients = match &self.save_other_gpg_recipients {
            None => Document::Null,
            Some(list) => {
                let mut items: Vec<Document> = Vec::new();
                let mut i: usize = 0;
                while i < list.len()
                    invariant
                        i <= list.len(),
                        items@.len() == i,
                        forall|j: int| 0 <= j < i ==> items@[j]@ == Json::String(list@[j]@),
                    decreases list.len() - i,
                {
                    items.push(Document::String(list[i].clone()));
                    i = i + 1;
                }
                let array = Document::Array(items);
                assert(array@->Array_0 =~= Seq::new(
                    list@.len(),
                    |i: int| Json::String(list@[i]@),
                ));
                array
            },
        };
        let mut entries: Vec<(String, Document)> = Vec::new();
        assert(entries_map(entries@) =~= Map::empty());
        set_entry(&mut entries, "save_other_gpg_recipients".to_owned(), recipients);
        proof {
            lemma_object_view(entries);
        }
        Document::Object(entries)
    }
}

/// The configuration that `init` starts a directory with: no recipients.
pub open spec fn first_config() -> Json {
    (ConfigFile { save_other_gpg_recipients: None }).json()
}

/// Decides what `init` does. `exists` says whether the configuration
/// file is there already: if so nothing is to be written; if not, the
/// file to write holds a configuration with no recipients, in indented
/// form.
pub fn init(exists: bool) -> (result: Result<WriteFile, Error>)
    ensures
        match (exists, json_pretty(first_config())) {
            (true, _) => result is Err && result->Err_0@ == ErrorView::InitAlreadyDone,
            (false, None) => result is Err && result->Err_0@ == ErrorView::Json,
            (false, Some(text)) => {
                &&& result is Ok
                &&& result->Ok_0.file@ == config_file()
                &&& result->Ok_0.contents@ == text
            },
        },
{
    if exists {
        return Err(Error::InitAlreadyDone);
    }
    let config = ConfigFile { save_other_gpg_recipients: None };
    match to_string_pretty(&config.to_document()) {
        Ok(contents) => Ok(WriteFile { file: config_file_name().to_owned(), contents }),
        Err(e) => Err(Error::Json(e)),
    }
}

} // verus!
