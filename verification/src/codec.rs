//! Documents as text: reading and writing them with `serde_json`.
//!
//! What `serde_json` makes of a text, and the text it writes for a
//! document, are not spelled out here. Each is a name, and the functions
//! of this module say that they return what the name stands for. A
//! `serde_json::Value` is taken apart and put together one level at a
//! time, so that the walk over the tree is checked.

use crate::document::{
    entries_map,
    last_index,
    lemma_last_index,
    lemma_last_index_is,
    lemma_last_index_keys,
    lemma_object_view,
    lemma_push,
    Document,
    Json,
};
use crate::error::JsonError;
use vstd::prelude::*;

verus! {

/// `serde_json::Value`, held only between a call into `serde_json` and
/// the conversion to or from a [`Document`].
#[verifier::external_type_specification]
#[verifier::external_body]
pub struct ExRawValue(serde_json::Value);

/// `serde_json::Map`, the map inside a `serde_json::Value` that is an
/// object.
#[verifier::external_type_specification]
#[verifier::external_body]
#[verifier::reject_recursive_types(K)]
#[verifier::reject_recursive_types(V)]
pub struct ExRawMap<K, V>(serde_json::Map<K, V>);

/// The document that a `serde_json::Value` holds: variant for variant,
/// an array as the sequence of its items, an object as the map from its
/// keys to what they hold.
pub uninterp spec fn json_of(raw: serde_json::Value) -> Json;

/// What a `serde_json::Map` holds: each key with the document under it.
pub uninterp spec fn map_of(raw: serde_json::Map<String, serde_json::Value>) -> Map<
    Seq<char>,
    Json,
>;

/// The document that `serde_json::from_str` reads from a text, or `None`
/// where it rejects the text.
pub uninterp spec fn json_parsed(text: Seq<char>) -> Option<Json>;

/// The compact text that `serde_json::to_string` writes for a document,
/// or `None` where it fails.
pub uninterp spec fn json_text(document: Json) -> Option<Seq<char>>;

/// The indented text that `serde_json::to_string_pretty` writes for a
/// document, or `None` where it fails.
pub uninterp spec fn json_pretty(document: Json) -> Option<Seq<char>>;

/// One level of a `serde_json::Value`: its variant, with the items of an
/// array and the map of an object as `serde_json` holds them.
enum Layer {
    Null,
    Bool(bool),
    Number(serde_json::Number),
    String(String),
    Array(Vec<serde_json::Value>),
    Object(serde_json::Map<String, serde_json::Value>),
}

impl Layer {
    /// The document that this level holds.
    spec fn json(self) -> Json {
        match self {
            Layer::Null => Json::Null,
            Layer::Bool(b) => Json::Bool(b),
            Layer::Number(n) => Json::Number(n),
            Layer::String(s) => Json::String(s@),
            Layer::Array(items) => Json::Array(
                Seq::new(items@.len(), |i: int| json_of(items@[i])),
            ),
            Layer::Object(map) => Json::Object(map_of(map)),
        }
    }
}

/// No key occurs twice.
spec fn distinct_keys<V>(entries: Seq<(String, V)>) -> bool {
    forall|i: int, j: int| 0 <= i < j < entries.len() ==> entries[i].0@ != entries[j].0@
}

/// The map that a list of `serde_json` entries stands for.
spec fn raw_entries_map(entries: Seq<(String, serde_json::Value)>) -> Map<
    Seq<char>,
    Json,
> {
    Map::new(
        |key: Seq<char>| last_index(entries, key) >= 0,
        |key: Seq<char>| json_of(entries[last_index(entries, key)].1),
    )
}

/// `serde_json::from_str` at `serde_json::Value`. Whether it accepts the
/// text, and the document it reads, depend on the text alone. Its error
/// is copied into a [`JsonError`], of which nothing is claimed.
#[verifier::external_body]
fn raw_from_str(text: &str) -> (r: Result<serde_json::Value, JsonError>)
    ensures
        match r {
            Ok(raw) => json_parsed(text@) == Some(json_of(raw)),
            Err(_) => json_parsed(text@) is None,
        },
{
    match serde_json::from_str::<serde_json::Value>(text) {
        Ok(raw) => Ok(raw),
        Err(e) => Err(JsonError { message: e.to_string(), line: e.line(), column: e.column() }),
    }
}

/// `serde_json::to_string` at `serde_json::Value`. The map of an object
/// is a `BTreeMap` (the crate's `preserve_order` feature is off), so its
/// keys are written in sorted order: whether the call succeeds, and the
/// text, depend only on the document that the value holds.
#[verifier::external_body]
fn raw_to_string(raw: &serde_json::Value) -> (r: Result<String, JsonError>)
    ensures
        match r {
            Ok(text) => json_text(json_of(*raw)) == Some(text@),
            Err(_) => json_text(json_of(*raw)) is None,
        },
{
    match serde_json::to_string(raw) {
        Ok(text) => Ok(text),
        Err(e) => Err(JsonError { message: e.to_string(), line: e.line(), column: e.column() }),
    }
}

/// `serde_json::to_string_pretty` at `serde_json::Value`. As
/// `serde_json::to_string`, with the indented layout.
#[verifier::external_body]
fn raw_to_string_pretty(raw: &serde_json::Value) -> (r: Result<String, JsonError>)
    ensures
        match r {
            Ok(text) => json_pretty(json_of(*raw)) == Some(text@),
            Err(_) => json_pretty(json_of(*raw)) is None,
        },
{
    match serde_json::to_string_pretty(raw) {
        Ok(text) => Ok(text),
        Err(e) => Err(JsonError { message: e.to_string(), line: e.line(), column: e.column() }),
    }
}

/// Takes a `serde_json::Value` apart by its variant, moving what the
/// variant holds. The level holds the same document.
#[verifier::external_body]
fn unpack(raw: serde_json::Value) -> (layer: Layer)
    ensures
        layer.json() == json_of(raw),
{
    match raw {
        serde_json::Value::Null => Layer::Null,
        serde_json::Value::Bool(b) => Layer::Bool(b),
        serde_json::Value::Number(n) => Layer::Number(n),
        serde_json::Value::String(s) => Layer::String(s),
        serde_json::Value::Array(items) => Layer::Array(items),
        serde_json::Value::Object(map) => Layer::Object(map),
    }
}

/// Puts a `serde_json::Value` together from one level, moving what the
/// level holds into the variant of the same name. The value holds the
/// same document.
#[verifier::external_body]
fn pack(layer: Layer) -> (raw: serde_json::Value)
    ensures
        json_of(raw) == layer.json(),
{
    match layer {
        Layer::Null => serde_json::Value::Null,
        Layer::Bool(b) => serde_json::Value::Bool(b),
        Layer::Number(n) => serde_json::Value::Number(n),
        Layer::String(s) => serde_json::Value::String(s),
        Layer::Array(items) => serde_json::Value::Array(items),
        Layer::Object(map) => serde_json::Value::Object(map),
    }
}

/// `serde_json::Map::new`: a map that holds nothing.
#[verifier::external_body]
fn map_new() -> (object: serde_json::Map<String, serde_json::Value>)
    ensures
        forall|key: Seq<char>| !map_of(object).contains_key(key),
{
    serde_json::Map::new()
}

/// `serde_json::Map::insert`: puts the value under the key, in place of
/// what the key held.
#[verifier::external_body]
fn map_insert(
    object: &mut serde_json::Map<String, serde_json::Value>,
    key: String,
    item: serde_json::Value,
)
    ensures
        map_of(*final(object)) == map_of(*old(object)).insert(key@, json_of(item)),
{
    object.insert(key, item);
}

/// `serde_json::Map::into_iter`, collected into a list: every entry of
/// the map, each key once.
#[verifier::external_body]
fn map_into_entries(object: serde_json::Map<String, serde_json::Value>) -> (entries: Vec<
    (String, serde_json::Value),
>)
    ensures
        distinct_keys(entries@),
        raw_entries_map(entries@) == map_of(object),
{
    object.into_iter().collect()
}

/// `Clone::clone` of `serde_json::Number`: the same number.
pub assume_specification[ <serde_json::Number as Clone>::clone ](
    number: &serde_json::Number,
) -> (copy: serde_json::Number)
    ensures
        copy == *number,
;

/// A list of entries has finitely many keys.
proof fn lemma_raw_entries_finite(entries: Seq<(String, serde_json::Value)>)
    ensures
        raw_entries_map(entries).dom().finite(),
{
    let keys = entries.map_values(|entry: (String, serde_json::Value)| entry.0@);
    vstd::seq_lib::seq_to_set_is_finite(keys);
    assert forall|key: Seq<char>| raw_entries_map(entries).dom().contains(key) implies keys.to_set().contains(
        key,
    ) by {
        lemma_last_index(entries, key);
        assert(keys[last_index(entries, key)] == key);
    }
    vstd::set_lib::lemma_set_subset_finite(keys.to_set(), raw_entries_map(entries).dom());
}

/// Moves a `serde_json::Value` into a [`Document`] that holds the same
/// document; an object's entries come in the order in which its map
/// hands them out.
fn lift(raw: serde_json::Value) -> (document: Document)
    ensures
        document@ == json_of(raw),
    decreases json_of(raw),
{
    let ghost whole = json_of(raw);
    match unpack(raw) {
        Layer::Null => Document::Null,
        Layer::Bool(b) => Document::Bool(b),
        Layer::Number(n) => Document::Number(n),
        Layer::String(s) => Document::String(s),
        Layer::Array(items) => {
            let ghost all = items@;
            let mut out: Vec<Document> = Vec::new();
            for item in iter: items.into_iter()
                invariant
                    iter.seq() == all,
                    whole == json_of(raw),
                    whole == Json::Array(Seq::new(all.len(), |i: int| json_of(all[i]))),
                    out@.len() == iter.index(),
                    forall|j: int| 0 <= j < out@.len() ==> out@[j]@ == json_of(all[j]),
            {
                proof {
                    let at = iter.index();
                    assert(whole->Array_0[at] == json_of(item));
                    assert(decreases_to!(whole => whole->Array_0));
                    assert(decreases_to!(whole->Array_0 => whole->Array_0[at]));
                }
                out.push(lift(item));
            }
            let document = Document::Array(out);
            assert(document@->Array_0 =~= whole->Array_0);
            document
        },
        Layer::Object(map) => {
            let entries = map_into_entries(map);
            let ghost all = entries@;
            let mut out: Vec<(String, Document)> = Vec::new();
            for entry in iter: entries.into_iter()
                invariant
                    iter.seq() == all,
                    whole == json_of(raw),
                    distinct_keys(all),
                    whole == Json::Object(raw_entries_map(all)),
                    out@.len() == iter.index(),
                    forall|j: int|
                        0 <= j < out@.len() ==> out@[j].0@ == all[j].0@ && out@[j].1@ == json_of(
                            all[j].1,
                        ),
            {
                let (key, item) = entry;
                proof {
                    let at = iter.index();
                    lemma_last_index_is(all, key@, at);
                    lemma_raw_entries_finite(all);
                    assert(whole->Object_0.dom().contains(key@));
                    assert(whole->Object_0[key@] == json_of(item));
                    assert(decreases_to!(whole => whole->Object_0));
                    assert(decreases_to!(whole->Object_0 => whole->Object_0[key@]));
                }
                out.push((key, lift(item)));
            }
            proof {
                lemma_object_view(out);
                assert forall|key: Seq<char>| last_index(out@, key) == #[trigger] last_index(
                    all,
                    key,
                ) by {
                    lemma_last_index_keys(out@, all, key);
                }
                assert forall|key: Seq<char>| last_index(all, key) >= 0 implies out@[last_index(
                    out@,
                    key,
                )].1@ == json_of(all[last_index(all, key)].1) by {
                    lemma_last_index(all, key);
                }
                assert(entries_map(out@) =~= raw_entries_map(all));
            }
            Document::Object(out)
        },
    }
}

/// Copies a [`Document`] into a `serde_json::Value` that holds the same
/// document; an object's entries go into the map in their order, so a
/// later entry replaces an earlier one under the same key.
fn lower(document: &Document) -> (raw: serde_json::Value)
    ensures
        json_of(raw) == document@,
    decreases document,
{
    match document {
        Document::Null => pack(Layer::Null),
        Document::Bool(b) => pack(Layer::Bool(*b)),
        Document::Number(n) => pack(Layer::Number(n.clone())),
        Document::String(s) => pack(Layer::String(s.clone())),
        Document::Array(items) => {
            let mut out: Vec<serde_json::Value> = Vec::new();
            let mut i: usize = 0;
            while i < items.len()
                invariant
                    *document == Document::Array(*items),
                    i <= items.len(),
                    out@.len() == i,
                    forall|j: int| 0 <= j < i ==> json_of(out@[j]) == items@[j]@,
                decreases items.len() - i,
            {
                proof {
                    assert(decreases_to!(document => document->Array_0));
                    assert(decreases_to!(*items => items@));
                    assert(decreases_to!(items@ => items@[i as int]));
                }
                out.push(lower(&items[i]));
                i = i + 1;
            }
            let layer = Layer::Array(out);
            assert(layer.json()->Array_0 =~= document@->Array_0);
            pack(layer)
        },
        Document::Object(entries) => {
            let mut map = map_new();
            assert(map_of(map) =~= Map::empty());
            let mut i: usize = 0;
            assert(entries@.subrange(0, 0) =~= Seq::empty());
            assert(entries_map(entries@.subrange(0, 0)) =~= Map::empty());
            while i < entries.len()
                invariant
                    *document == Document::Object(*entries),
                    i <= entries.len(),
                    map_of(map) == entries_map(entries@.subrange(0, i as int)),
                decreases entries.len() - i,
            {
                proof {
                    assert(decreases_to!(document => document->Object_0));
                    assert(decreases_to!(*entries => entries@));
                    assert(decreases_to!(entries@ => entries@[i as int]));
                    assert(decreases_to!(entries@[i as int] => entries@[i as int].1));
                }
                let item = lower(&entries[i].1);
                proof {
                    lemma_push(entries@.subrange(0, i as int), entries@[i as int].0, entries@[i as int].1);
                    assert(entries@.subrange(0, i as int).push(entries@[i as int])
                        =~= entries@.subrange(0, i + 1));
                }
                map_insert(&mut map, entries[i].0.clone(), item);
                i = i + 1;
            }
            proof {
                assert(entries@.subrange(0, i as int) =~= entries@);
                lemma_object_view(*entries);
            }
            pack(Layer::Object(map))
        },
    }
}

/// Reads a document from JSON text.
pub fn from_str(text: &str) -> (r: Result<Document, JsonError>)
    ensures
        match r {
            Ok(document) => json_parsed(text@) == Some(document@),
            Err(_) => json_parsed(text@) is None,
        },
{
    match raw_from_str(text) {
        Ok(raw) => Ok(lift(raw)),
        Err(e) => Err(e),
    }
}

/// Writes a document as compact JSON text.
pub fn to_string(document: &Document) -> (r: Result<String, JsonError>)
    ensures
        match r {
            Ok(text) => json_text(document@) == Some(text@),
            Err(_) => json_text(document@) is None,
        },
{
    let raw = lower(document);
    raw_to_string(&raw)
}

/// Writes a document as indented JSON text.
pub fn to_string_pretty(document: &Document) -> (r: Result<String, JsonError>)
    ensures
        match r {
            Ok(text) => json_pretty(document@) == Some(text@),
            Err(_) => json_pretty(document@) is None,
        },
{
    let raw = lower(document);
    raw_to_string_pretty(&raw)
}

} // verus!
