//! The document tree and the map that an object's entries stand for.

use vstd::prelude::*;

verus! {

/// `serde_json::Number`, carried through unread.
#[verifier::external_type_specification]
#[verifier::external_body]
pub struct ExNumber(serde_json::Number);

/// A JSON document. An object is a list of entries; where a key occurs
/// more than once, its last entry is the one that counts. `==` compares
/// two documents as they are laid out, entry by entry in order; what two
/// documents say is compared through their views.
#[derive(Debug, PartialEq)]
pub enum Document {
    Null,
    Bool(bool),
    Number(serde_json::Number),
    String(String),
    Array(Vec<Document>),
    Object(Vec<(String, Document)>),
}

/// What a document says, apart from how it is laid out in memory: an
/// object is the map from its keys to what they hold.
pub ghost enum Json {
    Null,
    Bool(bool),
    Number(serde_json::Number),
    String(Seq<char>),
    Array(Seq<Json>),
    Object(Map<Seq<char>, Json>),
}

impl Json {
    /// This is an object with an entry under `key`.
    pub open spec fn has(self, key: Seq<char>) -> bool {
        self is Object && self->Object_0.contains_key(key)
    }

    /// What an object holds under `key`.
    pub open spec fn field(self, key: Seq<char>) -> Json
        recommends
            self.has(key),
    {
        self->Object_0[key]
    }

    /// The object with `value` under `key`, in place of what was there.
    pub open spec fn with(self, key: Seq<char>, value: Json) -> Json
        recommends
            self is Object,
    {
        Json::Object(self->Object_0.insert(key, value))
    }

    /// The object with no entry under `key`.
    pub open spec fn without(self, key: Seq<char>) -> Json
        recommends
            self is Object,
    {
        Json::Object(self->Object_0.remove(key))
    }
}

/// The place of the last entry under `key`, or -1 where there is none.
pub open spec fn last_index<V>(entries: Seq<(String, V)>, key: Seq<char>) -> int
    decreases entries.len(),
{
    if entries.len() == 0 {
        -1
    } else if entries.last().0@ == key {
        entries.len() - 1
    } else {
        last_index(entries.drop_last(), key)
    }
}

impl View for Document {
    type V = Json;

    open spec fn view(&self) -> Json
        decreases self,
    {
        match self {
            Document::Null => Json::Null,
            Document::Bool(b) => Json::Bool(*b),
            Document::Number(n) => Json::Number(*n),
            Document::String(s) => Json::String(s@),
            Document::Array(items) => Json::Array(
                Seq::new(
                    items@.len(),
                    |i: int|
                        if 0 <= i < items@.len() {
                            items@[i].view()
                        } else {
                            Json::Null
                        },
                ),
            ),
            Document::Object(entries) => Json::Object(
                Map::new(
                    |key: Seq<char>| last_index(entries@, key) >= 0,
                    |key: Seq<char>|
                        if 0 <= last_index(entries@, key) < entries@.len() {
                            entries@[last_index(entries@, key)].1.view()
                        } else {
                            Json::Null
                        },
                ),
            ),
        }
    }
}

/// The map that a list of entries stands for.
pub open spec fn entries_map(entries: Seq<(String, Document)>) -> Map<Seq<char>, Json> {
    Map::new(
        |key: Seq<char>| last_index(entries, key) >= 0,
        |key: Seq<char>| entries[last_index(entries, key)].1@,
    )
}

/// `last_index` is the greatest place that holds the key, if any does.
pub proof fn lemma_last_index<V>(entries: Seq<(String, V)>, key: Seq<char>)
    ensures
        -1 <= last_index(entries, key) < entries.len(),
        last_index(entries, key) >= 0 ==> entries[last_index(entries, key)].0@ == key,
        forall|j: int| last_index(entries, key) < j < entries.len() ==> entries[j].0@ != key,
    decreases entries.len(),
{
    if entries.len() > 0 && entries.last().0@ != key {
        let front = entries.drop_last();
        lemma_last_index(front, key);
        assert forall|j: int| last_index(entries, key) < j < entries.len() implies entries[j].0@
            != key by {
            if j < front.len() {
                assert(entries[j] == front[j]);
            }
        }
    }
}

/// A place that holds the key and has no later one that does is `last_index`.
pub proof fn lemma_last_index_is<V>(entries: Seq<(String, V)>, key: Seq<char>, i: int)
    requires
        0 <= i < entries.len(),
        entries[i].0@ == key,
        forall|j: int| i < j < entries.len() ==> entries[j].0@ != key,
    ensures
        last_index(entries, key) == i,
{
    lemma_last_index(entries, key);
}

/// Where no place holds the key, `last_index` is -1.
pub proof fn lemma_last_index_none<V>(entries: Seq<(String, V)>, key: Seq<char>)
    requires
        forall|j: int| 0 <= j < entries.len() ==> entries[j].0@ != key,
    ensures
        last_index(entries, key) == -1,
{
    lemma_last_index(entries, key);
}

/// Two lists with the same keys in the same places have the same
/// `last_index`.
pub proof fn lemma_last_index_keys<V, W>(
    left: Seq<(String, V)>,
    right: Seq<(String, W)>,
    key: Seq<char>,
)
    requires
        left.len() == right.len(),
        forall|i: int| 0 <= i < left.len() ==> left[i].0@ == right[i].0@,
    ensures
        last_index(left, key) == last_index(right, key),
{
    lemma_last_index(left, key);
    let at = last_index(left, key);
    if at >= 0 {
        lemma_last_index_is(right, key, at);
    } else {
        lemma_last_index_none(right, key);
    }
}

/// An object's view is the map of its entries.
pub proof fn lemma_object_view(entries: Vec<(String, Document)>)
    ensures
        Document::Object(entries)@ == Json::Object(entries_map(entries@)),
{
    assert forall|key: Seq<char>| last_index(entries@, key) >= 0 implies 0 <= last_index(
        entries@,
        key,
    ) < entries@.len() by {
        lemma_last_index(entries@, key);
    }
    assert(Document::Object(entries)@->Object_0 =~= entries_map(entries@));
}

/// Adding an entry at the end puts its value under its key.
pub proof fn lemma_push(entries: Seq<(String, Document)>, key: String, value: Document)
    ensures
        entries_map(entries.push((key, value))) == entries_map(entries).insert(key@, value@),
{
    let longer = entries.push((key, value));
    assert(longer.drop_last() == entries);
    assert forall|k: Seq<char>| last_index(longer, k) >= 0 && k != key@ implies longer[last_index(
        longer,
        k,
    )] == entries[last_index(entries, k)] by {
        lemma_last_index(entries, k);
    }
    assert(entries_map(longer) =~= entries_map(entries).insert(key@, value@));
}

/// Writing over the last entry of a key puts the new value under it.
pub proof fn lemma_update(entries: Seq<(String, Document)>, i: int, key: String, value: Document)
    requires
        0 <= i < entries.len(),
        last_index(entries, key@) == i,
    ensures
        entries_map(entries.update(i, (key, value))) == entries_map(entries).insert(
            key@,
            value@,
        ),
{
    let changed = entries.update(i, (key, value));
    lemma_last_index(entries, key@);
    assert forall|k: Seq<char>| #[trigger] last_index(changed, k) == last_index(entries, k) by {
        lemma_last_index(entries, k);
        let at = last_index(entries, k);
        if at >= 0 {
            assert(changed[at].0@ == k);
            assert forall|j: int| at < j < changed.len() implies changed[j].0@ != k by {
                assert(entries[j].0@ != k);
            }
            lemma_last_index_is(changed, k, at);
        } else {
            assert forall|j: int| 0 <= j < changed.len() implies changed[j].0@ != k by {
                assert(entries[j].0@ != k);
            }
            lemma_last_index_none(changed, k);
        }
    }
    assert forall|k: Seq<char>| last_index(entries, k) >= 0 && k != key@ implies changed[last_index(
        changed,
        k,
    )] == entries[last_index(entries, k)] by {
        lemma_last_index(entries, k);
    }
    assert(changed[last_index(changed, key@)].1 == value);
    assert(entries_map(changed) =~= entries_map(entries).insert(key@, value@));
}

/// Taking out an entry changes nothing under the other keys.
pub proof fn lemma_remove(entries: Seq<(String, Document)>, i: int)
    requires
        0 <= i < entries.len(),
    ensures
        entries_map(entries.remove(i)).remove(entries[i].0@) == entries_map(entries).remove(
            entries[i].0@,
        ),
{
    let gone = entries[i].0@;
    let shorter = entries.remove(i);
    assert forall|k: Seq<char>| k != gone implies (last_index(entries, k) >= 0) == (
    #[trigger] last_index(shorter, k) >= 0) && (last_index(entries, k) >= 0
        ==> entries[last_index(entries, k)] == shorter[last_index(shorter, k)]) by {
        lemma_last_index(entries, k);
        let at = last_index(entries, k);
        if at >= 0 {
            let then = if at < i {
                at
            } else {
                at - 1
            };
            assert(shorter[then] == entries[at]);
            assert forall|j: int| then < j < shorter.len() implies shorter[j].0@ != k by {
                if j < i {
                    assert(shorter[j] == entries[j]);
                } else {
                    assert(shorter[j] == entries[j + 1]);
                }
            }
            lemma_last_index_is(shorter, k, then);
        } else {
            assert forall|j: int| 0 <= j < shorter.len() implies shorter[j].0@ != k by {
                if j < i {
                    assert(shorter[j] == entries[j]);
                } else {
                    assert(shorter[j] == entries[j + 1]);
                }
            }
            lemma_last_index_none(shorter, k);
        }
    }
    assert(entries_map(shorter).remove(gone) =~= entries_map(entries).remove(gone));
}

/// The place of the entry that counts for `key`, if the key is there.
pub fn find(entries: &Vec<(String, Document)>, key: &str) -> (at: Option<usize>)
    ensures
        match at {
            Some(i) => i < entries.len() && last_index(entries@, key@) == i,
            None => last_index(entries@, key@) == -1,
        },
{
    let wanted = key.to_owned();
    let mut i: usize = entries.len();
    while i > 0
        invariant
            i <= entries.len(),
            wanted@ == key@,
            forall|j: int| i <= j < entries.len() ==> entries@[j].0@ != key@,
        decreases i,
    {
        i = i - 1;
        if entries[i].0 == wanted {
            proof {
                lemma_last_index_is(entries@, key@, i as int);
            }
            return Some(i);
        }
    }
    proof {
        lemma_last_index_none(entries@, key@);
    }
    None
}

/// Puts `value` under `key`: over the entry that counts for the key, or
/// at the end where the key is new.
pub fn set_entry(entries: &mut Vec<(String, Document)>, key: String, value: Document)
    ensures
        entries_map(final(entries)@) == entries_map(old(entries)@).insert(key@, value@),
{
    match find(entries, key.as_str()) {
        Some(i) => {
            proof {
                lemma_update(entries@, i as int, key, value);
            }
            entries.set(i, (key, value));
        },
        None => {
            proof {
                lemma_push(entries@, key, value);
            }
            entries.push((key, value));
        },
    }
}

/// Takes out every entry under `key`.
pub fn remove_entry(entries: &mut Vec<(String, Document)>, key: &str)
    ensures
        entries_map(final(entries)@) == entries_map(old(entries)@).remove(key@),
{
    let wanted = key.to_owned();
    let mut i: usize = entries.len();
    while i > 0
        invariant
            i <= entries.len(),
            wanted@ == key@,
            forall|j: int| i <= j < entries.len() ==> entries@[j].0@ != key@,
            entries_map(entries@).remove(key@) == entries_map(old(entries)@).remove(key@),
        decreases i,
    {
        i = i - 1;
        if entries[i].0 == wanted {
            proof {
                lemma_remove(entries@, i as int);
            }
            let ghost before = entries@;
            entries.remove(i);
            assert forall|j: int| i <= j < entries.len() implies entries@[j].0@ != key@ by {
                assert(entries@[j] == before[j + 1]);
            }
        }
    }
    proof {
        lemma_last_index_none(entries@, key@);
        assert(entries_map(entries@) =~= entries_map(entries@).remove(key@));
    }
}

} // verus!
