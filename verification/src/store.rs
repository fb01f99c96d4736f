//! The persistent key-value store: a map from string keys to string values
//! that lives in one JSON document. Every operation starts from the text of
//! the whole document and, where it changes anything, ends with the text of
//! the whole new document; the caller reads and writes the file.

use crate::error::StoreError;
use crate::json::{distinct_keys, entries_map, json_object, parse_object, render_object};
use vstd::pervasive::unreached;
use vstd::prelude::*;

verus! {

/// The contents of the store, held in memory.
pub struct Store {
    entries: Vec<(String, String)>,
}

impl View for Store {
    type V = Map<Seq<char>, Seq<char>>;

    closed spec fn view(&self) -> Map<Seq<char>, Seq<char>> {
        entries_map(self.entries@)
    }
}

/// An entry's key is in the map, with the entry's value, when keys are
/// distinct.
proof fn lemma_entry_is_mapped(entries: Seq<(String, String)>, i: int)
    requires
        distinct_keys(entries),
        0 <= i < entries.len(),
    ensures
        entries_map(entries).contains_key(entries[i].0@),
        entries_map(entries)[entries[i].0@] == entries[i].1@,
    decreases entries.len(),
{
    if i < entries.len() - 1 {
        let front = entries.drop_last();
        assert(front[i] == entries[i]);
        assert(distinct_keys(front)) by {
            assert forall|a: int, b: int| 0 <= a < b < front.len() implies (#[trigger] front[a]).0@
                != (#[trigger] front[b]).0@ by {
                assert(front[a] == entries[a]);
                assert(front[b] == entries[b]);
            }
        }
        lemma_entry_is_mapped(front, i);
    }
}

/// A key that no entry carries is not in the map.
proof fn lemma_missing_is_unmapped(entries: Seq<(String, String)>, key: Seq<char>)
    requires
        forall|i: int| 0 <= i < entries.len() ==> (#[trigger] entries[i]).0@ != key,
    ensures
        !entries_map(entries).contains_key(key),
    decreases entries.len(),
{
    if entries.len() > 0 {
        let front = entries.drop_last();
        assert forall|i: int| 0 <= i < front.len() implies (#[trigger] front[i]).0@ != key by {
            assert(front[i] == entries[i]);
        }
        lemma_missing_is_unmapped(front, key);
        assert(entries.last() == entries[entries.len() - 1]);
    }
}

/// Taking one entry out of a list with distinct keys takes its key out of
/// the map and leaves the keys distinct.
proof fn lemma_without_entry(entries: Seq<(String, String)>, i: int)
    requires
        distinct_keys(entries),
        0 <= i < entries.len(),
    ensures
        distinct_keys(entries.remove(i)),
        entries_map(entries.remove(i)) == entries_map(entries).remove(entries[i].0@),
    decreases entries.len(),
{
    let rest = entries.remove(i);
    assert forall|a: int, b: int| 0 <= a < b < rest.len() implies (#[trigger] rest[a]).0@ != (
    #[trigger] rest[b]).0@ by {
        let a0 = if a < i { a } else { a + 1 };
        let b0 = if b < i { b } else { b + 1 };
        assert(rest[a] == entries[a0]);
        assert(rest[b] == entries[b0]);
    }
    if i == entries.len() - 1 {
        assert(rest =~= entries.drop_last());
        assert forall|j: int| 0 <= j < rest.len() implies (#[trigger] rest[j]).0@
            != entries[i].0@ by {
            assert(rest[j] == entries[j]);
        }
        lemma_missing_is_unmapped(rest, entries[i].0@);
        assert(entries_map(rest) =~= entries_map(entries).remove(entries[i].0@));
    } else {
        let front = entries.drop_last();
        let last = entries.last();
        assert(front[i] == entries[i]);
        assert(distinct_keys(front)) by {
            assert forall|a: int, b: int| 0 <= a < b < front.len() implies (#[trigger] front[a]).0@
                != (#[trigger] front[b]).0@ by {
                assert(front[a] == entries[a]);
                assert(front[b] == entries[b]);
            }
        }
        lemma_without_entry(front, i);
        assert(rest.drop_last() =~= front.remove(i));
        assert(rest.last() == last);
        assert(last == entries[entries.len() - 1]);
        assert(last.0@ != entries[i].0@);
        assert(entries_map(rest) =~= entries_map(entries).remove(entries[i].0@));
    }
}

/// Adding an entry at the end sets its key in the map.
proof fn lemma_with_entry(entries: Seq<(String, String)>, entry: (String, String))
    ensures
        entries_map(entries.push(entry)) == entries_map(entries).insert(entry.0@, entry.1@),
{
    assert(entries.push(entry).drop_last() =~= entries);
}

impl Store {
    /// Every key is kept once. Every store that this module hands out is
    /// well formed.
    pub closed spec fn wf(&self) -> bool {
        distinct_keys(self.entries@)
    }

    /// A store that holds nothing.
    pub fn new() -> (store: Store)
        ensures
            store.wf(),
            store@ == Map::<Seq<char>, Seq<char>>::empty(),
    {
        Store { entries: Vec::new() }
    }

    /// Where `key` stands among the entries, if it does.
    fn position(&self, key: &str) -> (at: Option<usize>)
        ensures
            match at {
                Some(i) => i < self.entries.len() && self.entries[i as int].0@ == key@,
                None => forall|i: int|
                    0 <= i < self.entries.len() ==> (#[trigger] self.entries[i]).0@ != key@,
            },
    {
        let wanted = String::from_str(key);
        let mut i: usize = 0;
        while i < self.entries.len()
            invariant
                i <= self.entries.len(),
                wanted@ == key@,
                forall|j: int| 0 <= j < i ==> (#[trigger] self.entries[j]).0@ != key@,
            decreases self.entries.len() - i,
        {
            if self.entries[i].0 == wanted {
                return Some(i);
            }
            i += 1;
        }
        None
    }

    /// The value kept under `key`, if there is one.
    pub fn get(&self, key: &str) -> (value: Option<String>)
        requires
            self.wf(),
        ensures
            match value {
                Some(v) => self@.contains_key(key@) && v@ == self@[key@],
                None => !self@.contains_key(key@),
            },
    {
        match self.position(key) {
            Some(i) => {
                proof {
                    lemma_entry_is_mapped(self.entries@, i as int);
                }
                Some(self.entries[i].1.clone())
            },
            None => {
                proof {
                    lemma_missing_is_unmapped(self.entries@, key@);
                }
                None
            },
        }
    }

    /// Keeps `value` under `key`, in place of what was kept there before.
    pub fn insert(&mut self, key: &str, value: &str)
        requires
            old(self).wf(),
        ensures
            final(self).wf(),
            final(self)@ == old(self)@.insert(key@, value@),
    {
        self.remove(key);
        proof {
            assert(!self@.contains_key(key@));
        }
        let entry = (String::from_str(key), String::from_str(value));
        proof {
            lemma_with_entry(self.entries@, entry);
            let ghost before = self.entries@;
            assert forall|i: int| 0 <= i < before.len() implies (#[trigger] before[i]).0@
                != key@ by {
                if before[i].0@ == key@ {
                    lemma_entry_is_mapped(before, i);
                }
            }
            assert(distinct_keys(before.push(entry)));
            assert(old(self)@.remove(key@).insert(key@, value@) =~= old(self)@.insert(
                key@,
                value@,
            ));
        }
        self.entries.push(entry);
    }

    /// Drops what is kept under `key`, if anything is.
    pub fn remove(&mut self, key: &str)
        requires
            old(self).wf(),
        ensures
            final(self).wf(),
            final(self)@ == old(self)@.remove(key@),
    {
        match self.position(key) {
            Some(i) => {
                proof {
                    lemma_without_entry(self.entries@, i as int);
                }
                self.entries.remove(i);
            },
            None => {
                proof {
                    lemma_missing_is_unmapped(self.entries@, key@);
                    assert(self@.remove(key@) =~= self@);
                }
            },
        }
    }
}

/// The text of the backing file as a sequence of characters, or `None` where
/// the file could not be read.
pub open spec fn document(contents: Option<&str>) -> Option<Seq<char>> {
    match contents {
        Some(text) => Some(text@),
        None => None,
    }
}

/// What the store holds when its backing file has the given contents. A file
/// that cannot be read, or that is not a JSON object of strings, counts as an
/// empty store.
pub open spec fn held(document: Option<Seq<char>>) -> Map<Seq<char>, Seq<char>> {
    match document {
        Some(text) => match json_object(text) {
            Some(object) => object,
            None => Map::empty(),
        },
        None => Map::empty(),
    }
}

/// What a lookup of `key` gives on a store with the given contents.
pub open spec fn lookup(entries: Map<Seq<char>, Seq<char>>, key: Seq<char>) -> Option<Seq<char>> {
    if entries.contains_key(key) {
        Some(entries[key])
    } else {
        None
    }
}

/// The view of an optional string.
pub open spec fn text_of(value: Option<String>) -> Option<Seq<char>> {
    match value {
        Some(text) => Some(text@),
        None => None,
    }
}

/// Loads the store from the contents of its backing file. `contents` is
/// `None` where the file could not be read.
pub fn read_json_file(contents: Option<&str>) -> (loaded: Result<Store, StoreError>)
    ensures
        match loaded {
            Ok(store) => {
                &&& store.wf()
                &&& contents matches Some(text)
                &&& json_object(text@) == Some(store@)
            },
            Err(StoreError::Unreadable) => contents is None,
            Err(StoreError::Unparsable) => {
                &&& contents matches Some(text)
                &&& json_object(text@) is None
            },
        },
{
    match contents {
        None => Err(StoreError::Unreadable),
        Some(text) => match parse_object(text) {
            Ok(entries) => Ok(Store { entries }),
            Err(_) => Err(StoreError::Unparsable),
        },
    }
}

/// Renders the store as the text of its backing file, for the caller to
/// write: a text that reads back as `data`.
pub fn write_json_file(data: &Store) -> (text: String)
    ensures
        json_object(text@) == Some(data@),
{
    match render_object(&data.entries) {
        Ok(text) => text,
        Err(_) => unreached(),
    }
}

/// Loads the store, taking a file that cannot be used for an empty store.
fn load_or_empty(contents: Option<&str>) -> (store: Store)
    ensures
        store.wf(),
        store@ == held(document(contents)),
{
    match read_json_file(contents) {
        Ok(store) => store,
        Err(_) => Store::new(),
    }
}

/// The value kept under `key` in the backing file: `None` where the key is
/// absent, and also where the file cannot be read or parsed.
pub fn get_item(contents: Option<&str>, key: &str) -> (value: Option<String>)
    ensures
        text_of(value) == lookup(held(document(contents)), key@),
{
    match read_json_file(contents) {
        Ok(store) => store.get(key),
        Err(_) => None,
    }
}

/// The new text of the backing file once `value` is kept under `key`. A file
/// that cannot be used is started afresh. Nothing is changed until the caller
/// has written the text.
pub fn set_item(contents: Option<&str>, key: &str, value: &str) -> (text: String)
    ensures
        json_object(text@) == Some(held(document(contents)).insert(key@, value@)),
{
    let mut store = load_or_empty(contents);
    store.insert(key, value);
    write_json_file(&store)
}

/// The new text of the backing file once nothing is kept under `key`.
pub fn remove_item(contents: Option<&str>, key: &str) -> (text: String)
    ensures
        json_object(text@) == Some(held(document(contents)).remove(key@)),
{
    let mut store = load_or_empty(contents);
    store.remove(key);
    write_json_file(&store)
}

} // verus!
