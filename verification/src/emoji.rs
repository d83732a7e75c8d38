//! The lookup tables from alert names and from weather icon codes to emoji.
//!
//! A table is loaded once, from a TOML document of `name = "emoji"` lines,
//! and only read afterwards.

use std::collections::BTreeMap;
use vstd::hash_map::StringHashMap;
use vstd::prelude::*;

verus! {

/// The entries that `toml::from_str` reads from the document `raw` as a table
/// from strings to strings, each as the pair of its key and its value, in the
/// order of the keys; `None` where `raw` is no TOML document or holds a value
/// that is no string.
pub uninterp spec fn toml_string_table(raw: Seq<char>) -> Option<Seq<(Seq<char>, Seq<char>)>>;

/// `toml::from_str`, asked for a `BTreeMap<String, String>`: the entries of
/// the document `raw`, handed out in the order in which the map holds them,
/// or `None` where the crate reports an error. The crate's result is a
/// function of the document alone, which [`toml_string_table`] names.
#[verifier::external_body]
fn read_string_table(raw: &str) -> (entries: Option<Vec<(String, String)>>)
    ensures
        entries.deep_view() == toml_string_table(raw@),
{
    toml::from_str::<BTreeMap<String, String>>(raw).ok().map(|table| table.into_iter().collect())
}

/// The table that holds `entries`, a later entry replacing an earlier one
/// with the same key.
pub open spec fn table_of(entries: Seq<(Seq<char>, Seq<char>)>) -> Map<Seq<char>, Seq<char>>
    decreases entries.len(),
{
    if entries.len() == 0 {
        Map::empty()
    } else {
        table_of(entries.drop_last()).insert(entries.last().0, entries.last().1)
    }
}

/// No emoji stands in the table for the key that was looked up.
#[derive(Debug, Clone, Copy, PartialEq, Eq, Structural)]
pub struct LookupMiss;

/// A table from keys to emoji.
pub struct EmojiTable {
    entries: StringHashMap<String>,
}

impl View for EmojiTable {
    type V = Map<Seq<char>, Seq<char>>;

    /// The table as a map from each key to its emoji.
    closed spec fn view(&self) -> Map<Seq<char>, Seq<char>> {
        self.entries@.map_values(|emoji: String| emoji@)
    }
}

impl EmojiTable {
    /// The table without entries.
    pub fn new() -> (table: Self)
        ensures
            table@ == Map::<Seq<char>, Seq<char>>::empty(),
    {
        let table = Self { entries: StringHashMap::new() };
        proof {
            assert(table@ =~= Map::<Seq<char>, Seq<char>>::empty());
        }
        table
    }

    /// Sets the emoji of `key`.
    pub fn insert(&mut self, key: &str, emoji: &str)
        ensures
            final(self)@ == old(self)@.insert(key@, emoji@),
    {
        self.entries.insert(key.to_owned(), emoji.to_owned());
        proof {
            assert(final(self)@ =~= old(self)@.insert(key@, emoji@));
        }
    }

    /// The emoji of `key`, if the table holds one.
    pub fn get(&self, key: &str) -> (emoji: Option<&String>)
        ensures
            match emoji {
                Some(e) => self@.contains_key(key@) && e@ == self@[key@],
                None => !self@.contains_key(key@),
            },
    {
        self.entries.get(key)
    }

    /// The emoji of `key`; the error where the table holds none.
    pub fn lookup(&self, key: &str) -> (emoji: Result<String, LookupMiss>)
        ensures
            match emoji {
                Ok(e) => self@.contains_key(key@) && e@ == self@[key@],
                Err(_) => !self@.contains_key(key@),
            },
    {
        match self.entries.get(key) {
            Some(e) => Ok(e.clone()),
            None => Err(LookupMiss),
        }
    }

    /// The table that holds `entries`, each a key and its emoji; a later
    /// entry replaces an earlier one with the same key.
    pub fn from_entries(entries: &Vec<(String, String)>) -> (table: Self)
        ensures
            table@ == table_of(entries.deep_view()),
    {
        let mut table = Self::new();
        let mut i: usize = 0;
        while i < entries.len()
            invariant
                i <= entries.len(),
                table@ == table_of(entries.deep_view().take(i as int)),
            decreases entries.len() - i,
        {
            proof {
                let pairs = entries.deep_view();
                assert(pairs.take(i + 1).drop_last() =~= pairs.take(i as int));
                assert(pairs[i as int] == entries@[i as int].deep_view());
            }
            table.insert(entries[i].0.as_str(), entries[i].1.as_str());
            i += 1;
        }
        proof {
            let pairs = entries.deep_view();
            assert(pairs.take(pairs.len() as int) =~= pairs);
        }
        table
    }

    /// The table that the TOML document `raw` writes as lines of
    /// `key = "emoji"`; `None` where `raw` is no such document.
    pub fn from_toml(raw: &str) -> (table: Option<Self>)
        ensures
            match toml_string_table(raw@) {
                Some(entries) => table is Some && table.unwrap()@ == table_of(entries),
                None => table is None,
            },
    {
        match read_string_table(raw) {
            Some(entries) => Some(Self::from_entries(&entries)),
            None => None,
        }
    }
}

/// The two tables that the presenter reads.
pub struct EmojiTables {
    /// From the name of an alert to its emoji.
    pub alert: EmojiTable,
    /// From the code of a weather icon to its emoji.
    pub weather: EmojiTable,
}

} // verus!
