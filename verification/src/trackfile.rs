//! The ledger of the links this tool made: for each destination, the source it points to.

use std::collections::BTreeMap;

use vstd::prelude::*;
use vstd::string::*;

use crate::strmap::{distinct_keys, pairs_insert, pairs_map, pairs_remove, Pair, StringMap};
use crate::text::{trim, trimmed};

verus! {

/// The error of `toml::from_str`.
#[verifier::external_type_specification]
#[verifier::external_body]
pub struct ExTomlDeError(toml::de::Error);

/// The error of `toml::to_string_pretty`.
#[verifier::external_type_specification]
#[verifier::external_body]
pub struct ExTomlSerError(toml::ser::Error);

/// The table of strings that `toml::from_str` reads from a document, as
/// pairs of key and value; `None` where it reads none.
pub uninterp spec fn toml_table(text: Seq<char>) -> Option<Seq<Pair>>;

/// The document that `toml::to_string_pretty` writes for a table of
/// strings given as pairs of key and value; `None` where it writes none.
pub uninterp spec fn toml_document(pairs: Seq<Pair>) -> Option<Seq<char>>;

/// The pairs of character sequences of a sequence of pairs of strings.
pub open spec fn pair_texts(v: Seq<(String, String)>) -> Seq<Pair> {
    Seq::new(v.len(), |i: int| (v[i].0@, v[i].1@))
}

/// `pairs` bound one after the other, from the first, in `start`.
pub open spec fn bind_all(start: Seq<Pair>, pairs: Seq<Pair>) -> Seq<Pair>
    decreases pairs.len(),
{
    if pairs.len() == 0 {
        start
    } else {
        pairs_insert(bind_all(start, pairs.drop_last()), pairs.last().0, pairs.last().1)
    }
}

/// Calls `toml::from_str` to read `text` as a TOML document that is one
/// table from strings to strings. The result is the table's pairs; which
/// they are, and whether there are any, is what `toml_table` names.
#[verifier::external_body]
fn read_table(text: &str) -> (r: Result<Vec<(String, String)>, toml::de::Error>)
    ensures
        match r {
            Ok(v) => toml_table(text@) == Some(pair_texts(v@)),
            Err(_) => toml_table(text@) is None,
        },
{
    toml::from_str::<BTreeMap<String, String>>(text).map(|m| m.into_iter().collect())
}

/// Calls `toml::to_string_pretty` to write a table from strings to strings
/// as a TOML document. The table is given as its pairs, no key twice.
/// Which document is written, and whether there is one, is what
/// `toml_document` names.
#[verifier::external_body]
fn write_table(pairs: &Vec<(String, String)>) -> (r: Result<String, toml::ser::Error>)
    requires
        distinct_keys(pair_texts(pairs@)),
    ensures
        match r {
            Ok(text) => toml_document(pair_texts(pairs@)) == Some(text@),
            Err(_) => toml_document(pair_texts(pairs@)) is None,
        },
{
    let table: BTreeMap<String, String> = pairs.iter().cloned().collect();
    toml::to_string_pretty(&table)
}

/// The message of an error of `toml::from_str`, as its `Display` gives it.
#[verifier::external_body]
fn read_error_message(e: &toml::de::Error) -> (r: String) {
    e.to_string()
}

/// The message of an error of `toml::to_string_pretty`, as its `Display` gives it.
#[verifier::external_body]
fn write_error_message(e: &toml::ser::Error) -> (r: String) {
    e.to_string()
}

/// Why a ledger could not be read or written.
#[derive(Debug, Clone, PartialEq, Eq)]
pub enum TrackfileError {
    /// The text is no table from strings to strings; the message says why.
    Parse(String),
    /// The ledger could not be written as text; the message says why.
    Serialize(String),
}

impl TrackfileError {
    /// The message of the error, with what was being done in front.
    pub fn message(&self) -> (r: String)
        ensures
            match self {
                TrackfileError::Parse(m) => r@ == "Failed to parse trackfile: "@ + m@,
                TrackfileError::Serialize(m) => r@ == "Failed to serialize trackfile content: "@
                    + m@,
            },
    {
        match self {
            TrackfileError::Parse(m) => {
                let mut s = "Failed to parse trackfile: ".to_owned();
                s.append(m.as_str());
                s
            },
            TrackfileError::Serialize(m) => {
                let mut s = "Failed to serialize trackfile content: ".to_owned();
                s.append(m.as_str());
                s
            },
        }
    }
}

/// The ledger: destinations with their sources, in the order in which the
/// destinations were first recorded, and whether it was changed since it
/// was read or written.
#[derive(Debug)]
pub struct Trackfile {
    content: StringMap,
    dirty: bool,
}

impl View for Trackfile {
    type V = Map<Seq<char>, Seq<char>>;

    /// The map from destination to source.
    open spec fn view(&self) -> Map<Seq<char>, Seq<char>> {
        pairs_map(self.content())
    }
}

impl Clone for Trackfile {
    fn clone(&self) -> (r: Self)
        ensures
            r.content() == self.content(),
            r.dirty() == self.dirty(),
    {
        Trackfile { content: self.content.clone(), dirty: self.dirty }
    }
}

impl Default for Trackfile {
    fn default() -> (r: Self)
        ensures
            r.wf(),
            r.content() == Seq::<Pair>::empty(),
            !r.dirty(),
    {
        Trackfile::new()
    }
}

impl Trackfile {
    /// The recorded pairs of destination and source, in order.
    pub closed spec fn content(&self) -> Seq<Pair> {
        self.content.pairs()
    }

    /// Whether the ledger was changed since it was read or written.
    pub closed spec fn dirty(&self) -> bool {
        self.dirty
    }

    /// The invariant of the type: no destination is recorded twice.
    pub open spec fn wf(&self) -> bool {
        distinct_keys(self.content())
    }

    /// An empty, unchanged ledger.
    pub fn new() -> (r: Self)
        ensures
            r.wf(),
            r.content() == Seq::<Pair>::empty(),
            !r.dirty(),
    {
        Trackfile { content: StringMap::new(), dirty: false }
    }

    /// The unchanged ledger that holds `entries`, recorded one after the
    /// other. Where a destination comes twice, its later source stands at
    /// its first place.
    pub fn from_entries(entries: Vec<(String, String)>) -> (r: Self)
        ensures
            r.wf(),
            r.content() == bind_all(Seq::empty(), pair_texts(entries@)),
            !r.dirty(),
    {
        let mut content = StringMap::new();
        let mut i: usize = 0;
        while i < entries.len()
            invariant
                i <= entries@.len(),
                content.wf(),
                content.pairs() == bind_all(Seq::empty(), pair_texts(entries@).take(i as int)),
            decreases entries@.len() - i,
        {
            proof {
                let upto = pair_texts(entries@).take(i + 1);
                assert(upto.drop_last() =~= pair_texts(entries@).take(i as int));
                assert(upto.last() == (entries@[i as int].0@, entries@[i as int].1@));
            }
            content.insert(entries[i].0.clone(), entries[i].1.clone());
            i += 1;
        }
        assert(pair_texts(entries@).take(i as int) =~= pair_texts(entries@));
        Trackfile { content, dirty: false }
    }

    /// Reads a ledger from the text of its file. A text of blanks only is
    /// an empty ledger. Any other text is read as a TOML table from
    /// destination to source, and is refused where it is none.
    pub fn load(text: &str) -> (r: Result<Self, TrackfileError>)
        ensures
            r matches Ok(t) ==> t.wf() && !t.dirty(),
            trimmed(text@).len() == 0 ==> (r matches Ok(t) && t.content() == Seq::<Pair>::empty()),
            trimmed(text@).len() > 0 ==> match toml_table(text@) {
                Some(pairs) => r matches Ok(t) && t.content() == bind_all(Seq::empty(), pairs),
                None => r matches Err(TrackfileError::Parse(_)),
            },
    {
        if trim(text).as_str().unicode_len() == 0 {
            return Ok(Trackfile::new());
        }
        match read_table(text) {
            Ok(entries) => Ok(Trackfile::from_entries(entries)),
            Err(e) => Err(TrackfileError::Parse(read_error_message(&e))),
        }
    }

    /// The text to write to the ledger's file: `None` where the ledger is
    /// unchanged and nothing needs writing, else the ledger as a TOML
    /// table. The ledger stays marked as changed until `saved` is called.
    pub fn save(&self) -> (r: Result<Option<String>, TrackfileError>)
        requires
            self.wf(),
        ensures
            !self.dirty() ==> r == Ok::<Option<String>, TrackfileError>(None),
            self.dirty() ==> match toml_document(self.content()) {
                Some(text) => r matches Ok(Some(t)) && t@ == text,
                None => r matches Err(TrackfileError::Serialize(_)),
            },
    {
        if !self.dirty {
            return Ok(None);
        }
        let entries = self.iter();
        match write_table(&entries) {
            Ok(text) => Ok(Some(text)),
            Err(e) => Err(TrackfileError::Serialize(write_error_message(&e))),
        }
    }

    /// Marks the ledger as unchanged, once its text was written.
    pub fn saved(&mut self)
        ensures
            final(self).content() == old(self).content(),
            !final(self).dirty(),
    {
        self.dirty = false;
    }

    /// Records that `dest` points to `source`, and marks the ledger as changed.
    pub fn insert(&mut self, dest: String, source: String)
        requires
            old(self).wf(),
        ensures
            final(self).wf(),
            final(self).content() == pairs_insert(old(self).content(), dest@, source@),
            final(self)@ == old(self)@.insert(dest@, source@),
            final(self).dirty(),
    {
        self.content.insert(dest, source);
        self.dirty = true;
    }

    /// Takes `dest` out of the ledger and returns the source recorded for
    /// it. The ledger is marked as changed where `dest` was recorded.
    pub fn remove(&mut self, dest: &str) -> (r: Option<String>)
        requires
            old(self).wf(),
        ensures
            final(self).wf(),
            final(self).content() == pairs_remove(old(self).content(), dest@),
            final(self)@ == old(self)@.remove(dest@),
            r is Some <==> old(self)@.contains_key(dest@),
            r matches Some(source) ==> source@ == old(self)@[dest@],
            final(self).dirty() == (old(self).dirty() || r is Some),
    {
        let removed = self.content.remove(dest);
        if removed.is_some() {
            self.dirty = true;
        }
        removed
    }

    /// The source recorded for `dest`, if any.
    pub fn get_source(&self, dest: &str) -> (r: Option<&String>)
        requires
            self.wf(),
        ensures
            r is Some <==> self@.contains_key(dest@),
            r matches Some(source) ==> source@ == self@[dest@],
    {
        self.content.get(dest)
    }

    /// Whether `dest` is recorded.
    pub fn contains_dest(&self, dest: &str) -> (r: bool)
        requires
            self.wf(),
        ensures
            r == self@.contains_key(dest@),
    {
        self.content.contains_key(dest)
    }

    /// The recorded pairs of destination and source, in order.
    pub fn iter(&self) -> (r: Vec<(String, String)>)
        ensures
            pair_texts(r@) == self.content(),
    {
        let mut out: Vec<(String, String)> = Vec::new();
        let mut i: usize = 0;
        let n = self.content.count();
        while i < n
            invariant
                i <= n,
                n == self.content.pairs().len(),
                out@.len() == i,
                forall|j: int|
                    0 <= j < i ==> (#[trigger] out@[j]).0@ == self.content.pairs()[j].0 && out@[j].1@
                        == self.content.pairs()[j].1,
            decreases n - i,
        {
            out.push((self.content.key_at(i).clone(), self.content.value_at(i).clone()));
            i += 1;
        }
        assert(pair_texts(out@) =~= self.content());
        out
    }

    /// The recorded pairs of destination and source, in order; the ledger is used up.
    pub fn into_iter(self) -> (r: Vec<(String, String)>)
        ensures
            pair_texts(r@) == self.content(),
    {
        self.iter()
    }

    /// Whether nothing is recorded.
    pub fn is_empty(&self) -> (r: bool)
        ensures
            r == (self.content().len() == 0),
    {
        self.content.count() == 0
    }

    /// The number of destinations recorded.
    pub fn len(&self) -> (n: usize)
        ensures
            n == self.content().len(),
    {
        self.content.count()
    }

    /// Whether the ledger was changed since it was read or written.
    pub fn is_dirty(&self) -> (r: bool)
        ensures
            r == self.dirty(),
    {
        self.dirty
    }
}

} // verus!
