//! What is known of the world outside: directory listings and the output
//! of shell commands.
//!
//! Resolving a template needs to list directories and to run the shell.
//! The functions that resolve do neither. They work from a `Knowledge`,
//! and where it lacks an answer they come to `Outcome::Need` with the
//! `Query` to put. The caller gets the answer, records it, and calls
//! again. `World` is the mathematical content of a `Knowledge`.

use vstd::prelude::*;
use vstd::string::*;

use crate::strmap::StringMap;
use crate::text::same_text;

verus! {

/// A variable environment: a map from variable name to value.
pub type Env = Map<Seq<char>, Seq<char>>;

/// One entry of a directory.
#[derive(Debug, Clone, PartialEq, Eq)]
pub struct Entry {
    /// The entry's name.
    pub name: String,
    /// Whether the entry is a directory.
    pub is_dir: bool,
}

/// What listing a directory gave.
#[derive(Debug, Clone, PartialEq, Eq)]
pub enum Listing {
    /// The entries, in the order in which they were listed.
    Entries(Vec<Entry>),
    /// There is no such directory.
    Absent,
    /// The directory could not be listed; the message says why.
    Failed(String),
}

/// A question to the world outside.
#[derive(Debug, PartialEq, Eq)]
pub enum Query {
    /// What does the directory at this path hold?
    ListDir(String),
    /// What does the shell print for this command line, run with these
    /// variables in its environment?
    Shell { command: String, env: StringMap },
}

/// What listing a directory gave, with its texts as character sequences:
/// each entry is its name and whether it is a directory.
pub enum ListingModel {
    Entries(Seq<(Seq<char>, bool)>),
    Absent,
    Failed(Seq<char>),
}

/// A question, with its texts as character sequences.
pub enum QueryModel {
    ListDir(Seq<char>),
    Shell { command: Seq<char>, env: Env },
}

/// What the shell printed, or the message of the error that kept it from running.
pub type Output = Result<Seq<char>, Seq<char>>;

/// The answers known.
pub struct World {
    /// The listing of each directory that was listed, by its path.
    pub listings: Map<Seq<char>, ListingModel>,
    /// The output of each command that was run, by command line and environment.
    pub outputs: Map<(Seq<char>, Env), Output>,
}

/// The entries of a listing as pairs of name and kind.
pub open spec fn entry_models(entries: Seq<Entry>) -> Seq<(Seq<char>, bool)> {
    Seq::new(entries.len(), |i: int| (entries[i].name@, entries[i].is_dir))
}

impl View for Listing {
    type V = ListingModel;

    open spec fn view(&self) -> ListingModel {
        match self {
            Listing::Entries(entries) => ListingModel::Entries(entry_models(entries@)),
            Listing::Absent => ListingModel::Absent,
            Listing::Failed(message) => ListingModel::Failed(message@),
        }
    }
}

impl View for Query {
    type V = QueryModel;

    open spec fn view(&self) -> QueryModel {
        match self {
            Query::ListDir(path) => QueryModel::ListDir(path@),
            Query::Shell { command, env } => QueryModel::Shell { command: command@, env: env@ },
        }
    }
}

/// The output of a command, with its texts as character sequences.
pub open spec fn output_model(output: Result<String, String>) -> Output {
    match output {
        Ok(text) => Ok(text@),
        Err(message) => Err(message@),
    }
}

/// The listings recorded in `records`, a later one for a path replacing an earlier one.
pub open spec fn listing_map(records: Seq<(String, Listing)>) -> Map<Seq<char>, ListingModel>
    decreases records.len(),
{
    if records.len() == 0 {
        Map::empty()
    } else {
        listing_map(records.drop_last()).insert(records.last().0@, records.last().1@)
    }
}

/// The outputs recorded in `records`, a later one for a command and an
/// environment replacing an earlier one.
pub open spec fn output_map(records: Seq<(String, StringMap, Result<String, String>)>) -> Map<
    (Seq<char>, Env),
    Output,
>
    decreases records.len(),
{
    if records.len() == 0 {
        Map::empty()
    } else {
        output_map(records.drop_last()).insert(
            (records.last().0@, records.last().1@),
            output_model(records.last().2),
        )
    }
}

/// The answers gathered so far.
#[derive(Debug)]
pub struct Knowledge {
    listings: Vec<(String, Listing)>,
    outputs: Vec<(String, StringMap, Result<String, String>)>,
}

impl View for Knowledge {
    type V = World;

    closed spec fn view(&self) -> World {
        World { listings: listing_map(self.listings@), outputs: output_map(self.outputs@) }
    }
}

impl Knowledge {
    /// The invariant of the type: each recorded environment is a well-formed map.
    pub closed spec fn wf(&self) -> bool {
        forall|i: int| 0 <= i < self.outputs@.len() ==> (#[trigger] self.outputs@[i]).1.wf()
    }

    /// No answer at all.
    pub fn new() -> (r: Self)
        ensures
            r.wf(),
            r@.listings == Map::<Seq<char>, ListingModel>::empty(),
            r@.outputs == Map::<(Seq<char>, Env), Output>::empty(),
    {
        Knowledge { listings: Vec::new(), outputs: Vec::new() }
    }

    /// Records what listing the directory at `path` gave.
    pub fn record_listing(&mut self, path: String, listing: Listing)
        requires
            old(self).wf(),
        ensures
            final(self).wf(),
            final(self)@.listings == old(self)@.listings.insert(path@, listing@),
            final(self)@.outputs == old(self)@.outputs,
    {
        let ghost before = self.listings@;
        self.listings.push((path, listing));
        assert(self.listings@.drop_last() =~= before);
    }

    /// Records what the shell printed for `command` run with the
    /// variables of `env`, or the message of the error that kept it from running.
    pub fn record_output(&mut self, command: String, env: StringMap, output: Result<String, String>)
        requires
            old(self).wf(),
            env.wf(),
        ensures
            final(self).wf(),
            final(self)@.listings == old(self)@.listings,
            final(self)@.outputs == old(self)@.outputs.insert(
                (command@, env@),
                output_model(output),
            ),
    {
        let ghost before = self.outputs@;
        self.outputs.push((command, env, output));
        assert(self.outputs@.drop_last() =~= before);
    }

    /// The listing recorded for the directory at `path`, if any.
    pub fn listing(&self, path: &str) -> (r: Option<&Listing>)
        ensures
            r is Some <==> self@.listings.contains_key(path@),
            r matches Some(listing) ==> listing@ == self@.listings[path@],
    {
        let mut i: usize = self.listings.len();
        assert(self.listings@.take(i as int) =~= self.listings@);
        while i > 0
            invariant
                i <= self.listings@.len(),
                self@.listings.contains_key(path@) <==> listing_map(
                    self.listings@.take(i as int),
                ).contains_key(path@),
                self@.listings.contains_key(path@) ==> self@.listings[path@] == listing_map(
                    self.listings@.take(i as int),
                )[path@],
            decreases i,
        {
            assert(self.listings@.take(i as int).drop_last() =~= self.listings@.take(i - 1));
            if same_text(self.listings[i - 1].0.as_str(), path) {
                return Some(&self.listings[i - 1].1);
            }
            i -= 1;
        }
        None
    }

    /// The output recorded for `command` run with the variables of `env`, if any.
    pub fn output(&self, command: &str, env: &StringMap) -> (r: Option<&Result<String, String>>)
        requires
            self.wf(),
            env.wf(),
        ensures
            r is Some <==> self@.outputs.contains_key((command@, env@)),
            r matches Some(output) ==> output_model(*output) == self@.outputs[(command@, env@)],
    {
        let mut i: usize = self.outputs.len();
        assert(self.outputs@.take(i as int) =~= self.outputs@);
        let ghost key = (command@, env@);
        while i > 0
            invariant
                i <= self.outputs@.len(),
                self.wf(),
                env.wf(),
                key == (command@, env@),
                self@.outputs.contains_key(key) <==> output_map(
                    self.outputs@.take(i as int),
                ).contains_key(key),
                self@.outputs.contains_key(key) ==> self@.outputs[key] == output_map(
                    self.outputs@.take(i as int),
                )[key],
            decreases i,
        {
            assert(self.outputs@.take(i as int).drop_last() =~= self.outputs@.take(i - 1));
            assert(self.outputs@[i - 1].1.wf());
            if same_text(self.outputs[i - 1].0.as_str(), command) && self.outputs[i - 1].1.same_as(
                env,
            ) {
                return Some(&self.outputs[i - 1].2);
            }
            i -= 1;
        }
        None
    }
}

} // verus!
