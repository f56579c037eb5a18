//! Mapping the sources of a dotfiles tree that is laid out by convention:
//! what lies below `root` goes to `/`, what lies below `home` goes to `~`.

use vstd::prelude::*;
use vstd::string::*;

use crate::knowledge::{entry_models, Entry};
use crate::paths::{begins_with, change_file_prefix, join, joined, starts_with, with_prefix_changed};
use crate::strmap::{distinct_keys, pairs_insert, Pair, StringMap};
use crate::text::{same_text, texts};

verus! {

/// Why a source could not be mapped.
#[derive(Debug, Clone, PartialEq, Eq)]
pub enum TrackMapError {
    /// The target is neither `root` nor `home`.
    InvalidTarget(String),
    /// The source does not lie below its prefix and target.
    OutsidePrefix(String),
}

/// Sources with their destinations, and the sources that were left out.
#[derive(Debug, PartialEq, Eq)]
pub struct TrackMap {
    content: StringMap,
    exclusions: Option<Vec<String>>,
    excluded: Vec<String>,
}

/// What a `TrackMap` holds, with its texts as character sequences.
pub struct TrackMapModel {
    /// The pairs of source and destination, in the order in which the sources came.
    pub content: Seq<Pair>,
    /// The paths below which sources are left out.
    pub exclusions: Option<Seq<Seq<char>>>,
    /// The sources that were left out, in the order in which they came.
    pub excluded: Seq<Seq<char>>,
}

/// Whether the source lies below one of the exclusions.
pub open spec fn left_out(exclusions: Option<Seq<Seq<char>>>, source: Seq<char>) -> bool {
    exclusions matches Some(list) && exists|i: int|
        0 <= i < list.len() && begins_with(source, #[trigger] list[i])
}

/// Where the sources below a target go: `/` for `root`, `~` for `home`.
pub open spec fn dest_prefix(target: Seq<char>) -> Option<Seq<char>> {
    if target == "root"@ {
        Some("/"@)
    } else if target == "home"@ {
        Some("~"@)
    } else {
        None
    }
}

/// What `insert_target` returns, with its texts as character sequences.
pub type Inserted = Result<Option<Seq<char>>, TrackMapErrorModel>;

/// An error, with its text as a character sequence.
pub enum TrackMapErrorModel {
    InvalidTarget(Seq<char>),
    OutsidePrefix(Seq<char>),
}

impl View for TrackMapError {
    type V = TrackMapErrorModel;

    open spec fn view(&self) -> TrackMapErrorModel {
        match self {
            TrackMapError::InvalidTarget(t) => TrackMapErrorModel::InvalidTarget(t@),
            TrackMapError::OutsidePrefix(s) => TrackMapErrorModel::OutsidePrefix(s@),
        }
    }
}

impl TrackMapModel {
    /// The map and the result after the source `source` is dealt with. A
    /// source below an exclusion is noted as left out and returned.
    /// Any other source is mapped to its path with `source_prefix` and
    /// `target` in front replaced by where the target goes; it is an
    /// error where the target is unknown or the source does not lie there.
    pub open spec fn with_target(
        self,
        source: Seq<char>,
        source_prefix: Seq<char>,
        target: Seq<char>,
    ) -> (TrackMapModel, Inserted) {
        if left_out(self.exclusions, source) {
            (TrackMapModel { excluded: self.excluded.push(source), ..self }, Ok(Some(source)))
        } else {
            match dest_prefix(target) {
                None => (self, Err(TrackMapErrorModel::InvalidTarget(target))),
                Some(prefix) => match with_prefix_changed(
                    joined(source_prefix, target),
                    prefix,
                    source,
                ) {
                    None => (self, Err(TrackMapErrorModel::OutsidePrefix(source))),
                    Some(dest) => (
                        TrackMapModel { content: pairs_insert(self.content, source, dest), ..self },
                        Ok(None),
                    ),
                },
            }
        }
    }

    /// The map and the sources left out after `root` and `home` below
    /// `source` are dealt with, in this order.
    pub open spec fn with_targets(self, source: Seq<char>) -> (TrackMapModel, Seq<Seq<char>>) {
        let root = self.with_target(joined(source, "root"@), source, "root"@);
        let home = root.0.with_target(joined(source, "home"@), source, "home"@);
        (
            home.0,
            (match root.1 {
                Ok(Some(s)) => seq![s],
                _ => Seq::empty(),
            }) + (match home.1 {
                Ok(Some(s)) => seq![s],
                _ => Seq::empty(),
            }),
        )
    }

    /// The map and the sources left out after `root` and `home` below
    /// each directory among the entries from position `i` on are dealt with.
    pub open spec fn with_children(
        self,
        source: Seq<char>,
        entries: Seq<(Seq<char>, bool)>,
        i: int,
    ) -> (TrackMapModel, Seq<Seq<char>>)
        decreases entries.len() - i,
    {
        if i < 0 || i >= entries.len() {
            (self, Seq::empty())
        } else if !entries[i].1 {
            self.with_children(source, entries, i + 1)
        } else {
            let first = self.with_targets(joined(source, entries[i].0));
            let rest = first.0.with_children(source, entries, i + 1);
            (rest.0, first.1 + rest.1)
        }
    }
}

impl View for TrackMap {
    type V = TrackMapModel;

    closed spec fn view(&self) -> TrackMapModel {
        TrackMapModel {
            content: self.content.pairs(),
            exclusions: match self.exclusions {
                Some(list) => Some(texts(list@)),
                None => None,
            },
            excluded: texts(self.excluded@),
        }
    }
}

/// Where the sources below a target go.
fn target_prefix(target: &str) -> (r: Option<&'static str>)
    ensures
        match dest_prefix(target@) {
            Some(p) => r matches Some(s) && s@ == p,
            None => r is None,
        },
{
    if same_text(target, "root") {
        Some("/")
    } else if same_text(target, "home") {
        Some("~")
    } else {
        None
    }
}

impl TrackMap {
    /// The invariant of the type: no source is mapped twice.
    pub open spec fn wf(&self) -> bool {
        distinct_keys(self@.content)
    }

    /// An empty map that leaves out the sources below `exclusions`.
    pub fn new(exclusions: Option<Vec<String>>) -> (r: Self)
        ensures
            r.wf(),
            r@.content == Seq::<Pair>::empty(),
            r@.excluded == Seq::<Seq<char>>::empty(),
            r@.exclusions == match exclusions {
                Some(list) => Some(texts(list@)),
                None => None,
            },
    {
        let r = TrackMap { content: StringMap::new(), exclusions, excluded: Vec::new() };
        assert(texts(r.excluded@) =~= Seq::<Seq<char>>::empty());
        r
    }

    /// The destination that `source` is mapped to, if any.
    pub fn get(&self, source: &str) -> (r: Option<&String>)
        requires
            self.wf(),
        ensures
            r is Some <==> crate::strmap::pairs_map(self@.content).contains_key(source@),
            r matches Some(dest) ==> dest@ == crate::strmap::pairs_map(self@.content)[source@],
    {
        self.content.get(source)
    }

    /// The number of sources mapped.
    pub fn len(&self) -> (n: usize)
        ensures
            n == self@.content.len(),
    {
        self.content.count()
    }

    /// The sources that were left out, in the order in which they came.
    pub fn excluded(&self) -> (r: &Vec<String>)
        ensures
            texts(r@) == self@.excluded,
    {
        &self.excluded
    }

    /// Whether the source lies below one of the exclusions.
    fn is_left_out(&self, source: &str) -> (r: bool)
        ensures
            r == left_out(self@.exclusions, source@),
    {
        match &self.exclusions {
            None => false,
            Some(list) => {
                let mut i: usize = 0;
                while i < list.len()
                    invariant
                        i <= list@.len(),
                        self@.exclusions == Some(texts(list@)),
                        forall|j: int|
                            0 <= j < i ==> !begins_with(source@, #[trigger] texts(list@)[j]),
                    decreases list@.len() - i,
                {
                    if starts_with(source, list[i].as_str()) {
                        proof {
                            let found = self@.exclusions->0;
                            assert(found == texts(list@));
                            assert(0 <= i < found.len() && begins_with(source@, found[i as int]));
                        }
                        return true;
                    }
                    i += 1;
                }
                false
            },
        }
    }

    /// Deals with the source `source`, which lies below `target` below
    /// `source_prefix`: it is mapped to its destination, or noted as
    /// left out and returned.
    pub fn insert_target(&mut self, source: &str, source_prefix: &str, target: &str) -> (r: Result<
        Option<String>,
        TrackMapError,
    >)
        requires
            old(self).wf(),
        ensures
            final(self).wf(),
            (
                final(self)@,
                match r {
                    Ok(Some(s)) => Ok(Some(s@)),
                    Ok(None) => Ok(None),
                    Err(e) => Err(e@),
                },
            ) == old(self)@.with_target(source@, source_prefix@, target@),
    {
        if self.is_left_out(source) {
            let ghost before = texts(self.excluded@);
            self.excluded.push(source.to_owned());
            assert(texts(self.excluded@) =~= before.push(source@));
            return Ok(Some(source.to_owned()));
        }
        let prefix = match target_prefix(target) {
            Some(p) => p,
            None => {
                return Err(TrackMapError::InvalidTarget(target.to_owned()));
            },
        };
        let below = join(source_prefix, target);
        match change_file_prefix(below.as_str(), prefix, source) {
            None => Err(TrackMapError::OutsidePrefix(source.to_owned())),
            Some(dest) => {
                proof {
                    crate::strmap::lemma_pairs_insert(self.content.pairs(), source@, dest@);
                }
                self.content.insert(source.to_owned(), dest);
                Ok(None)
            },
        }
    }

    /// Deals with `root` and `home` below `source`, and returns the
    /// sources that were left out.
    pub fn insert_targets(&mut self, source: &str) -> (r: Vec<String>)
        requires
            old(self).wf(),
        ensures
            final(self).wf(),
            (final(self)@, texts(r@)) == old(self)@.with_targets(source@),
    {
        let mut out: Vec<String> = Vec::new();
        assert(texts(out@) =~= Seq::<Seq<char>>::empty());
        let root = join(source, "root");
        match self.insert_target(root.as_str(), source, "root") {
            Ok(Some(s)) => {
                let ghost before = texts(out@);
                out.push(s);
                assert(texts(out@) =~= before + seq![out@[0]@]);
            },
            _ => {
                assert(texts(out@) =~= texts(out@) + Seq::<Seq<char>>::empty());
            },
        }
        let ghost first = texts(out@);
        let home = join(source, "home");
        match self.insert_target(home.as_str(), source, "home") {
            Ok(Some(s)) => {
                out.push(s);
                assert(texts(out@) =~= first + seq![out@[out@.len() - 1]@]);
            },
            _ => {
                assert(texts(out@) =~= first + Seq::<Seq<char>>::empty());
            },
        }
        out
    }

    /// Deals with `root` and `home` below each directory among the
    /// entries of the directory `source`, in listing order, and returns
    /// the sources that were left out.
    pub fn insert_targets_for_all_children(&mut self, source: &str, entries: &Vec<Entry>) -> (r:
        Vec<String>)
        requires
            old(self).wf(),
        ensures
            final(self).wf(),
            (final(self)@, texts(r@)) == old(self)@.with_children(
                source@,
                entry_models(entries@),
                0,
            ),
    {
        self.children_from(source, entries, 0)
    }

    /// Deals with the entries from position `i` on.
    fn children_from(&mut self, source: &str, entries: &Vec<Entry>, i: usize) -> (r: Vec<String>)
        requires
            old(self).wf(),
        ensures
            final(self).wf(),
            (final(self)@, texts(r@)) == old(self)@.with_children(
                source@,
                entry_models(entries@),
                i as int,
            ),
        decreases entries@.len() - i,
    {
        if i >= entries.len() {
            let out: Vec<String> = Vec::new();
            assert(texts(out@) =~= Seq::<Seq<char>>::empty());
            return out;
        }
        if !entries[i].is_dir {
            return self.children_from(source, entries, i + 1);
        }
        let child = join(source, entries[i].name.as_str());
        let mut out = self.insert_targets(child.as_str());
        let mut rest = self.children_from(source, entries, i + 1);
        let ghost a = texts(out@);
        let ghost b = texts(rest@);
        out.append(&mut rest);
        assert(texts(out@) =~= a + b);
        out
    }
}

} // verus!
