//! Resolving a path template into concrete paths.
//!
//! A template is a path whose components are taken one by one, from the
//! left: `*` stands for every subdirectory of the place reached so far;
//! `<name>` stands for the value of the variable `name`, and where that
//! value is `*` for every subdirectory, whose name is then bound to
//! `name` for the rest of that branch; a component that begins with `$`
//! or `~` stands for what the shell makes of it; any other component
//! stands for itself. `resolved` says what a template comes to in a
//! `World`, and `resolve_path` computes it from a `Knowledge`.

use vstd::prelude::*;
use vstd::string::*;

use crate::knowledge::{Entry, Env, Knowledge, Listing, ListingModel, Query, QueryModel, World};
use crate::paths::{components, join, joined, split};
use crate::shell::{echo, echo_line};
use crate::strmap::StringMap;
use crate::text::{texts, trim, trimmed};

verus! {

/// Why resolving a template or evaluating a rule failed.
#[derive(Debug, PartialEq, Eq)]
pub enum ConfigError {
    /// The directory at `path` could not be listed.
    Listing { path: String, message: String },
    /// The shell could not run `command`.
    Shell { command: String, message: String },
    /// The output of `command` should say yes or no and says neither.
    NotBool { command: String, output: String },
    /// More than one source is given for the value of the variable.
    MultipleFields(String),
    /// No source is given for the value of the variable.
    NoValue(String),
    /// A rule has no target, and no target is given for all rules.
    NoTargets,
    /// A rule is written as a destination template that is empty.
    EmptyTarget,
    /// The destination template came to `found` paths instead of one.
    Destination { template: String, found: usize },
}

/// An error, with its texts as character sequences.
pub enum ConfigErrorModel {
    Listing { path: Seq<char>, message: Seq<char> },
    Shell { command: Seq<char>, message: Seq<char> },
    NotBool { command: Seq<char>, output: Seq<char> },
    MultipleFields(Seq<char>),
    NoValue(Seq<char>),
    NoTargets,
    EmptyTarget,
    Destination { template: Seq<char>, found: nat },
}

impl View for ConfigError {
    type V = ConfigErrorModel;

    open spec fn view(&self) -> ConfigErrorModel {
        match self {
            ConfigError::Listing { path, message } => ConfigErrorModel::Listing {
                path: path@,
                message: message@,
            },
            ConfigError::Shell { command, message } => ConfigErrorModel::Shell {
                command: command@,
                message: message@,
            },
            ConfigError::NotBool { command, output } => ConfigErrorModel::NotBool {
                command: command@,
                output: output@,
            },
            ConfigError::MultipleFields(key) => ConfigErrorModel::MultipleFields(key@),
            ConfigError::NoValue(key) => ConfigErrorModel::NoValue(key@),
            ConfigError::NoTargets => ConfigErrorModel::NoTargets,
            ConfigError::EmptyTarget => ConfigErrorModel::EmptyTarget,
            ConfigError::Destination { template, found } => ConfigErrorModel::Destination {
                template: template@,
                found: *found as nat,
            },
        }
    }
}

impl ConfigErrorModel {
    /// The error in words.
    pub open spec fn text(self) -> Seq<char> {
        match self {
            ConfigErrorModel::Listing { path, message } => "Failed to list directory "@ + path
                + ": "@ + message,
            ConfigErrorModel::Shell { command, message } => "Failed to run `"@ + command + "`: "@
                + message,
            ConfigErrorModel::NotBool { command, output } => "Value returned from shell was not a bool: `"@
                + command + "` printed `"@ + output + "`"@,
            ConfigErrorModel::MultipleFields(key) => "Multiple fields defined in UseVar for key '"@
                + key + "'"@,
            ConfigErrorModel::NoValue(key) => "No value found in UseVar for key '"@ + key + "'"@,
            ConfigErrorModel::NoTargets => "No targets provided for 'use'"@,
            ConfigErrorModel::EmptyTarget => "target cannot be empty"@,
            ConfigErrorModel::Destination { template, found } => "Destination template "@
                + template + " must resolve to exactly one path, not "@ + crate::text::decimal(
                found,
            ),
        }
    }
}

impl ConfigError {
    /// The error in words.
    pub fn message(&self) -> (r: String)
        ensures
            r@ == self@.text(),
    {
        match self {
            ConfigError::Listing { path, message } => {
                let mut s = "Failed to list directory ".to_owned();
                s.append(path.as_str());
                s.append(": ");
                s.append(message.as_str());
                s
            },
            ConfigError::Shell { command, message } => {
                let mut s = "Failed to run `".to_owned();
                s.append(command.as_str());
                s.append("`: ");
                s.append(message.as_str());
                s
            },
            ConfigError::NotBool { command, output } => {
                let mut s = "Value returned from shell was not a bool: `".to_owned();
                s.append(command.as_str());
                s.append("` printed `");
                s.append(output.as_str());
                s.append("`");
                s
            },
            ConfigError::MultipleFields(key) => {
                let mut s = "Multiple fields defined in UseVar for key '".to_owned();
                s.append(key.as_str());
                s.append("'");
                s
            },
            ConfigError::NoValue(key) => {
                let mut s = "No value found in UseVar for key '".to_owned();
                s.append(key.as_str());
                s.append("'");
                s
            },
            ConfigError::NoTargets => "No targets provided for 'use'".to_owned(),
            ConfigError::EmptyTarget => "target cannot be empty".to_owned(),
            ConfigError::Destination { template, found } => {
                let mut s = "Destination template ".to_owned();
                s.append(template.as_str());
                s.append(" must resolve to exactly one path, not ");
                s.append(crate::text::decimal_text(*found as u64).as_str());
                s
            },
        }
    }
}

/// What a computation over a `Knowledge` comes to.
#[derive(Debug, PartialEq, Eq)]
pub enum Outcome<T> {
    /// The result.
    Ready(T),
    /// An answer is missing: the query must be put, its answer recorded,
    /// and the computation made again.
    Need(Query),
    /// The computation failed.
    Failed(ConfigError),
}

/// What a computation in a `World` comes to.
pub enum OutcomeModel<M> {
    Ready(M),
    Need(QueryModel),
    Failed(ConfigErrorModel),
}

impl<T> Outcome<T> {
    /// The outcome with its result seen through `f`, and its query or
    /// error with their texts as character sequences.
    pub open spec fn model<M>(self, f: spec_fn(T) -> M) -> OutcomeModel<M> {
        match self {
            Outcome::Ready(t) => OutcomeModel::Ready(f(t)),
            Outcome::Need(q) => OutcomeModel::Need(q@),
            Outcome::Failed(e) => OutcomeModel::Failed(e@),
        }
    }
}

/// What a component of a template stands for.
#[derive(Debug, Clone, Copy, PartialEq, Eq, Structural)]
pub enum SegmentKind {
    /// The component itself.
    Literal,
    /// Every subdirectory.
    Wildcard,
    /// The value of a variable.
    Variable,
    /// What the shell makes of the component.
    Shell,
}

/// What the component `seg` stands for.
pub open spec fn segment_kind(seg: Seq<char>) -> SegmentKind {
    if seg == seq!['*'] {
        SegmentKind::Wildcard
    } else if seg.len() >= 2 && seg[0] == '<' && seg.last() == '>' {
        SegmentKind::Variable
    } else if seg.len() >= 1 && (seg[0] == '$' || seg[0] == '~') {
        SegmentKind::Shell
    } else {
        SegmentKind::Literal
    }
}

/// The name of the variable that the component `seg` refers to.
pub open spec fn variable_name(seg: Seq<char>) -> Seq<char> {
    seg.subrange(1, seg.len() - 1)
}

/// A path with the environment in which it was reached.
pub type Found = (Seq<char>, Env);

/// What resolving comes to: the paths found, each with its environment.
pub type Resolution = OutcomeModel<Seq<Found>>;

/// `first` followed by `rest`, where both are ready; else the first of
/// the two that is not.
pub open spec fn then_found(first: Resolution, rest: Resolution) -> Resolution {
    match first {
        OutcomeModel::Ready(a) => match rest {
            OutcomeModel::Ready(b) => OutcomeModel::Ready(a + b),
            other => other,
        },
        other => other,
    }
}

/// What the components of `segs` from position `at` on come to, seen from
/// the place `acc` below `base` and in the environment `env`.
///
/// With no component left, the place itself is found, with `env`.
pub open spec fn resolved(
    w: World,
    base: Seq<char>,
    acc: Seq<char>,
    segs: Seq<Seq<char>>,
    at: int,
    env: Env,
) -> Resolution
    decreases segs.len() - at, 2int, 0int,
{
    if at < 0 || at >= segs.len() {
        OutcomeModel::Ready(seq![(joined(base, acc), env)])
    } else {
        let seg = segs[at];
        match segment_kind(seg) {
            SegmentKind::Wildcard => listed(w, base, acc, segs, at, env, None),
            SegmentKind::Variable => {
                let name = variable_name(seg);
                if !env.contains_key(name) {
                    resolved(w, base, joined(acc, seg), segs, at + 1, env)
                } else if env[name] == seq!['*'] {
                    listed(w, base, acc, segs, at, env, Some(name))
                } else {
                    resolved(w, base, joined(acc, env[name]), segs, at + 1, env)
                }
            },
            SegmentKind::Shell => {
                let key = (echo_line(seg), env);
                if !w.outputs.contains_key(key) {
                    OutcomeModel::Need(QueryModel::Shell { command: echo_line(seg), env })
                } else {
                    match w.outputs[key] {
                        Ok(output) => resolved(
                            w,
                            base,
                            joined(acc, trimmed(output)),
                            segs,
                            at + 1,
                            env,
                        ),
                        Err(_) => resolved(w, base, joined(acc, seg), segs, at + 1, env),
                    }
                }
            },
            SegmentKind::Literal => resolved(w, base, joined(acc, seg), segs, at + 1, env),
        }
    }
}

/// What the component at `at` comes to where it stands for every
/// subdirectory of the place `acc` below `base`. A directory that is
/// absent has none; one that could not be listed fails the resolution.
/// `bind` is the variable to bind to each subdirectory's name, if any.
pub open spec fn listed(
    w: World,
    base: Seq<char>,
    acc: Seq<char>,
    segs: Seq<Seq<char>>,
    at: int,
    env: Env,
    bind: Option<Seq<char>>,
) -> Resolution
    decreases segs.len() - at, 1int, 0int,
{
    let place = joined(base, acc);
    if at < 0 || at >= segs.len() {
        OutcomeModel::Ready(Seq::empty())
    } else if !w.listings.contains_key(place) {
        OutcomeModel::Need(QueryModel::ListDir(place))
    } else {
        match w.listings[place] {
            ListingModel::Absent => OutcomeModel::Ready(Seq::empty()),
            ListingModel::Failed(message) => OutcomeModel::Failed(
                ConfigErrorModel::Listing { path: place, message },
            ),
            ListingModel::Entries(entries) => expanded(
                w,
                base,
                acc,
                entries,
                0,
                segs,
                at,
                env,
                bind,
            ),
        }
    }
}

/// What the entries from position `i` on come to: each directory among
/// them is entered, in listing order, and the rest of the template
/// resolved from there.
pub open spec fn expanded(
    w: World,
    base: Seq<char>,
    acc: Seq<char>,
    entries: Seq<(Seq<char>, bool)>,
    i: int,
    segs: Seq<Seq<char>>,
    at: int,
    env: Env,
    bind: Option<Seq<char>>,
) -> Resolution
    decreases segs.len() - at, 0int, entries.len() - i,
{
    if at < 0 || at >= segs.len() || i < 0 || i >= entries.len() {
        OutcomeModel::Ready(Seq::empty())
    } else if !entries[i].1 {
        expanded(w, base, acc, entries, i + 1, segs, at, env, bind)
    } else {
        let inner = match bind {
            Some(name) => env.insert(name, entries[i].0),
            None => env,
        };
        let first = resolved(w, base, joined(acc, entries[i].0), segs, at + 1, inner);
        if first is Ready {
            then_found(first, expanded(w, base, acc, entries, i + 1, segs, at, env, bind))
        } else {
            first
        }
    }
}

/// What the template `template` comes to below `base` in the environment `env`.
pub open spec fn resolved_path(
    w: World,
    base: Seq<char>,
    template: Seq<char>,
    env: Env,
) -> Resolution {
    resolved(w, base, Seq::empty(), components(template), 0, env)
}

/// The paths found, with their texts as character sequences and their
/// environments as maps.
pub open spec fn found_models(found: Seq<(String, StringMap)>) -> Seq<Found> {
    Seq::new(found.len(), |i: int| (found[i].0@, found[i].1@))
}

/// Whether each environment found is a well-formed map.
pub open spec fn found_wf(found: Seq<(String, StringMap)>) -> bool {
    forall|i: int| 0 <= i < found.len() ==> (#[trigger] found[i]).1.wf()
}

/// The contract of the resolving functions: `r` is `m`, and each
/// environment found is a well-formed map.
pub open spec fn resolves_to(r: Outcome<Vec<(String, StringMap)>>, m: Resolution) -> bool {
    &&& r.model(|v: Vec<(String, StringMap)>| found_models(v@)) == m
    &&& r matches Outcome::Ready(v) ==> found_wf(v@)
}

/// What the component `seg` stands for.
pub fn classify_segment(seg: &str) -> (r: SegmentKind)
    ensures
        r == segment_kind(seg@),
{
    let n = seg.unicode_len();
    if n == 1 && seg.get_char(0) == '*' {
        assert(seg@ =~= seq!['*']);
        SegmentKind::Wildcard
    } else if n >= 2 && seg.get_char(0) == '<' && seg.get_char(n - 1) == '>' {
        SegmentKind::Variable
    } else if n >= 1 && (seg.get_char(0) == '$' || seg.get_char(0) == '~') {
        SegmentKind::Shell
    } else {
        SegmentKind::Literal
    }
}

/// Whether `value` is the wildcard `*`.
fn is_wildcard(value: &str) -> (r: bool)
    ensures
        r == (value@ == seq!['*']),
{
    let r = value.unicode_len() == 1 && value.get_char(0) == '*';
    if r {
        assert(value@ =~= seq!['*']);
    }
    r
}

/// Resolves the entries from position `i` on.
fn expand(
    known: &Knowledge,
    base_path: &str,
    path: &str,
    entries: &Vec<Entry>,
    i: usize,
    parts: &Vec<String>,
    at: usize,
    env: &StringMap,
    bind: Option<&str>,
) -> (r: Outcome<Vec<(String, StringMap)>>)
    requires
        known.wf(),
        env.wf(),
        at < parts@.len(),
        i <= entries@.len(),
    ensures
        resolves_to(
            r,
            expanded(
                known@,
                base_path@,
                path@,
                crate::knowledge::entry_models(entries@),
                i as int,
                texts(parts@),
                at as int,
                env@,
                match bind {
                    Some(name) => Some(name@),
                    None => None,
                },
            ),
        ),
    decreases parts@.len() - at, 0int, entries@.len() - i,
{
    if i >= entries.len() {
        let none: Vec<(String, StringMap)> = Vec::new();
        assert(found_models(none@) =~= Seq::<Found>::empty());
        return Outcome::Ready(none);
    }
    let ghost total = parts.len();
    if !entries[i].is_dir {
        return expand(known, base_path, path, entries, i + 1, parts, at, env, bind);
    }
    let child = join(path, entries[i].name.as_str());
    let first = match bind {
        Some(name) => {
            let mut inner = env.clone();
            inner.insert(name.to_owned(), entries[i].name.clone());
            _resolve_path(known, base_path, child.as_str(), parts, at + 1, &inner)
        },
        None => _resolve_path(known, base_path, child.as_str(), parts, at + 1, env),
    };
    match first {
        Outcome::Ready(mut found) => {
            match expand(known, base_path, path, entries, i + 1, parts, at, env, bind) {
                Outcome::Ready(mut more) => {
                    let ghost a = found@;
                    let ghost b = more@;
                    found.append(&mut more);
                    assert(found_models(found@) =~= found_models(a) + found_models(b));
                    assert(found_wf(found@)) by {
                        assert forall|j: int| 0 <= j < found@.len() implies (
                        #[trigger] found@[j]).1.wf() by {
                            if j < a.len() {
                                assert(found@[j] == a[j]);
                            } else {
                                assert(found@[j] == b[j - a.len()]);
                            }
                        }
                    }
                    Outcome::Ready(found)
                },
                Outcome::Need(q) => Outcome::Need(q),
                Outcome::Failed(e) => Outcome::Failed(e),
            }
        },
        Outcome::Need(q) => Outcome::Need(q),
        Outcome::Failed(e) => Outcome::Failed(e),
    }
}

/// Resolves the component at `at` where it stands for every subdirectory.
fn list(
    known: &Knowledge,
    base_path: &str,
    path: &str,
    parts: &Vec<String>,
    at: usize,
    env: &StringMap,
    bind: Option<&str>,
) -> (r: Outcome<Vec<(String, StringMap)>>)
    requires
        known.wf(),
        env.wf(),
        at < parts@.len(),
    ensures
        resolves_to(
            r,
            listed(
                known@,
                base_path@,
                path@,
                texts(parts@),
                at as int,
                env@,
                match bind {
                    Some(name) => Some(name@),
                    None => None,
                },
            ),
        ),
    decreases parts@.len() - at, 1int, 0int,
{
    let place = join(base_path, path);
    match known.listing(place.as_str()) {
        None => Outcome::Need(Query::ListDir(place)),
        Some(Listing::Absent) => {
            let none: Vec<(String, StringMap)> = Vec::new();
            assert(found_models(none@) =~= Seq::<Found>::empty());
            Outcome::Ready(none)
        },
        Some(Listing::Failed(message)) => Outcome::Failed(
            ConfigError::Listing { path: place, message: message.clone() },
        ),
        Some(Listing::Entries(entries)) => expand(
            known,
            base_path,
            path,
            entries,
            0,
            parts,
            at,
            env,
            bind,
        ),
    }
}

/// Resolves the components of `parts` from position `at` on, from the
/// place `path` below `base_path`.
pub fn _resolve_path(
    known: &Knowledge,
    base_path: &str,
    path: &str,
    parts: &Vec<String>,
    at: usize,
    env: &StringMap,
) -> (r: Outcome<Vec<(String, StringMap)>>)
    requires
        known.wf(),
        env.wf(),
    ensures
        resolves_to(r, resolved(known@, base_path@, path@, texts(parts@), at as int, env@)),
    decreases parts@.len() - at, 2int, 0int,
{
    if at >= parts.len() {
        let mut found: Vec<(String, StringMap)> = Vec::new();
        found.push((join(base_path, path), env.clone()));
        assert(found_models(found@) =~= seq![(joined(base_path@, path@), env@)]);
        return Outcome::Ready(found);
    }
    let seg = parts[at].as_str();
    match classify_segment(seg) {
        SegmentKind::Wildcard => list(known, base_path, path, parts, at, env, None),
        SegmentKind::Variable => {
            let name = seg.substring_char(1, seg.unicode_len() - 1);
            match env.get(name) {
                None => _resolve_path(known, base_path, join(path, seg).as_str(), parts, at + 1, env),
                Some(value) => {
                    if is_wildcard(value.as_str()) {
                        list(known, base_path, path, parts, at, env, Some(name))
                    } else {
                        _resolve_path(
                            known,
                            base_path,
                            join(path, value.as_str()).as_str(),
                            parts,
                            at + 1,
                            env,
                        )
                    }
                },
            }
        },
        SegmentKind::Shell => {
            let command = echo(seg);
            match known.output(command.as_str(), env) {
                None => Outcome::Need(Query::Shell { command, env: env.clone() }),
                Some(Ok(output)) => _resolve_path(
                    known,
                    base_path,
                    join(path, trim(output.as_str()).as_str()).as_str(),
                    parts,
                    at + 1,
                    env,
                ),
                Some(Err(_)) => _resolve_path(
                    known,
                    base_path,
                    join(path, seg).as_str(),
                    parts,
                    at + 1,
                    env,
                ),
            }
        },
        SegmentKind::Literal => _resolve_path(
            known,
            base_path,
            join(path, seg).as_str(),
            parts,
            at + 1,
            env,
        ),
    }
}

/// Resolves the template `path` below `base_path` in the environment
/// `env`, from what is known. The paths found come in the order of the
/// listings, each with the environment in which it was reached.
pub fn resolve_path(known: &Knowledge, base_path: &str, path: &str, env: &StringMap) -> (r: Outcome<
    Vec<(String, StringMap)>,
>)
    requires
        known.wf(),
        env.wf(),
    ensures
        resolves_to(r, resolved_path(known@, base_path@, path@, env@)),
{
    let parts = split(path);
    proof {
        reveal_strlit("");
        assert(""@ =~= Seq::<char>::empty());
    }
    _resolve_path(known, base_path, "", &parts, 0, env)
}

} // verus!
