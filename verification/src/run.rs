//! The edges of a run: where the ledger lives, what a target names, and
//! what becomes of the ledger at the end.

use vstd::prelude::*;
use vstd::string::*;

use crate::paths::{join, joined};
use crate::status::{shows_kind, EntryKind, Metadata};
use crate::strmap::Pair;
use crate::trackfile::{toml_document, Trackfile, TrackfileError};

verus! {

/// Whether `url::Url::parse` reads a text as an absolute URL.
pub uninterp spec fn url_parses(text: Seq<char>) -> bool;

/// Calls `url::Url::parse` on `text` and says whether it gave a URL.
/// Whether it does is what `url_parses` names.
#[verifier::external_body]
fn is_url(text: &str) -> (r: bool)
    ensures
        r == url_parses(text@),
{
    url::Url::parse(text).is_ok()
}

/// Calls `dirs::cache_dir` for the user's cache directory. The answer
/// depends on the platform and on the environment, so nothing is said of
/// it; a path that is no text is given as none.
#[verifier::external_body]
fn user_cache_dir() -> (r: Option<String>) {
    dirs::cache_dir().and_then(|p| p.into_os_string().into_string().ok())
}

/// The text of the error for a user without a cache directory.
pub open spec fn no_cache_dir_text() -> Seq<char> {
    "Could not determine user cache directory"@
}

/// The path of the ledger's file below the cache directory `cache`.
pub open spec fn ledger_path(cache: Seq<char>) -> Seq<char> {
    joined(joined(cache, "bos"@), "trackfile.toml"@)
}

/// The path of the ledger's file, given the user's cache directory, and
/// an error where the user has none.
pub fn trackfile_path(cache_dir: Option<&str>) -> (r: Result<String, String>)
    ensures
        match cache_dir {
            Some(cache) => r matches Ok(path) && path@ == ledger_path(cache@),
            None => r matches Err(message) && message@ == no_cache_dir_text(),
        },
{
    match cache_dir {
        Some(cache) => {
            let dir = join(cache, "bos");
            Ok(join(dir.as_str(), "trackfile.toml"))
        },
        None => Err("Could not determine user cache directory".to_owned()),
    }
}

/// The path of the ledger's file for the user who runs the program.
pub fn trackfile_location() -> (r: Result<String, String>)
    ensures
        r matches Ok(path) ==> exists|cache: Seq<char>| path@ == ledger_path(cache),
        r matches Err(message) ==> message@ == no_cache_dir_text(),
{
    match user_cache_dir() {
        Some(cache) => trackfile_path(Some(cache.as_str())),
        None => trackfile_path(None),
    }
}

/// What a target names.
#[derive(Debug, PartialEq, Eq)]
pub enum Target {
    /// A repository to clone from `url` into the directory `into`.
    Repository { url: String, into: String },
    /// A configuration file at the path.
    ConfigFile(String),
    /// A dotfiles tree at the path.
    Directory(String),
    /// Nothing that can be used: neither a URL, a file nor a directory.
    Unusable(String),
}

/// What a target names, with its texts as character sequences.
pub enum TargetModel {
    Repository { url: Seq<char>, into: Seq<char> },
    ConfigFile(Seq<char>),
    Directory(Seq<char>),
    Unusable(Seq<char>),
}

impl View for Target {
    type V = TargetModel;

    open spec fn view(&self) -> TargetModel {
        match self {
            Target::Repository { url, into } => TargetModel::Repository { url: url@, into: into@ },
            Target::ConfigFile(path) => TargetModel::ConfigFile(path@),
            Target::Directory(path) => TargetModel::Directory(path@),
            Target::Unusable(path) => TargetModel::Unusable(path@),
        }
    }
}

/// What `target` names: a URL names a repository, which is cloned into
/// `repos` below the cache directory; any other text is a path, and
/// names a dotfiles tree where a directory is there and a configuration
/// file where a file is.
pub open spec fn target_named(
    is_url: bool,
    target: Seq<char>,
    cache_dir: Seq<char>,
    meta: Metadata,
) -> TargetModel {
    if is_url {
        TargetModel::Repository { url: target, into: joined(cache_dir, "repos"@) }
    } else if shows_kind(meta, EntryKind::Directory) {
        TargetModel::Directory(target)
    } else if shows_kind(meta, EntryKind::File) {
        TargetModel::ConfigFile(target)
    } else {
        TargetModel::Unusable(target)
    }
}

/// What `target` names, given whether it reads as a URL and the metadata
/// of the entry at it, taken after following symlinks.
pub fn classify_named(is_url: bool, target: &str, cache_dir: &str, meta: &Metadata) -> (r: Target)
    ensures
        r@ == target_named(is_url, target@, cache_dir@, *meta),
{
    if is_url {
        Target::Repository { url: target.to_owned(), into: join(cache_dir, "repos") }
    } else {
        match meta {
            Ok(Some(EntryKind::Directory)) => Target::Directory(target.to_owned()),
            Ok(Some(EntryKind::File)) => Target::ConfigFile(target.to_owned()),
            _ => Target::Unusable(target.to_owned()),
        }
    }
}

impl Trackfile {
    /// What the target of a run names: a repository, a configuration
    /// file or a dotfiles tree. `meta` is the metadata of the entry at
    /// `target`, taken after following symlinks.
    pub fn generate(target: &str, cache_dir: &str, meta: &Metadata) -> (r: Target)
        ensures
            r@ == target_named(url_parses(target@), target@, cache_dir@, *meta),
    {
        classify_named(is_url(target), target, cache_dir, meta)
    }
}

/// The names under which a dotfiles tree may hold its configuration, in
/// the order in which they are tried.
pub open spec fn config_names() -> Seq<Seq<char>> {
    seq!["dots.toml"@, "config.dots"@, ".dots"@, "bos.toml"@, "config.bos"@, ".bos"@]
}

/// The position of the first name that is present, from position `i` on.
pub open spec fn first_present(present: Seq<bool>, i: int) -> Option<int>
    decreases present.len() - i,
{
    if i < 0 || i >= present.len() || i >= config_names().len() {
        None
    } else if present[i] {
        Some(i)
    } else {
        first_present(present, i + 1)
    }
}

/// The names under which a dotfiles tree may hold its configuration.
pub fn config_file_names() -> (r: Vec<&'static str>)
    ensures
        r@.len() == config_names().len(),
        forall|i: int| 0 <= i < r@.len() ==> (#[trigger] r@[i])@ == config_names()[i],
{
    let mut names: Vec<&'static str> = Vec::new();
    names.push("dots.toml");
    names.push("config.dots");
    names.push(".dots");
    names.push("bos.toml");
    names.push("config.bos");
    names.push(".bos");
    names
}

impl Trackfile {
    /// The path of the configuration of the dotfiles tree at
    /// `target_dir`: the first of `config_names` that is present there.
    /// `present` says of each name, in order, whether a file of that
    /// name is in the directory.
    pub fn detect_config(target_dir: &str, present: &Vec<bool>) -> (r: Option<String>)
        ensures
            match first_present(present@, 0) {
                Some(i) => r matches Some(path) && path@ == joined(target_dir@, config_names()[i]),
                None => r is None,
            },
    {
        let names = config_file_names();
        let mut i: usize = 0;
        while i < names.len() && i < present.len()
            invariant
                i <= names@.len(),
                names@.len() == config_names().len(),
                forall|j: int| 0 <= j < names@.len() ==> (#[trigger] names@[j])@ == config_names()[j],
                first_present(present@, i as int) == first_present(present@, 0),
            decreases names@.len() - i,
        {
            if present[i] {
                return Some(join(target_dir, names[i]));
            }
            i += 1;
        }
        None
    }
}

/// What becomes of the ledger at the end of a run.
#[derive(Debug, PartialEq, Eq)]
pub enum Closing {
    /// This text is to be written to the ledger's file.
    Write(String),
    /// A dry run: the ledger would have been written.
    Announce,
    /// Nothing is to be done.
    Nothing,
}

/// What becomes of the ledger, with its text as a character sequence.
pub enum ClosingModel {
    Write(Seq<char>),
    Announce,
    Nothing,
}

impl View for Closing {
    type V = ClosingModel;

    open spec fn view(&self) -> ClosingModel {
        match self {
            Closing::Write(text) => ClosingModel::Write(text@),
            Closing::Announce => ClosingModel::Announce,
            Closing::Nothing => ClosingModel::Nothing,
        }
    }
}

/// What becomes of a ledger with the pairs `ledger`: a run writes it
/// where it was changed; a dry run writes nothing, and announces that it
/// would have where the ledger was changed or would have been. `None`
/// where the ledger cannot be written as text.
pub open spec fn closed(
    ledger: Seq<Pair>,
    dirty: bool,
    would_change: bool,
    dry_run: bool,
) -> Option<ClosingModel> {
    if dry_run {
        if dirty || would_change {
            Some(ClosingModel::Announce)
        } else {
            Some(ClosingModel::Nothing)
        }
    } else if dirty {
        match toml_document(ledger) {
            Some(text) => Some(ClosingModel::Write(text)),
            None => None,
        }
    } else {
        Some(ClosingModel::Nothing)
    }
}

/// The line shown after the ledger was written to `path`.
pub open spec fn saved_line(path: Seq<char>) -> Seq<char> {
    "Trackfile saved to "@ + path
}

/// The line shown at the end of a dry run that would have written the ledger.
pub open spec fn would_save_line() -> Seq<char> {
    "DRY RUN: Trackfile would have been saved."@
}

/// What becomes of the ledger `state` at the end of a run.
/// `would_change` says whether a dry run came to a change of the ledger.
pub fn closing(state: &Trackfile, would_change: bool, dry_run: bool) -> (r: Result<
    Closing,
    TrackfileError,
>)
    requires
        state.wf(),
    ensures
        match closed(state.content(), state.dirty(), would_change, dry_run) {
            Some(c) => r matches Ok(x) && x@ == c,
            None => r matches Err(TrackfileError::Serialize(_)),
        },
{
    if dry_run {
        if state.is_dirty() || would_change {
            Ok(Closing::Announce)
        } else {
            Ok(Closing::Nothing)
        }
    } else {
        match state.save() {
            Ok(Some(text)) => Ok(Closing::Write(text)),
            Ok(None) => Ok(Closing::Nothing),
            Err(e) => Err(e),
        }
    }
}

/// The line shown after the ledger was written to `path`.
pub fn saved_message(path: &str) -> (r: String)
    ensures
        r@ == saved_line(path@),
{
    let mut s = "Trackfile saved to ".to_owned();
    s.append(path);
    s
}

/// The line shown at the end of a dry run that would have written the ledger.
pub fn would_save_message() -> (r: String)
    ensures
        r@ == would_save_line(),
{
    "DRY RUN: Trackfile would have been saved.".to_owned()
}

} // verus!
