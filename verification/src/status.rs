//! What is found at a path, from what the filesystem reported about it.

use vstd::prelude::*;
use vstd::string::*;

verus! {

/// The kind of a filesystem entry.
#[derive(Debug, Clone, Copy, PartialEq, Eq, Structural)]
pub enum EntryKind {
    File,
    Directory,
    Symlink,
    /// A socket, a device and the like.
    Other,
}

/// The answer to a query for an entry's metadata: its kind, `None` where
/// there is no entry, or the message of the error that stopped the query.
pub type Metadata = Result<Option<EntryKind>, String>;

/// What was found out about a path, without following a symlink at it.
#[derive(Debug, PartialEq, Eq)]
pub struct Probe {
    /// The metadata of the entry at the path.
    pub meta: Metadata,
    /// Where the entry is a symlink: the path it holds, or the message of
    /// the error that stopped reading it.
    pub link: Option<Result<String, String>>,
    /// Where the symlink was read: the metadata of the entry at the path it holds.
    pub link_meta: Option<Metadata>,
}

/// What is at a path.
#[derive(Debug, PartialEq, Eq)]
pub enum FilesystemStatus {
    NotFound,
    File,
    Directory,
    /// A symlink, with the path it holds where that could be read; `dangling`
    /// where nothing is at that path.
    Symlink { points_to: Option<String>, dangling: bool },
    /// A socket, a device and the like.
    Other,
    /// The path could not be examined.
    Error(String),
}

impl Clone for FilesystemStatus {
    fn clone(&self) -> (r: Self)
        ensures
            r == *self,
    {
        match self {
            FilesystemStatus::NotFound => FilesystemStatus::NotFound,
            FilesystemStatus::File => FilesystemStatus::File,
            FilesystemStatus::Directory => FilesystemStatus::Directory,
            FilesystemStatus::Symlink { points_to, dangling } => {
                let copy = match points_to {
                    Some(p) => Some(p.clone()),
                    None => None,
                };
                FilesystemStatus::Symlink { points_to: copy, dangling: *dangling }
            },
            FilesystemStatus::Other => FilesystemStatus::Other,
            FilesystemStatus::Error(e) => FilesystemStatus::Error(e.clone()),
        }
    }
}

impl FilesystemStatus {
    /// The text of `to_text`.
    pub open spec fn text(&self) -> Seq<char> {
        match self {
            FilesystemStatus::File => "file"@,
            FilesystemStatus::Directory => "directory"@,
            FilesystemStatus::Symlink { .. } => "symlink"@,
            FilesystemStatus::Other => "other"@,
            FilesystemStatus::NotFound => "not found"@,
            FilesystemStatus::Error(_) => "error"@,
        }
    }

    /// Whether the status is that of a symlink that holds the path `target`.
    pub open spec fn points_at(&self, target: Seq<char>) -> bool {
        *self matches FilesystemStatus::Symlink { points_to: Some(p), .. } && p@ == target
    }

    /// The kind of entry, in a word or two.
    pub fn to_text(&self) -> (r: &'static str)
        ensures
            r@ == self.text(),
    {
        match self {
            FilesystemStatus::File => "file",
            FilesystemStatus::Directory => "directory",
            FilesystemStatus::Symlink { .. } => "symlink",
            FilesystemStatus::Other => "other",
            FilesystemStatus::NotFound => "not found",
            FilesystemStatus::Error(_) => "error",
        }
    }
}

/// Whether the metadata shows an entry.
pub open spec fn shows_entry(meta: Metadata) -> bool {
    meta matches Ok(Some(_))
}

/// Whether the metadata shows an entry of the kind `kind`.
pub open spec fn shows_kind(meta: Metadata, kind: EntryKind) -> bool {
    meta matches Ok(Some(k)) && k == kind
}

/// Whether something is at the path whose metadata, taken without
/// following symlinks, is `meta`. A failed query counts as nothing there.
pub fn path_exists(meta: &Metadata) -> (r: bool)
    ensures
        r == shows_entry(*meta),
{
    match meta {
        Ok(Some(_)) => true,
        _ => false,
    }
}

/// Whether the entry whose metadata, taken without following symlinks, is
/// `meta` is a symlink.
pub fn is_symlink(meta: &Metadata) -> (r: bool)
    ensures
        r == shows_kind(*meta, EntryKind::Symlink),
{
    match meta {
        Ok(Some(EntryKind::Symlink)) => true,
        _ => false,
    }
}

/// Whether the entry whose metadata, taken after following symlinks, is
/// `meta` is a directory.
pub fn is_dir(meta: &Metadata) -> (r: bool)
    ensures
        r == shows_kind(*meta, EntryKind::Directory),
{
    match meta {
        Ok(Some(EntryKind::Directory)) => true,
        _ => false,
    }
}

/// Whether the entry whose metadata, taken after following symlinks, is
/// `meta` is a regular file.
pub fn is_file(meta: &Metadata) -> (r: bool)
    ensures
        r == shows_kind(*meta, EntryKind::File),
{
    match meta {
        Ok(Some(EntryKind::File)) => true,
        _ => false,
    }
}

/// The message of the status for a path whose metadata could not be had.
pub open spec fn status_error_text(path: Seq<char>, cause: Seq<char>) -> Seq<char> {
    "Error checking status for "@ + path + ": "@ + cause
}

/// Whether `status` is the status of `path` that follows from `probe`.
///
/// A symlink whose path was read is dangling where nothing is at that
/// path; one that could not be read counts as dangling and holds no path.
pub open spec fn status_of(path: Seq<char>, probe: Probe, status: FilesystemStatus) -> bool {
    match probe.meta {
        Err(e) => status matches FilesystemStatus::Error(m) && m@ == status_error_text(path, e@),
        Ok(None) => status == FilesystemStatus::NotFound,
        Ok(Some(EntryKind::Symlink)) => match probe.link {
            Some(Ok(target)) => status == (FilesystemStatus::Symlink {
                points_to: Some(target),
                dangling: !(probe.link_meta matches Some(m) && shows_entry(m)),
            }),
            _ => status == (FilesystemStatus::Symlink { points_to: None, dangling: true }),
        },
        Ok(Some(EntryKind::Directory)) => status == FilesystemStatus::Directory,
        Ok(Some(EntryKind::File)) => status == FilesystemStatus::File,
        Ok(Some(EntryKind::Other)) => status == FilesystemStatus::Other,
    }
}

/// The status of `path`, from what was found out about it.
pub fn get_status(path: &str, probe: &Probe) -> (status: FilesystemStatus)
    ensures
        status_of(path@, *probe, status),
{
    match &probe.meta {
        Err(e) => {
            let mut m = "Error checking status for ".to_owned();
            m.append(path);
            m.append(": ");
            m.append(e.as_str());
            assert(m@ =~= status_error_text(path@, e@));
            FilesystemStatus::Error(m)
        },
        Ok(None) => FilesystemStatus::NotFound,
        Ok(Some(EntryKind::Symlink)) => match &probe.link {
            Some(Ok(target)) => {
                let found = match &probe.link_meta {
                    Some(m) => path_exists(m),
                    None => false,
                };
                FilesystemStatus::Symlink { points_to: Some(target.clone()), dangling: !found }
            },
            _ => FilesystemStatus::Symlink { points_to: None, dangling: true },
        },
        Ok(Some(EntryKind::Directory)) => FilesystemStatus::Directory,
        Ok(Some(EntryKind::File)) => FilesystemStatus::File,
        Ok(Some(EntryKind::Other)) => FilesystemStatus::Other,
    }
}

/// The text of `handle_windows_symlink_error`.
pub open spec fn windows_symlink_error_text(
    error: Seq<char>,
    source: Seq<char>,
    link: Seq<char>,
) -> Seq<char> {
    "Failed to create symlink from "@ + source + " to "@ + link
        + ". This often requires administrator privileges or 'Developer Mode' enabled on Windows."@
        + ": "@ + error
}

/// The message for a symlink that Windows refused to create for want of
/// permission: what was tried, a hint at the usual cause, and the error.
pub fn handle_windows_symlink_error(error: &str, source: &str, link: &str) -> (r: String)
    ensures
        r@ == windows_symlink_error_text(error@, source@, link@),
{
    let mut m = "Failed to create symlink from ".to_owned();
    m.append(source);
    m.append(" to ");
    m.append(link);
    m.append(
        ". This often requires administrator privileges or 'Developer Mode' enabled on Windows.",
    );
    m.append(": ");
    m.append(error);
    assert(m@ =~= windows_symlink_error_text(error@, source@, link@));
    m
}

} // verus!
