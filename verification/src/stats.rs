//! The counters of a run, and the report made from them.

use vstd::prelude::*;
use vstd::string::*;

use crate::text::{int_text, signed_decimal, texts};

verus! {

/// What a `link` run did.
#[derive(Debug, Clone, Copy, PartialEq, Eq, Structural)]
pub struct LinkStats {
    /// Destinations that failed.
    pub errors: i32,
    /// Destinations considered.
    pub targets: i32,
    /// Symlinks created.
    pub symlinks_added: i32,
    /// Symlinks removed to make room.
    pub symlinks_removed: i32,
    /// Files and directories removed to make room.
    pub files_removed: i32,
    /// Destinations left as they were.
    pub targets_skipped: i32,
}

/// What an `unlink` run did.
#[derive(Debug, Clone, Copy, PartialEq, Eq, Structural)]
pub struct UnlinkStats {
    /// Destinations that failed.
    pub errors: i32,
    /// Destinations considered.
    pub targets: i32,
    /// Symlinks removed.
    pub symlinks_removed: i32,
    /// Files and directories removed.
    pub files_removed: i32,
    /// Destinations left as they were.
    pub targets_skipped: i32,
}

/// What a `relink` run did: its `unlink` pass and its `link` pass together.
#[derive(Debug, Clone, Copy, PartialEq, Eq, Structural)]
pub struct RelinkStats {
    /// Destinations that failed, in either pass.
    pub errors: i32,
    /// Destinations considered.
    pub targets: i32,
    /// Symlinks created.
    pub symlinks_added: i32,
    /// Symlinks removed, in either pass.
    pub symlinks_removed: i32,
    /// Files and directories removed, in either pass.
    pub files_removed: i32,
    /// Destinations left as they were, in either pass.
    pub targets_skipped: i32,
}

impl Default for LinkStats {
    fn default() -> (r: Self)
        ensures
            r == LinkStats::zero(0),
    {
        LinkStats::new(0)
    }
}

impl Default for UnlinkStats {
    fn default() -> (r: Self)
        ensures
            r == UnlinkStats::zero(0),
    {
        UnlinkStats::new(0)
    }
}

impl LinkStats {
    /// The counters before the first of `targets` destinations is considered.
    pub open spec fn zero(targets: i32) -> LinkStats {
        LinkStats {
            errors: 0,
            targets,
            symlinks_added: 0,
            symlinks_removed: 0,
            files_removed: 0,
            targets_skipped: 0,
        }
    }

    /// Every counter is at most `n`.
    pub open spec fn within(&self, n: int) -> bool {
        &&& 0 <= self.errors <= n
        &&& 0 <= self.symlinks_added <= n
        &&& 0 <= self.symlinks_removed <= n
        &&& 0 <= self.files_removed <= n
        &&& 0 <= self.targets_skipped <= n
    }

    /// The lines of `display`.
    pub open spec fn report(&self, dry_run: bool) -> Seq<Seq<char>> {
        if self.symlinks_added > 0 {
            seq![
                (if dry_run {
                    "Would have successfully linked "@
                } else {
                    "Successfully linked "@
                }) + signed_decimal(self.symlinks_added as int) + "/"@ + signed_decimal(
                    self.targets as int,
                ) + " potential entries."@,
                "Symlinks added:   "@ + signed_decimal(self.symlinks_added as int),
                "Symlinks removed: "@ + signed_decimal(self.symlinks_removed as int),
                "Files removed:    "@ + signed_decimal(self.files_removed as int),
            ]
        } else {
            seq![
                (if dry_run {
                    "No entries would have been linked (skipped "@
                } else {
                    "No entries were linked (skipped "@
                }) + signed_decimal(self.targets_skipped as int) + ")."@,
            ]
        }
    }

    /// Fresh counters for a run over `targets` destinations.
    pub fn new(targets: i32) -> (r: Self)
        ensures
            r == LinkStats::zero(targets),
    {
        LinkStats {
            errors: 0,
            targets,
            symlinks_added: 0,
            symlinks_removed: 0,
            files_removed: 0,
            targets_skipped: 0,
        }
    }

    /// The report of the run, line by line. A dry run is reported as what
    /// would have been done.
    pub fn display(&self, dry_run: bool) -> (r: Vec<String>)
        ensures
            texts(r@) == self.report(dry_run),
    {
        let mut lines: Vec<String> = Vec::new();
        if self.symlinks_added > 0 {
            let mut head = if dry_run {
                "Would have successfully linked ".to_owned()
            } else {
                "Successfully linked ".to_owned()
            };
            head.append(int_text(self.symlinks_added as i64).as_str());
            head.append("/");
            head.append(int_text(self.targets as i64).as_str());
            head.append(" potential entries.");
            lines.push(head);
            let mut added = "Symlinks added:   ".to_owned();
            added.append(int_text(self.symlinks_added as i64).as_str());
            lines.push(added);
            let mut removed = "Symlinks removed: ".to_owned();
            removed.append(int_text(self.symlinks_removed as i64).as_str());
            lines.push(removed);
            let mut files = "Files removed:    ".to_owned();
            files.append(int_text(self.files_removed as i64).as_str());
            lines.push(files);
        } else {
            let mut line = if dry_run {
                "No entries would have been linked (skipped ".to_owned()
            } else {
                "No entries were linked (skipped ".to_owned()
            };
            line.append(int_text(self.targets_skipped as i64).as_str());
            line.append(").");
            lines.push(line);
        }
        assert(texts(lines@) =~= self.report(dry_run));
        lines
    }
}

impl UnlinkStats {
    /// The counters before the first of `targets` destinations is considered.
    pub open spec fn zero(targets: i32) -> UnlinkStats {
        UnlinkStats {
            errors: 0,
            targets,
            symlinks_removed: 0,
            files_removed: 0,
            targets_skipped: 0,
        }
    }

    /// Every counter is at most `n`.
    pub open spec fn within(&self, n: int) -> bool {
        &&& 0 <= self.errors <= n
        &&& 0 <= self.symlinks_removed <= n
        &&& 0 <= self.files_removed <= n
        &&& 0 <= self.targets_skipped <= n
    }

    /// The lines of `display`.
    pub open spec fn report(&self, dry_run: bool) -> Seq<Seq<char>> {
        let removed = self.symlinks_removed + self.files_removed;
        if removed > 0 {
            seq![
                (if dry_run {
                    "Would have successfully unlinked "@
                } else {
                    "Successfully unlinked "@
                }) + signed_decimal(removed) + "/"@ + signed_decimal(self.targets as int)
                    + " potential entries."@,
                "Symlinks removed: "@ + signed_decimal(self.symlinks_removed as int),
                "Files removed:    "@ + signed_decimal(self.files_removed as int),
            ]
        } else {
            seq![
                (if dry_run {
                    "No entries would have been unlinked (skipped "@
                } else {
                    "No entries were unlinked (skipped "@
                }) + signed_decimal(self.targets_skipped as int) + ")."@,
            ]
        }
    }

    /// Fresh counters for a run over `targets` destinations.
    pub fn new(targets: i32) -> (r: Self)
        ensures
            r == UnlinkStats::zero(targets),
    {
        UnlinkStats {
            errors: 0,
            targets,
            symlinks_removed: 0,
            files_removed: 0,
            targets_skipped: 0,
        }
    }

    /// The report of the run, line by line. A dry run is reported as what
    /// would have been done.
    pub fn display(&self, dry_run: bool) -> (r: Vec<String>)
        ensures
            texts(r@) == self.report(dry_run),
    {
        let mut lines: Vec<String> = Vec::new();
        let removed: i64 = self.symlinks_removed as i64 + self.files_removed as i64;
        if removed > 0 {
            let mut head = if dry_run {
                "Would have successfully unlinked ".to_owned()
            } else {
                "Successfully unlinked ".to_owned()
            };
            head.append(int_text(removed).as_str());
            head.append("/");
            head.append(int_text(self.targets as i64).as_str());
            head.append(" potential entries.");
            lines.push(head);
            let mut symlinks = "Symlinks removed: ".to_owned();
            symlinks.append(int_text(self.symlinks_removed as i64).as_str());
            lines.push(symlinks);
            let mut files = "Files removed:    ".to_owned();
            files.append(int_text(self.files_removed as i64).as_str());
            lines.push(files);
        } else {
            let mut line = if dry_run {
                "No entries would have been unlinked (skipped ".to_owned()
            } else {
                "No entries were unlinked (skipped ".to_owned()
            };
            line.append(int_text(self.targets_skipped as i64).as_str());
            line.append(").");
            lines.push(line);
        }
        assert(texts(lines@) =~= self.report(dry_run));
        lines
    }
}

impl RelinkStats {
    /// The two passes taken together: what only `link` counts is taken from
    /// it, the number of destinations is that of the `link` pass, and the
    /// other counters are added up.
    pub open spec fn merged(unlink_stats: UnlinkStats, link_stats: LinkStats) -> RelinkStats {
        RelinkStats {
            errors: (unlink_stats.errors + link_stats.errors) as i32,
            targets: link_stats.targets,
            symlinks_added: link_stats.symlinks_added,
            symlinks_removed: (unlink_stats.symlinks_removed + link_stats.symlinks_removed) as i32,
            files_removed: (unlink_stats.files_removed + link_stats.files_removed) as i32,
            targets_skipped: (unlink_stats.targets_skipped + link_stats.targets_skipped) as i32,
        }
    }

    /// Whether each sum that `merged` takes fits its counter.
    pub open spec fn mergeable(unlink_stats: UnlinkStats, link_stats: LinkStats) -> bool {
        &&& i32::MIN <= unlink_stats.errors + link_stats.errors <= i32::MAX
        &&& i32::MIN <= unlink_stats.symlinks_removed + link_stats.symlinks_removed <= i32::MAX
        &&& i32::MIN <= unlink_stats.files_removed + link_stats.files_removed <= i32::MAX
        &&& i32::MIN <= unlink_stats.targets_skipped + link_stats.targets_skipped <= i32::MAX
    }

    /// The counters of a `relink` run from those of its two passes.
    pub fn new(unlink_stats: UnlinkStats, link_stats: LinkStats) -> (r: Self)
        requires
            RelinkStats::mergeable(unlink_stats, link_stats),
        ensures
            r == RelinkStats::merged(unlink_stats, link_stats),
            r.errors == unlink_stats.errors + link_stats.errors,
            r.symlinks_removed == unlink_stats.symlinks_removed + link_stats.symlinks_removed,
            r.files_removed == unlink_stats.files_removed + link_stats.files_removed,
            r.targets_skipped == unlink_stats.targets_skipped + link_stats.targets_skipped,
    {
        RelinkStats {
            errors: unlink_stats.errors + link_stats.errors,
            targets: link_stats.targets,
            symlinks_added: link_stats.symlinks_added,
            symlinks_removed: unlink_stats.symlinks_removed + link_stats.symlinks_removed,
            files_removed: unlink_stats.files_removed + link_stats.files_removed,
            targets_skipped: unlink_stats.targets_skipped + link_stats.targets_skipped,
        }
    }
}

} // verus!
