//! The command line's arguments, as plain values.

use vstd::prelude::*;

verus! {

/// What a `link`, `unlink` or `relink` run was asked to do.
#[derive(Debug, Clone, PartialEq, Eq)]
pub struct DotsLinkArgs {
    /// The dotfiles tree, configuration file or repository to work on.
    pub target: String,
    /// Only sources that match one of these patterns are considered.
    pub includes: Option<Vec<String>>,
    /// Sources that match one of these patterns are left out.
    pub excludes: Option<Vec<String>>,
    /// Replace a tracked symlink that points to the recorded source.
    pub force_correct_symlink: bool,
    /// Replace any tracked symlink.
    pub force_symlink: bool,
    /// Replace any tracked destination, file or symlink.
    pub force_file: bool,
    /// Replace any destination, tracked or not.
    pub force_dangerously: bool,
    /// Show what would be done; change neither the filesystem nor the ledger.
    pub dry_run: bool,
    /// Ask before each destructive action.
    pub interactive: bool,
    /// Report each action.
    pub verbose: bool,
    /// Stop at the first destination that fails, unless the user says otherwise.
    pub bail: bool,
}

/// The arguments of `status`.
#[derive(Debug, Clone, PartialEq, Eq)]
pub struct DotsStatusArgs {
}

/// The arguments of `clean`.
#[derive(Debug, Clone, PartialEq, Eq)]
pub struct DotsCleanArgs {
    /// Show what would be done; change neither the filesystem nor the ledger.
    pub dry_run: bool,
    /// Ask before each destructive action.
    pub interactive: bool,
}

/// The subcommand and its arguments.
#[derive(Debug, Clone, PartialEq, Eq)]
pub enum Commands {
    Link(DotsLinkArgs),
    Unlink(DotsLinkArgs),
    Relink(DotsLinkArgs),
    Status(DotsStatusArgs),
    Clean(DotsCleanArgs),
}

/// The whole command line.
#[derive(Debug, Clone, PartialEq, Eq)]
pub struct Args {
    /// The subcommand.
    pub command: Commands,
    /// The dotfiles location, where it is not the one used before.
    pub dotfiles: Option<String>,
}

impl DotsLinkArgs {
    /// Arguments for `target` with every switch off.
    pub fn new(target: String) -> (r: Self)
        ensures
            r.target == target,
            r.includes is None,
            r.excludes is None,
            !r.force_correct_symlink,
            !r.force_symlink,
            !r.force_file,
            !r.force_dangerously,
            !r.dry_run,
            !r.interactive,
            !r.verbose,
            !r.bail,
    {
        DotsLinkArgs {
            target,
            includes: None,
            excludes: None,
            force_correct_symlink: false,
            force_symlink: false,
            force_file: false,
            force_dangerously: false,
            dry_run: false,
            interactive: false,
            verbose: false,
            bail: false,
        }
    }
}

impl Commands {
    /// Whether the subcommand was asked to leave everything as it is.
    pub open spec fn spec_dry_run(&self) -> bool {
        match self {
            Commands::Link(a) => a.dry_run,
            Commands::Unlink(a) => a.dry_run,
            Commands::Relink(a) => a.dry_run,
            Commands::Status(_) => false,
            Commands::Clean(a) => a.dry_run,
        }
    }

    /// Whether the subcommand was asked to leave everything as it is.
    /// `status` changes nothing and never counts as a dry run.
    pub fn dry_run(&self) -> (r: bool)
        ensures
            r == self.spec_dry_run(),
    {
        match self {
            Commands::Link(a) => a.dry_run,
            Commands::Unlink(a) => a.dry_run,
            Commands::Relink(a) => a.dry_run,
            Commands::Status(_) => false,
            Commands::Clean(a) => a.dry_run,
        }
    }
}

} // verus!
