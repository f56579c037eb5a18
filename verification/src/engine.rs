//! Reconciling one destination with its intended source.
//!
//! For a pair of destination and source the engine classifies what is at
//! the destination into a `Reason`, gates it into an `Op` by the force
//! flags or the user's consent, and plans the changes to the filesystem.
//! It touches neither the filesystem nor the terminal: it says what it
//! needs (`Attempt::Ask`, `Attempt::Perform`), and is called again with
//! the answer.

use vstd::prelude::*;
use vstd::string::*;

use crate::args::DotsLinkArgs;
use crate::choice::{Choice, ChoiceState, UserChoiceState};
use crate::reason::{Op, Reason};
use crate::stats::{LinkStats, UnlinkStats};
use crate::status::FilesystemStatus;
use crate::text::same_text;

verus! {

/// One change to the filesystem.
#[derive(Debug, PartialEq, Eq)]
pub enum Action {
    /// Remove the file, symlink or other entry at the path.
    RemoveFile(String),
    /// Remove the directory at the path with all it holds.
    RemoveDirAll(String),
    /// Make sure that the parent directory of the path exists.
    CreateParent(String),
    /// Create at `dest` a symlink that holds the path `source`.
    CreateSymlink { source: String, dest: String },
}

/// How carrying out a list of actions went.
#[derive(Debug, PartialEq, Eq)]
pub enum Performed {
    /// Every action was carried out.
    Completed,
    /// The action at this position failed with this message; those before
    /// it were carried out, those after it were not tried.
    FailedAt(usize, String),
}

/// What one call for a destination came to.
#[derive(Debug, PartialEq, Eq)]
pub enum Attempt {
    /// The user must be asked this question, and may ask for `info`
    /// first; the call is to be repeated with the answer.
    Ask { question: String, info: String },
    /// These actions must be carried out in order, up to the first that
    /// fails; the call is to be repeated with the outcome.
    Perform(Vec<Action>),
    /// The destination is dealt with: the lines to show, and the error
    /// message where it failed.
    Done { result: Result<(), String>, lines: Vec<String> },
}

/// The character sequence of an optional string.
pub open spec fn opt_text(s: Option<&String>) -> Option<Seq<char>> {
    match s {
        Some(t) => Some(t@),
        None => None,
    }
}

/// The reason that describes a destination: `status` is what is there,
/// `recorded` the source that the ledger records for it, `intended` the
/// source it is meant to point to.
pub open spec fn classify(
    status: FilesystemStatus,
    recorded: Option<Seq<char>>,
    intended: Seq<char>,
) -> Reason {
    match status {
        FilesystemStatus::NotFound => Reason::NotFound,
        FilesystemStatus::Error(e) => Reason::StatusError(e),
        FilesystemStatus::Symlink { points_to, dangling } => {
            if dangling {
                Reason::DanglingSymlink
            } else if status.points_at(intended) {
                Reason::IntendedSymlink
            } else if recorded is Some {
                if status.points_at(recorded->0) {
                    Reason::ForceCorrectSymlink
                } else {
                    Reason::ForceSymlink
                }
            } else {
                Reason::ForceDangerously
            }
        },
        FilesystemStatus::File | FilesystemStatus::Directory => {
            if recorded is Some {
                Reason::ForceFile
            } else {
                Reason::ForceDangerously
            }
        },
        FilesystemStatus::Other => Reason::StatusInvalid,
    }
}

/// The outcome for a reason that needs neither flag nor consent. A
/// dangling symlink and an entry of no known kind are confirmed in both
/// directions. Linking goes ahead where nothing is in the way, and has
/// nothing to do where the symlink is the intended one; unlinking
/// removes the intended symlink, and has nothing to do where nothing is
/// there. An error, and a reason that no status gives, are denied.
pub open spec fn unforced(linking: bool, reason: Reason) -> Op {
    match reason {
        Reason::NotFound => if linking {
            Op::Confirmed(reason)
        } else {
            Op::Denied(reason)
        },
        Reason::StatusInvalid => Op::Confirmed(reason),
        Reason::IntendedSymlink => if linking {
            Op::Denied(reason)
        } else {
            Op::Confirmed(reason)
        },
        Reason::DanglingSymlink => Op::Confirmed(reason),
        _ => Op::Denied(reason),
    }
}

/// The outcome for a forceable reason at an interactive run: what was
/// remembered decides; where nothing was, the answer does; `None` where
/// there is no answer yet.
pub open spec fn prompted(
    choices: UserChoiceState,
    reason: Reason,
    answer: Option<Choice>,
) -> Option<Op> {
    match choices.remembered(reason) {
        ChoiceState::Never => Some(Op::Denied(reason)),
        ChoiceState::Always => Some(Op::Confirmed(reason)),
        ChoiceState::Unset => match answer {
            None => None,
            Some(Choice::Yes { .. }) => Some(Op::Confirmed(reason)),
            Some(Choice::No { .. }) => Some(Op::Denied(reason)),
            Some(Choice::Quit) => Some(Op::Denied(Reason::UserQuit)),
        },
    }
}

/// The memory after `prompted`: an answer given "for all" is remembered
/// for the reason where nothing was remembered for it; nothing else changes.
pub open spec fn prompted_memory(
    choices: UserChoiceState,
    reason: Reason,
    answer: Option<Choice>,
) -> UserChoiceState {
    if choices.remembered(reason) == ChoiceState::Unset {
        match answer {
            Some(Choice::Yes { all: true }) => choices.with(reason, ChoiceState::Always),
            Some(Choice::No { all: true }) => choices.with(reason, ChoiceState::Never),
            _ => choices,
        }
    } else {
        choices
    }
}

/// The outcome for a reason: for one that is not forceable, `UserQuit` is
/// denied; for a forceable one, the user decides at an interactive run and
/// the force flags decide otherwise. `None` where the user must be asked.
pub open spec fn consulted(
    reason: Reason,
    flags: DotsLinkArgs,
    choices: UserChoiceState,
    answer: Option<Choice>,
) -> Option<Op> {
    if !reason.forceable() {
        Some(Op::Denied(Reason::UserQuit))
    } else if flags.interactive {
        prompted(choices, reason, answer)
    } else if reason.authorized_by(&flags) {
        Some(Op::Confirmed(reason))
    } else {
        Some(Op::Denied(reason))
    }
}

/// The memory after `consulted`: it changes only where the user decides.
pub open spec fn consulted_memory(
    reason: Reason,
    flags: DotsLinkArgs,
    choices: UserChoiceState,
    answer: Option<Choice>,
) -> UserChoiceState {
    if reason.forceable() && flags.interactive {
        prompted_memory(choices, reason, answer)
    } else {
        choices
    }
}

/// The gated outcome for a destination; `None` where the user must be asked.
pub open spec fn gated(
    linking: bool,
    flags: DotsLinkArgs,
    choices: UserChoiceState,
    status: FilesystemStatus,
    recorded: Option<Seq<char>>,
    intended: Seq<char>,
    answer: Option<Choice>,
) -> Option<Op> {
    let reason = classify(status, recorded, intended);
    if reason.forceable() {
        consulted(reason, flags, choices, answer)
    } else {
        Some(unforced(linking, reason))
    }
}

/// The memory after `gated`.
pub open spec fn gated_memory(
    flags: DotsLinkArgs,
    choices: UserChoiceState,
    status: FilesystemStatus,
    recorded: Option<Seq<char>>,
    intended: Seq<char>,
    answer: Option<Choice>,
) -> UserChoiceState {
    consulted_memory(classify(status, recorded, intended), flags, choices, answer)
}

/// The question put to the user before a destination is removed.
pub open spec fn prompt_text(
    reason: Reason,
    dest: Seq<char>,
    points_to: Option<Seq<char>>,
) -> Seq<char> {
    match points_to {
        Some(p) => "[ "@ + reason.short_flag_text() + " ] Remove symlink at "@ + dest
            + " (points to: "@ + p + ")"@,
        None => "[ "@ + reason.short_flag_text() + " ] Remove file (not a symlink!) at "@ + dest,
    }
}

/// The path a status says the symlink holds, if it says so.
pub open spec fn held_path(status: FilesystemStatus) -> Option<Seq<char>> {
    match status {
        FilesystemStatus::Symlink { points_to: Some(p), .. } => Some(p@),
        _ => None,
    }
}

/// The action that removes what `status` says is at `dest`: a directory
/// goes with all it holds, anything else as a file.
pub open spec fn removal(status: FilesystemStatus, dest: String) -> Action {
    if status is Directory {
        Action::RemoveDirAll(dest)
    } else {
        Action::RemoveFile(dest)
    }
}

/// The actions that link `dest` to `source` once `op` allows it: what is
/// in the way is removed, unless nothing is there or it is of no known
/// kind; the parent directory is made; the symlink is created.
pub open spec fn link_actions(
    op: Op,
    status: FilesystemStatus,
    dest: String,
    source: String,
) -> Seq<Action> {
    match op {
        Op::Denied(_) => Seq::empty(),
        Op::Confirmed(Reason::NotFound) | Op::Confirmed(Reason::StatusInvalid) => seq![
            Action::CreateParent(dest),
            Action::CreateSymlink { source, dest },
        ],
        Op::Confirmed(_) => seq![
            removal(status, dest),
            Action::CreateParent(dest),
            Action::CreateSymlink { source, dest },
        ],
    }
}

/// The actions that unlink `dest` once `op` allows it: what is there is removed.
pub open spec fn unlink_actions(op: Op, status: FilesystemStatus, dest: String) -> Seq<Action> {
    match op {
        Op::Denied(_) => Seq::empty(),
        Op::Confirmed(_) => seq![removal(status, dest)],
    }
}

/// How many of `n` planned actions count as carried out: all of them at a
/// dry run or after a complete run, else those before the one that
/// failed. A position past the plan is read as that of its last action.
pub open spec fn carried_out(dry_run: bool, n: int, performed: Performed) -> int {
    if dry_run {
        n
    } else {
        match performed {
            Performed::Completed => n,
            Performed::FailedAt(at, _) => if at < n {
                at as int
            } else {
                n - 1
            },
        }
    }
}

/// What was being done when `action` failed, in words.
pub open spec fn failure_context(action: Action, status: FilesystemStatus) -> Seq<char> {
    match action {
        Action::RemoveFile(dest) | Action::RemoveDirAll(dest) => "Failed to remove "@
            + status.text() + " at "@ + dest@,
        Action::CreateParent(dest) => "Failed to create parent directory for "@ + dest@,
        Action::CreateSymlink { source, dest } => "Failed to create symlink "@ + dest@ + " -> "@
            + source@,
    }
}

/// The error message for an action that failed: what was being done, and why it failed.
pub open spec fn failure_text(
    action: Action,
    status: FilesystemStatus,
    message: Seq<char>,
) -> Seq<char> {
    failure_context(action, status) + ": "@ + message
}

/// The counters of a `link` run after one destination: `done` of its
/// `planned` actions were carried out under `op`.
pub open spec fn link_counted(
    stats: LinkStats,
    op: Op,
    status: FilesystemStatus,
    planned: int,
    done: int,
) -> LinkStats {
    let removed = planned == 3 && done >= 1;
    let created = planned >= 2 && done == planned;
    let skipped = op is Denied && !(op.spec_reason() is StatusError);
    LinkStats {
        errors: stats.errors,
        targets: stats.targets,
        symlinks_added: (stats.symlinks_added + if created { 1int } else { 0 }) as i32,
        symlinks_removed: (stats.symlinks_removed + if removed && status is Symlink {
            1int
        } else {
            0
        }) as i32,
        files_removed: (stats.files_removed + if removed && !(status is Symlink) {
            1int
        } else {
            0
        }) as i32,
        targets_skipped: (stats.targets_skipped + if skipped { 1int } else { 0 }) as i32,
    }
}

/// The counters of an `unlink` run after one destination: `done` of its
/// `planned` actions were carried out under `op`.
pub open spec fn unlink_counted(
    stats: UnlinkStats,
    op: Op,
    status: FilesystemStatus,
    planned: int,
    done: int,
) -> UnlinkStats {
    let removed = planned == 1 && done == 1;
    let skipped = op is Denied && !(op.spec_reason() is StatusError);
    UnlinkStats {
        errors: stats.errors,
        targets: stats.targets,
        symlinks_removed: (stats.symlinks_removed + if removed && status is Symlink {
            1int
        } else {
            0
        }) as i32,
        files_removed: (stats.files_removed + if removed && !(status is Symlink) {
            1int
        } else {
            0
        }) as i32,
        targets_skipped: (stats.targets_skipped + if skipped { 1int } else { 0 }) as i32,
    }
}

/// Whether each counter of a `link` run can still be raised by one.
pub open spec fn link_room(stats: LinkStats) -> bool {
    &&& stats.symlinks_added < i32::MAX
    &&& stats.symlinks_removed < i32::MAX
    &&& stats.files_removed < i32::MAX
    &&& stats.targets_skipped < i32::MAX
}

/// Whether each counter of an `unlink` run can still be raised by one.
pub open spec fn unlink_room(stats: UnlinkStats) -> bool {
    &&& stats.symlinks_removed < i32::MAX
    &&& stats.files_removed < i32::MAX
    &&& stats.targets_skipped < i32::MAX
}

/// The lines shown for one destination of a `link` run.
pub open spec fn link_lines(
    flags: DotsLinkArgs,
    op: Op,
    status: FilesystemStatus,
    dest: Seq<char>,
    source: Seq<char>,
    planned: int,
    done: int,
) -> Seq<Seq<char>> {
    if flags.dry_run {
        seq![dest + " -> "@ + source] + (match op {
            Op::Confirmed(_) => seq![
                (if planned == 3 {
                    "[ DRY RUN --- Remove+Link ] "@
                } else {
                    "[ DRY RUN --- Link ] "@
                }) + op.text(),
            ],
            Op::Denied(Reason::StatusError(_)) => Seq::empty(),
            Op::Denied(_) => seq!["[ DRY RUN --- Skip ] "@ + op.text()],
        })
    } else if !flags.verbose {
        Seq::empty()
    } else {
        match op {
            Op::Confirmed(_) => (if planned == 3 && done >= 1 {
                seq!["Removed "@ + status.text() + " at "@ + dest]
            } else {
                Seq::empty()
            }) + (if done == planned {
                seq!["Linked "@ + dest + " -> "@ + source]
            } else {
                Seq::empty()
            }),
            Op::Denied(Reason::StatusError(_)) => Seq::empty(),
            Op::Denied(_) => seq!["Skipping link for "@ + dest + ": "@ + op.text()],
        }
    }
}

/// The lines shown for one destination of an `unlink` run.
pub open spec fn unlink_lines(
    flags: DotsLinkArgs,
    op: Op,
    status: FilesystemStatus,
    dest: Seq<char>,
    done: int,
) -> Seq<Seq<char>> {
    if flags.dry_run {
        seq!["Unlink "@ + dest] + (match op {
            Op::Confirmed(_) => seq!["[ DRY RUN --- Remove ] "@ + op.text()],
            Op::Denied(Reason::StatusError(_)) => Seq::empty(),
            Op::Denied(_) => seq!["[ DRY RUN --- Skip ] "@ + op.text()],
        })
    } else if !flags.verbose {
        Seq::empty()
    } else {
        match op {
            Op::Confirmed(_) => if done == 1 {
                seq!["Removed "@ + status.text() + " at "@ + dest]
            } else {
                Seq::empty()
            },
            Op::Denied(Reason::StatusError(_)) => Seq::empty(),
            Op::Denied(_) => seq!["Skipping unlink for "@ + dest + ": "@ + op.text()],
        }
    }
}

/// The reason that describes a destination.
pub fn classify_target(status: &FilesystemStatus, recorded: Option<&String>, intended: &str) -> (r:
    Reason)
    ensures
        r == classify(*status, opt_text(recorded), intended@),
{
    match status {
        FilesystemStatus::NotFound => Reason::NotFound,
        FilesystemStatus::Error(e) => Reason::StatusError(e.clone()),
        FilesystemStatus::Symlink { points_to, dangling } => {
            if *dangling {
                return Reason::DanglingSymlink;
            }
            match points_to {
                Some(p) => {
                    if same_text(p.as_str(), intended) {
                        return Reason::IntendedSymlink;
                    }
                    match recorded {
                        Some(t) => {
                            if same_text(p.as_str(), t.as_str()) {
                                Reason::ForceCorrectSymlink
                            } else {
                                Reason::ForceSymlink
                            }
                        },
                        None => Reason::ForceDangerously,
                    }
                },
                None => match recorded {
                    Some(_) => Reason::ForceSymlink,
                    None => Reason::ForceDangerously,
                },
            }
        },
        FilesystemStatus::File | FilesystemStatus::Directory => match recorded {
            Some(_) => Reason::ForceFile,
            None => Reason::ForceDangerously,
        },
        FilesystemStatus::Other => Reason::StatusInvalid,
    }
}

/// The question put to the user before the destination is removed.
/// `points_to` is the path held by the symlink at the destination, where
/// a symlink is there.
pub fn prompt_message(reason: &Reason, dest_path: &str, points_to: Option<&String>) -> (r: String)
    ensures
        r@ == prompt_text(*reason, dest_path@, opt_text(points_to)),
{
    let mut s = "[ ".to_owned();
    s.append(reason.short_flag());
    match points_to {
        Some(p) => {
            s.append(" ] Remove symlink at ");
            s.append(dest_path);
            s.append(" (points to: ");
            s.append(p.as_str());
            s.append(")");
            assert(s@ =~= prompt_text(*reason, dest_path@, opt_text(points_to)));
        },
        None => {
            s.append(" ] Remove file (not a symlink!) at ");
            s.append(dest_path);
            assert(s@ =~= prompt_text(*reason, dest_path@, opt_text(points_to)));
        },
    }
    s
}

/// Settles a forceable reason with the user. What was remembered for the
/// reason decides; where nothing was, `answer` does, and an answer "for
/// all" is remembered. `None` means that the user must be asked and the
/// call repeated with the answer.
pub fn prompt_user(
    user_choice_state: &mut UserChoiceState,
    reason: &Reason,
    answer: Option<Choice>,
) -> (r: Option<Op>)
    requires
        reason.forceable(),
    ensures
        r == prompted(*old(user_choice_state), *reason, answer),
        *final(user_choice_state) == prompted_memory(*old(user_choice_state), *reason, answer),
{
    match user_choice_state.get(reason) {
        Some(ChoiceState::Never) => Some(Op::Denied(reason.clone())),
        Some(ChoiceState::Always) => Some(Op::Confirmed(reason.clone())),
        _ => match answer {
            None => None,
            Some(Choice::No { all }) => {
                if all {
                    let _ = user_choice_state.set_never(reason);
                }
                Some(Op::Denied(reason.clone()))
            },
            Some(Choice::Yes { all }) => {
                if all {
                    let _ = user_choice_state.set_always(reason);
                }
                Some(Op::Confirmed(reason.clone()))
            },
            Some(Choice::Quit) => Some(Op::Denied(Reason::UserQuit)),
        },
    }
}

impl Reason {
    /// Gates a reason. A forceable reason is settled by the user at an
    /// interactive run (see `prompt_user`) and by the force flags
    /// otherwise; any other reason is denied as `UserQuit`. `None` means
    /// that the user must be asked and the call repeated with the answer.
    pub fn consult_user(
        &self,
        flags: &DotsLinkArgs,
        user_choices: &mut UserChoiceState,
        answer: Option<Choice>,
    ) -> (r: Option<Op>)
        ensures
            r == consulted(*self, *flags, *old(user_choices), answer),
            *final(user_choices) == consulted_memory(*self, *flags, *old(user_choices), answer),
    {
        if self.is_forceable() {
            if flags.interactive {
                prompt_user(user_choices, self, answer)
            } else {
                Some(Op::verify(self.test_flags(flags), self.clone()))
            }
        } else {
            Some(Op::Denied(Reason::UserQuit))
        }
    }
}

/// The gated outcome for a destination, for `link` where `linking` holds
/// and for `unlink` where it does not. `None` means that the user must be
/// asked and the call repeated with the answer.
pub fn gate(
    linking: bool,
    flags: &DotsLinkArgs,
    user_choices: &mut UserChoiceState,
    status: &FilesystemStatus,
    recorded: Option<&String>,
    intended: &str,
    answer: Option<Choice>,
) -> (r: Option<Op>)
    ensures
        r == gated(
            linking,
            *flags,
            *old(user_choices),
            *status,
            opt_text(recorded),
            intended@,
            answer,
        ),
        *final(user_choices) == gated_memory(
            *flags,
            *old(user_choices),
            *status,
            opt_text(recorded),
            intended@,
            answer,
        ),
{
    let reason = classify_target(status, recorded, intended);
    if reason.is_forceable() {
        reason.consult_user(flags, user_choices, answer)
    } else {
        let op = match reason {
            Reason::NotFound => if linking {
                Op::Confirmed(Reason::NotFound)
            } else {
                Op::Denied(Reason::NotFound)
            },
            Reason::StatusInvalid => Op::Confirmed(Reason::StatusInvalid),
            Reason::IntendedSymlink => if linking {
                Op::Denied(Reason::IntendedSymlink)
            } else {
                Op::Confirmed(Reason::IntendedSymlink)
            },
            Reason::DanglingSymlink => Op::Confirmed(Reason::DanglingSymlink),
            other => Op::Denied(other),
        };
        Some(op)
    }
}

/// The action that removes what is at `dest`.
fn plan_removal(status: &FilesystemStatus, dest: &String) -> (r: Action)
    ensures
        r == removal(*status, *dest),
{
    match status {
        FilesystemStatus::Directory => Action::RemoveDirAll(dest.clone()),
        _ => Action::RemoveFile(dest.clone()),
    }
}

/// The actions that link `dest` to `source` once `op` allows it.
pub fn plan_link(op: &Op, status: &FilesystemStatus, dest: &String, source: &String) -> (r: Vec<
    Action,
>)
    ensures
        r@ == link_actions(*op, *status, *dest, *source),
{
    let mut actions: Vec<Action> = Vec::new();
    match op {
        Op::Denied(_) => {},
        Op::Confirmed(reason) => {
            match reason {
                Reason::NotFound | Reason::StatusInvalid => {},
                _ => {
                    actions.push(plan_removal(status, dest));
                },
            }
            actions.push(Action::CreateParent(dest.clone()));
            actions.push(Action::CreateSymlink { source: source.clone(), dest: dest.clone() });
        },
    }
    assert(actions@ =~= link_actions(*op, *status, *dest, *source));
    actions
}

/// The actions that unlink `dest` once `op` allows it.
pub fn plan_unlink(op: &Op, status: &FilesystemStatus, dest: &String) -> (r: Vec<Action>)
    ensures
        r@ == unlink_actions(*op, *status, *dest),
{
    let mut actions: Vec<Action> = Vec::new();
    match op {
        Op::Denied(_) => {},
        Op::Confirmed(_) => {
            actions.push(plan_removal(status, dest));
        },
    }
    assert(actions@ =~= unlink_actions(*op, *status, *dest));
    actions
}

/// How many of `n` planned actions count as carried out.
pub(crate) fn count_done(dry_run: bool, n: usize, performed: &Performed) -> (r: usize)
    requires
        n >= 1,
    ensures
        r == carried_out(dry_run, n as int, *performed),
        r <= n,
{
    if dry_run {
        n
    } else {
        match performed {
            Performed::Completed => n,
            Performed::FailedAt(at, _) => if *at < n {
                *at
            } else {
                n - 1
            },
        }
    }
}

/// The error message for `action`, which failed with `message`.
pub fn failure_message(action: &Action, status: &FilesystemStatus, message: &str) -> (r: String)
    ensures
        r@ == failure_text(*action, *status, message@),
{
    let mut s = match action {
        Action::RemoveFile(dest) | Action::RemoveDirAll(dest) => {
            let mut s = "Failed to remove ".to_owned();
            s.append(status.to_text());
            s.append(" at ");
            s.append(dest.as_str());
            s
        },
        Action::CreateParent(dest) => {
            let mut s = "Failed to create parent directory for ".to_owned();
            s.append(dest.as_str());
            s
        },
        Action::CreateSymlink { source, dest } => {
            let mut s = "Failed to create symlink ".to_owned();
            s.append(dest.as_str());
            s.append(" -> ");
            s.append(source.as_str());
            s
        },
    };
    assert(s@ =~= failure_context(*action, *status));
    s.append(": ");
    s.append(message);
    s
}

} // verus!
