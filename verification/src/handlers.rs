//! One destination of a `link` or an `unlink` run, from its status to
//! the counters and the ledger.

use vstd::prelude::*;
use vstd::string::*;

use crate::args::DotsLinkArgs;
use crate::choice::{Choice, UserChoiceState};
use crate::dots::Dots;
use crate::engine::{
    carried_out, classify, classify_target, count_done, failure_message, failure_text, gate,
    gated, gated_memory, held_path, link_actions, link_counted, link_lines, link_room, opt_text,
    plan_link, plan_unlink, prompt_message, prompt_text, unlink_actions, unlink_counted,
    unlink_lines, unlink_room, Action, Attempt, Performed,
};
use crate::reason::{Op, Reason};
use crate::stats::{LinkStats, UnlinkStats};
use crate::status::FilesystemStatus;
use crate::strmap::{pairs_insert, pairs_map, pairs_remove, Pair};
use crate::text::texts;
use crate::trackfile::Trackfile;

verus! {

/// The source that the ledger `pairs` records for `dest`, if any.
pub open spec fn recorded_source(pairs: Seq<Pair>, dest: Seq<char>) -> Option<Seq<char>> {
    if pairs_map(pairs).contains_key(dest) {
        Some(pairs_map(pairs)[dest])
    } else {
        None
    }
}

/// What an `Attempt` holds, with its texts as character sequences.
pub enum AttemptModel {
    Ask { question: Seq<char>, info: Seq<char> },
    Perform(Seq<Action>),
    Done { result: Result<(), Seq<char>>, lines: Seq<Seq<char>> },
}

impl View for Attempt {
    type V = AttemptModel;

    open spec fn view(&self) -> AttemptModel {
        match self {
            Attempt::Ask { question, info } => AttemptModel::Ask {
                question: question@,
                info: info@,
            },
            Attempt::Perform(actions) => AttemptModel::Perform(actions@),
            Attempt::Done { result, lines } => AttemptModel::Done {
                result: match result {
                    Ok(_) => Ok(()),
                    Err(m) => Err(m@),
                },
                lines: texts(lines@),
            },
        }
    }
}

/// What a call for one destination comes to, and what it leaves: the
/// ledger's pairs, whether the ledger is changed, the counters and the
/// memory of answers.
pub struct Turn<S> {
    pub attempt: AttemptModel,
    pub ledger: Seq<Pair>,
    pub dirty: bool,
    pub stats: S,
    pub choices: UserChoiceState,
}

/// The outcome of carrying out a plan, where none was reported: a complete one.
pub open spec fn outcome_or_complete(performed: Option<Performed>) -> Performed {
    match performed {
        Some(p) => p,
        None => Performed::Completed,
    }
}

/// The outcome that a reference to it stands for.
pub open spec fn outcome_of(performed: Option<&Performed>) -> Option<Performed> {
    match performed {
        Some(p) => Some(*p),
        None => None,
    }
}

/// The result for a destination: a denial for a status error fails with
/// the error's message; any other denial succeeds; a confirmed operation
/// succeeds where every action was carried out, and fails with the
/// message of the action that failed.
pub open spec fn attempt_result(
    op: Op,
    status: FilesystemStatus,
    actions: Seq<Action>,
    done: int,
    performed: Performed,
) -> Result<(), Seq<char>> {
    match op {
        Op::Denied(Reason::StatusError(e)) => Err(e@),
        Op::Denied(_) => Ok(()),
        Op::Confirmed(_) => if done == actions.len() {
            Ok(())
        } else {
            match performed {
                Performed::FailedAt(_, cause) => Err(failure_text(actions[done], status, cause@)),
                Performed::Completed => Err(Seq::empty()),
            }
        },
    }
}

/// What a call of `try_perform_link` comes to.
///
/// Where the user must be asked, the call asks and changes nothing. A
/// confirmed operation that is no dry run and has no outcome yet asks for
/// its actions to be carried out and changes nothing but the memory of
/// answers. Otherwise the destination is dealt with: the counters are
/// raised, at a dry run as if every action had been carried out; the pair
/// is recorded in the ledger where the symlink was created and the run is
/// no dry run.
pub open spec fn link_turn(
    args: DotsLinkArgs,
    choices: UserChoiceState,
    ledger: Seq<Pair>,
    dirty: bool,
    stats: LinkStats,
    dest: String,
    source: String,
    status: FilesystemStatus,
    answer: Option<Choice>,
    performed: Option<Performed>,
) -> Turn<LinkStats> {
    let recorded = recorded_source(ledger, dest@);
    let reason = classify(status, recorded, source@);
    let memory = gated_memory(args, choices, status, recorded, source@, answer);
    match gated(true, args, choices, status, recorded, source@, answer) {
        None => Turn {
            attempt: AttemptModel::Ask {
                question: prompt_text(reason, dest@, held_path(status)),
                info: reason.info_text(),
            },
            ledger,
            dirty,
            stats,
            choices: memory,
        },
        Some(op) => {
            let actions = link_actions(op, status, dest, source);
            if op is Confirmed && !args.dry_run && performed is None {
                Turn {
                    attempt: AttemptModel::Perform(actions),
                    ledger,
                    dirty,
                    stats,
                    choices: memory,
                }
            } else {
                let outcome = outcome_or_complete(performed);
                let done = if op is Confirmed {
                    carried_out(args.dry_run, actions.len() as int, outcome)
                } else {
                    0
                };
                let created = op is Confirmed && done == actions.len() && !args.dry_run;
                Turn {
                    attempt: AttemptModel::Done {
                        result: attempt_result(op, status, actions, done, outcome),
                        lines: link_lines(
                            args,
                            op,
                            status,
                            dest@,
                            source@,
                            actions.len() as int,
                            done,
                        ),
                    },
                    ledger: if created {
                        pairs_insert(ledger, dest@, source@)
                    } else {
                        ledger
                    },
                    dirty: dirty || created,
                    stats: link_counted(stats, op, status, actions.len() as int, done),
                    choices: memory,
                }
            }
        },
    }
}

/// What a call of `try_perform_unlink` comes to: as for `link_turn`, but
/// the only action is the removal, and the destination is taken out of
/// the ledger where it was removed and the run is no dry run.
pub open spec fn unlink_turn(
    args: DotsLinkArgs,
    choices: UserChoiceState,
    ledger: Seq<Pair>,
    dirty: bool,
    stats: UnlinkStats,
    dest: String,
    source: String,
    status: FilesystemStatus,
    answer: Option<Choice>,
    performed: Option<Performed>,
) -> Turn<UnlinkStats> {
    let recorded = recorded_source(ledger, dest@);
    let reason = classify(status, recorded, source@);
    let memory = gated_memory(args, choices, status, recorded, source@, answer);
    match gated(false, args, choices, status, recorded, source@, answer) {
        None => Turn {
            attempt: AttemptModel::Ask {
                question: prompt_text(reason, dest@, held_path(status)),
                info: reason.info_text(),
            },
            ledger,
            dirty,
            stats,
            choices: memory,
        },
        Some(op) => {
            let actions = unlink_actions(op, status, dest);
            if op is Confirmed && !args.dry_run && performed is None {
                Turn {
                    attempt: AttemptModel::Perform(actions),
                    ledger,
                    dirty,
                    stats,
                    choices: memory,
                }
            } else {
                let outcome = outcome_or_complete(performed);
                let done = if op is Confirmed {
                    carried_out(args.dry_run, actions.len() as int, outcome)
                } else {
                    0
                };
                let erased = op is Confirmed && done == actions.len() && !args.dry_run;
                Turn {
                    attempt: AttemptModel::Done {
                        result: attempt_result(op, status, actions, done, outcome),
                        lines: unlink_lines(args, op, status, dest@, done),
                    },
                    ledger: if erased {
                        pairs_remove(ledger, dest@)
                    } else {
                        ledger
                    },
                    dirty: dirty || (erased && pairs_map(ledger).contains_key(dest@)),
                    stats: unlink_counted(stats, op, status, actions.len() as int, done),
                    choices: memory,
                }
            }
        },
    }
}

/// The lines shown for one destination of a `link` run.
fn link_report(
    args: &DotsLinkArgs,
    op: &Op,
    status: &FilesystemStatus,
    dest: &str,
    source: &str,
    planned: usize,
    done: usize,
) -> (lines: Vec<String>)
    ensures
        texts(lines@) == link_lines(*args, *op, *status, dest@, source@, planned as int, done as int),
{
    let mut lines: Vec<String> = Vec::new();
    if args.dry_run {
        let mut head = dest.to_owned();
        head.append(" -> ");
        head.append(source);
        lines.push(head);
        match op {
            Op::Confirmed(_) => {
                let mut s = if planned == 3 {
                    "[ DRY RUN --- Remove+Link ] ".to_owned()
                } else {
                    "[ DRY RUN --- Link ] ".to_owned()
                };
                s.append(op.to_text().as_str());
                lines.push(s);
            },
            Op::Denied(Reason::StatusError(_)) => {},
            Op::Denied(_) => {
                let mut s = "[ DRY RUN --- Skip ] ".to_owned();
                s.append(op.to_text().as_str());
                lines.push(s);
            },
        }
    } else if args.verbose {
        match op {
            Op::Confirmed(_) => {
                if planned == 3 && done >= 1 {
                    let mut s = "Removed ".to_owned();
                    s.append(status.to_text());
                    s.append(" at ");
                    s.append(dest);
                    lines.push(s);
                }
                if done == planned {
                    let mut s = "Linked ".to_owned();
                    s.append(dest);
                    s.append(" -> ");
                    s.append(source);
                    lines.push(s);
                }
            },
            Op::Denied(Reason::StatusError(_)) => {},
            Op::Denied(_) => {
                let mut s = "Skipping link for ".to_owned();
                s.append(dest);
                s.append(": ");
                s.append(op.to_text().as_str());
                lines.push(s);
            },
        }
    }
    assert(texts(lines@) =~= link_lines(
        *args,
        *op,
        *status,
        dest@,
        source@,
        planned as int,
        done as int,
    ));
    lines
}

/// The lines shown for one destination of an `unlink` run.
fn unlink_report(
    args: &DotsLinkArgs,
    op: &Op,
    status: &FilesystemStatus,
    dest: &str,
    done: usize,
) -> (lines: Vec<String>)
    ensures
        texts(lines@) == unlink_lines(*args, *op, *status, dest@, done as int),
{
    let mut lines: Vec<String> = Vec::new();
    if args.dry_run {
        let mut head = "Unlink ".to_owned();
        head.append(dest);
        lines.push(head);
        match op {
            Op::Confirmed(_) => {
                let mut s = "[ DRY RUN --- Remove ] ".to_owned();
                s.append(op.to_text().as_str());
                lines.push(s);
            },
            Op::Denied(Reason::StatusError(_)) => {},
            Op::Denied(_) => {
                let mut s = "[ DRY RUN --- Skip ] ".to_owned();
                s.append(op.to_text().as_str());
                lines.push(s);
            },
        }
    } else if args.verbose {
        match op {
            Op::Confirmed(_) => {
                if done == 1 {
                    let mut s = "Removed ".to_owned();
                    s.append(status.to_text());
                    s.append(" at ");
                    s.append(dest);
                    lines.push(s);
                }
            },
            Op::Denied(Reason::StatusError(_)) => {},
            Op::Denied(_) => {
                let mut s = "Skipping unlink for ".to_owned();
                s.append(dest);
                s.append(": ");
                s.append(op.to_text().as_str());
                lines.push(s);
            },
        }
    }
    assert(texts(lines@) =~= unlink_lines(*args, *op, *status, dest@, done as int));
    lines
}

/// The path that the symlink at the destination holds, where the status says so.
fn held(status: &FilesystemStatus) -> (r: Option<&String>)
    ensures
        opt_text(r) == held_path(*status),
{
    match status {
        FilesystemStatus::Symlink { points_to: Some(p), .. } => Some(p),
        _ => None,
    }
}

impl Dots {
    /// Deals with one destination of a `link` run.
    ///
    /// `status` is what is at `target_dest`; `answer` is the user's answer
    /// where the user was asked for this destination; `performed` says how
    /// carrying out the plan went, where it was carried out. The call comes
    /// to `Attempt::Ask` where the user must be asked first, to
    /// `Attempt::Perform` where the plan must be carried out first, and is
    /// then repeated with what was learnt. It comes to `Attempt::Done` once,
    /// and only then are counters and ledger changed.
    pub fn try_perform_link(
        state: &mut Trackfile,
        args: &DotsLinkArgs,
        stats: &mut LinkStats,
        user_choices: &mut UserChoiceState,
        target_dest: &String,
        target_source: &String,
        status: &FilesystemStatus,
        answer: Option<Choice>,
        performed: Option<&Performed>,
    ) -> (r: Attempt)
        requires
            old(state).wf(),
            link_room(*old(stats)),
        ensures
            final(state).wf(),
            (Turn {
                attempt: r@,
                ledger: final(state).content(),
                dirty: final(state).dirty(),
                stats: *final(stats),
                choices: *final(user_choices),
            }) == link_turn(
                *args,
                *old(user_choices),
                old(state).content(),
                old(state).dirty(),
                *old(stats),
                *target_dest,
                *target_source,
                *status,
                answer,
                outcome_of(performed),
            ),
    {
        let gate_result = {
            let recorded = state.get_source(target_dest.as_str());
            gate(true, args, user_choices, status, recorded, target_source.as_str(), answer)
        };
        let op = match gate_result {
            None => {
                let reason = {
                    let recorded = state.get_source(target_dest.as_str());
                    classify_target(status, recorded, target_source.as_str())
                };
                return Attempt::Ask {
                    question: prompt_message(&reason, target_dest.as_str(), held(status)),
                    info: reason.info(),
                };
            },
            Some(op) => op,
        };
        let actions = plan_link(&op, status, target_dest, target_source);
        let planned = actions.len();
        match &op {
            Op::Denied(reason) => {
                let lines = link_report(
                    args,
                    &op,
                    status,
                    target_dest.as_str(),
                    target_source.as_str(),
                    planned,
                    0,
                );
                match reason {
                    Reason::StatusError(e) => Attempt::Done { result: Err(e.clone()), lines },
                    _ => {
                        stats.targets_skipped = stats.targets_skipped + 1;
                        Attempt::Done { result: Ok(()), lines }
                    },
                }
            },
            Op::Confirmed(_) => {
                if !args.dry_run && performed.is_none() {
                    return Attempt::Perform(actions);
                }
                let complete = Performed::Completed;
                let outcome = match performed {
                    Some(p) => p,
                    None => &complete,
                };
                let done = count_done(args.dry_run, planned, outcome);
                if planned == 3 && done >= 1 {
                    match status {
                        FilesystemStatus::Symlink { .. } => {
                            stats.symlinks_removed = stats.symlinks_removed + 1;
                        },
                        _ => {
                            stats.files_removed = stats.files_removed + 1;
                        },
                    }
                }
                let lines = link_report(
                    args,
                    &op,
                    status,
                    target_dest.as_str(),
                    target_source.as_str(),
                    planned,
                    done,
                );
                if done == planned {
                    stats.symlinks_added = stats.symlinks_added + 1;
                    if !args.dry_run {
                        state.insert(target_dest.clone(), target_source.clone());
                    }
                    Attempt::Done { result: Ok(()), lines }
                } else {
                    let message = match outcome {
                        Performed::FailedAt(_, cause) => failure_message(
                            &actions[done],
                            status,
                            cause.as_str(),
                        ),
                        Performed::Completed => String::new(),
                    };
                    Attempt::Done { result: Err(message), lines }
                }
            },
        }
    }

    /// Deals with one destination of an `unlink` run. The call is repeated
    /// with what was learnt, as for `try_perform_link`.
    pub fn try_perform_unlink(
        state: &mut Trackfile,
        args: &DotsLinkArgs,
        stats: &mut UnlinkStats,
        user_choices: &mut UserChoiceState,
        target_dest: &String,
        target_source: &String,
        status: &FilesystemStatus,
        answer: Option<Choice>,
        performed: Option<&Performed>,
    ) -> (r: Attempt)
        requires
            old(state).wf(),
            unlink_room(*old(stats)),
        ensures
            final(state).wf(),
            (Turn {
                attempt: r@,
                ledger: final(state).content(),
                dirty: final(state).dirty(),
                stats: *final(stats),
                choices: *final(user_choices),
            }) == unlink_turn(
                *args,
                *old(user_choices),
                old(state).content(),
                old(state).dirty(),
                *old(stats),
                *target_dest,
                *target_source,
                *status,
                answer,
                outcome_of(performed),
            ),
    {
        let gate_result = {
            let recorded = state.get_source(target_dest.as_str());
            gate(false, args, user_choices, status, recorded, target_source.as_str(), answer)
        };
        let op = match gate_result {
            None => {
                let reason = {
                    let recorded = state.get_source(target_dest.as_str());
                    classify_target(status, recorded, target_source.as_str())
                };
                return Attempt::Ask {
                    question: prompt_message(&reason, target_dest.as_str(), held(status)),
                    info: reason.info(),
                };
            },
            Some(op) => op,
        };
        let actions = plan_unlink(&op, status, target_dest);
        let planned = actions.len();
        match &op {
            Op::Denied(reason) => {
                let lines = unlink_report(args, &op, status, target_dest.as_str(), 0);
                match reason {
                    Reason::StatusError(e) => Attempt::Done { result: Err(e.clone()), lines },
                    _ => {
                        stats.targets_skipped = stats.targets_skipped + 1;
                        Attempt::Done { result: Ok(()), lines }
                    },
                }
            },
            Op::Confirmed(_) => {
                if !args.dry_run && performed.is_none() {
                    return Attempt::Perform(actions);
                }
                let complete = Performed::Completed;
                let outcome = match performed {
                    Some(p) => p,
                    None => &complete,
                };
                let done = count_done(args.dry_run, planned, outcome);
                let lines = unlink_report(args, &op, status, target_dest.as_str(), done);
                if done == planned {
                    match status {
                        FilesystemStatus::Symlink { .. } => {
                            stats.symlinks_removed = stats.symlinks_removed + 1;
                        },
                        _ => {
                            stats.files_removed = stats.files_removed + 1;
                        },
                    }
                    if !args.dry_run {
                        let _ = state.remove(target_dest.as_str());
                    }
                    Attempt::Done { result: Ok(()), lines }
                } else {
                    let message = match outcome {
                        Performed::FailedAt(_, cause) => failure_message(
                            &actions[done],
                            status,
                            cause.as_str(),
                        ),
                        Performed::Completed => String::new(),
                    };
                    Attempt::Done { result: Err(message), lines }
                }
            },
        }
    }
}

} // verus!
