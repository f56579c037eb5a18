//! A `link`, `unlink` or `relink` run over a list of destinations.
//!
//! `Dots` owns the ledger and goes through the destinations in order. It
//! does no input or output: each step ends in a `Request` that says what
//! must be done outside (look at a path, ask the user, change the
//! filesystem), and the run goes on when `resume` is given the `Event`
//! that answers it. `DotsModel` is the mathematical state of a run, and
//! `begun` and `resumed` say how it moves.

use vstd::prelude::*;
use vstd::string::*;

use crate::args::{DotsCleanArgs, DotsLinkArgs, DotsStatusArgs};
use crate::choice::{Choice, Opts, UserChoiceState};
use crate::engine::{Action, Attempt, Performed};
use crate::handlers::{link_turn, outcome_of, recorded_source, unlink_turn, AttemptModel, Turn};
use crate::stats::{LinkStats, RelinkStats, UnlinkStats};
use crate::status::FilesystemStatus;
use crate::strmap::{distinct_keys, Pair};
use crate::text::{int_text, signed_decimal, texts};
use crate::trackfile::Trackfile;

verus! {

/// The most destinations a run takes: twice as many still fit a counter.
pub const MAX_TARGETS: usize = 1073741823;

/// Which run is in hand.
#[derive(Debug, Clone, Copy, PartialEq, Eq, Structural)]
pub enum Kind {
    Link,
    Unlink,
    /// An `unlink` pass and then a `link` pass over the same destinations.
    Relink,
}

/// The counters of a finished run.
#[derive(Debug, Clone, Copy, PartialEq, Eq, Structural)]
pub enum Summary {
    Linked(LinkStats),
    Unlinked(UnlinkStats),
    Relinked(RelinkStats),
}

/// What must be done outside before the run can go on.
#[derive(Debug, PartialEq, Eq)]
pub enum Request {
    /// Report what is at this path, without following a symlink there.
    Status(String),
    /// Put the question to the user, who may pick one of `opts`; `info`
    /// is what to show a user who asks for an explanation.
    Prompt { question: String, info: String, opts: Opts },
    /// Carry out these actions in order, up to the first that fails.
    Perform(Vec<Action>),
    /// Nothing: the run is over, with its counters or with the error that stopped it.
    Finished(Result<Summary, String>),
}

/// The answer to a `Request`.
#[derive(Debug, PartialEq, Eq)]
pub enum Event {
    /// What is at the path of `Request::Status`.
    Status(FilesystemStatus),
    /// The user's answer to `Request::Prompt`.
    Answer(Choice),
    /// How carrying out the actions of `Request::Perform` went.
    Performed(Performed),
}

/// One step of a run: the lines to show, then what must be done.
#[derive(Debug, PartialEq, Eq)]
pub struct Step {
    pub lines: Vec<String>,
    pub request: Request,
}

/// What a `Request` holds, with its texts as character sequences.
pub enum RequestModel {
    Status(Seq<char>),
    Prompt { question: Seq<char>, info: Seq<char>, opts: Opts },
    Perform(Seq<Action>),
    Finished(Result<Summary, Seq<char>>),
}

/// What a `Step` holds, with its texts as character sequences.
pub struct StepModel {
    pub lines: Seq<Seq<char>>,
    pub request: RequestModel,
}

impl View for Request {
    type V = RequestModel;

    open spec fn view(&self) -> RequestModel {
        match self {
            Request::Status(path) => RequestModel::Status(path@),
            Request::Prompt { question, info, opts } => RequestModel::Prompt {
                question: question@,
                info: info@,
                opts: *opts,
            },
            Request::Perform(actions) => RequestModel::Perform(actions@),
            Request::Finished(result) => RequestModel::Finished(
                match result {
                    Ok(summary) => Ok(*summary),
                    Err(m) => Err(m@),
                },
            ),
        }
    }
}

impl View for Step {
    type V = StepModel;

    open spec fn view(&self) -> StepModel {
        StepModel { lines: texts(self.lines@), request: self.request@ }
    }
}

/// What a run waits for.
pub enum WaitingModel {
    /// Nothing: no run is in hand.
    Idle,
    /// The status of the destination in hand.
    Status,
    /// The user's answer for the destination in hand, whose status is known.
    Answer(FilesystemStatus),
    /// The outcome of the actions for the destination in hand.
    Outcome(FilesystemStatus, Option<Choice>),
    /// The user's word on whether to go on after a failure; the text is
    /// the error the run stops with otherwise.
    Bail(Seq<char>),
}

/// The state of a run.
pub struct DotsModel {
    /// The arguments of the run.
    pub args: DotsLinkArgs,
    /// The pairs of the ledger.
    pub ledger: Seq<Pair>,
    /// Whether the ledger was changed since it was read or written.
    pub dirty: bool,
    /// The destinations of the run, each with its source.
    pub targets: Seq<(String, String)>,
    /// The run in hand.
    pub kind: Kind,
    /// Whether the pass in hand links; it unlinks otherwise.
    pub linking: bool,
    /// How many destinations the pass in hand has dealt with.
    pub next: int,
    /// The answers remembered in the pass in hand.
    pub choices: UserChoiceState,
    /// Whether the user said to go on after every failure of the pass in hand.
    pub never_bail: bool,
    /// The counters of the `link` pass.
    pub link_stats: LinkStats,
    /// The counters of the `unlink` pass.
    pub unlink_stats: UnlinkStats,
    /// Whether a dry run came to a change that a run would have made to the ledger.
    pub would_change: bool,
    /// What the run waits for.
    pub waiting: WaitingModel,
}

/// The line shown where a run has no destination.
pub open spec fn nothing_line(kind: Kind) -> Seq<char> {
    match kind {
        Kind::Link => "No dotfiles found to link based on the provided target and filters."@,
        Kind::Unlink => "No dotfiles found to unlink based on the provided target and filters."@,
        Kind::Relink => "No dotfiles found to relink based on the provided target and filters."@,
    }
}

/// The line shown before the first destination of a `link` pass.
pub open spec fn linking_line(n: int) -> Seq<char> {
    "Preparing to link "@ + signed_decimal(n) + " dotfiles..."@
}

/// The line shown before the first destination of an `unlink` pass.
pub open spec fn unlinking_line(n: int) -> Seq<char> {
    "Preparing to unlink "@ + signed_decimal(n) + " specified dotfiles..."@
}

/// The line shown before the first pass of a `relink` run.
pub open spec fn relinking_line(n: int) -> Seq<char> {
    "Preparing to relink "@ + signed_decimal(n) + " specified dotfiles..."@
}

/// The lines shown before the first destination of a run.
pub open spec fn opening_lines(kind: Kind, n: int) -> Seq<Seq<char>> {
    match kind {
        Kind::Link => seq![linking_line(n)],
        Kind::Unlink => seq![unlinking_line(n)],
        Kind::Relink => seq![relinking_line(n), unlinking_line(n)],
    }
}

/// The error a run stops with after a destination failed with `cause`
/// and the run was not to go on.
pub open spec fn bail_text(
    linking: bool,
    dest: Seq<char>,
    source: Seq<char>,
    cause: Seq<char>,
) -> Seq<char> {
    (if linking {
        "User bailed link operation from "@ + dest + " to "@ + source
    } else {
        "User bailed unlink operation on "@ + dest + " (from "@ + source + ")"@
    }) + ": "@ + cause
}

/// The error a run stops with when it is given an event it did not ask for.
pub open spec fn unexpected_text() -> Seq<char> {
    "Unexpected event"@
}

impl DotsModel {
    /// The counters of the run, by its kind.
    pub open spec fn summary(self) -> Summary {
        match self.kind {
            Kind::Link => Summary::Linked(self.link_stats),
            Kind::Unlink => Summary::Unlinked(self.unlink_stats),
            Kind::Relink => Summary::Relinked(
                RelinkStats::merged(self.unlink_stats, self.link_stats),
            ),
        }
    }

    /// The state with no run in hand.
    pub open spec fn idle(self) -> DotsModel {
        DotsModel { waiting: WaitingModel::Idle, ..self }
    }

    /// The state and the step at the start of a run of `kind` over `targets`.
    ///
    /// The counters and the memory of answers start afresh. With no
    /// destination the run is over at once; otherwise it asks for the
    /// status of the first destination.
    pub open spec fn begun(self, kind: Kind, targets: Seq<(String, String)>) -> (
        DotsModel,
        StepModel,
    ) {
        let n = targets.len() as int;
        let fresh = DotsModel {
            targets,
            kind,
            linking: kind is Link,
            next: 0,
            choices: UserChoiceState::blank(),
            never_bail: false,
            link_stats: LinkStats::zero(n as i32),
            unlink_stats: UnlinkStats::zero(n as i32),
            would_change: false,
            waiting: WaitingModel::Idle,
            ..self
        };
        if n == 0 {
            (
                fresh,
                StepModel {
                    lines: seq![nothing_line(kind)],
                    request: RequestModel::Finished(Ok(fresh.summary())),
                },
            )
        } else {
            (
                DotsModel { waiting: WaitingModel::Status, ..fresh },
                StepModel {
                    lines: opening_lines(kind, n),
                    request: RequestModel::Status(targets[0].0@),
                },
            )
        }
    }

    /// The state and the step after the destination in hand is dealt
    /// with: the next destination's status is asked for; after the last
    /// one of the `unlink` pass of a `relink` run the `link` pass starts
    /// afresh from the first; after the last one otherwise the run is over.
    pub open spec fn moved_on(self, lines: Seq<Seq<char>>) -> (DotsModel, StepModel) {
        if self.next < self.targets.len() {
            (
                DotsModel { waiting: WaitingModel::Status, ..self },
                StepModel { lines, request: RequestModel::Status(self.targets[self.next].0@) },
            )
        } else if self.kind is Relink && !self.linking {
            (
                DotsModel {
                    linking: true,
                    next: 0,
                    choices: UserChoiceState::blank(),
                    never_bail: false,
                    waiting: WaitingModel::Status,
                    ..self
                },
                StepModel {
                    lines: lines.push(linking_line(self.targets.len() as int)),
                    request: RequestModel::Status(self.targets[0].0@),
                },
            )
        } else {
            (
                self.idle(),
                StepModel { lines, request: RequestModel::Finished(Ok(self.summary())) },
            )
        }
    }

    /// The state with one more failed destination counted in the pass in hand.
    pub open spec fn with_error(self) -> DotsModel {
        if self.linking {
            DotsModel {
                link_stats: LinkStats {
                    errors: (self.link_stats.errors + 1) as i32,
                    ..self.link_stats
                },
                ..self
            }
        } else {
            DotsModel {
                unlink_stats: UnlinkStats {
                    errors: (self.unlink_stats.errors + 1) as i32,
                    ..self.unlink_stats
                },
                ..self
            }
        }
    }

    /// The state and the step after the destination `dest` failed with
    /// `cause`. The failure is counted. Where the run is to stop at a
    /// failure and the user has not said otherwise, an interactive run
    /// asks whether to go on and any other run stops with the error;
    /// else the run moves on.
    pub open spec fn failed(
        self,
        dest: Seq<char>,
        source: Seq<char>,
        cause: Seq<char>,
        lines: Seq<Seq<char>>,
    ) -> (DotsModel, StepModel) {
        let counted = self.with_error();
        if self.args.bail && !self.never_bail {
            let shown = lines.push("[ BAIL ] "@ + cause);
            let error = bail_text(self.linking, dest, source, cause);
            if self.args.interactive {
                (
                    DotsModel { waiting: WaitingModel::Bail(error), ..counted },
                    StepModel {
                        lines: shown,
                        request: RequestModel::Prompt {
                            question: "Continue execution?"@,
                            info: "error checking destination type: "@ + cause,
                            opts: Opts::YesNoAll,
                        },
                    },
                )
            } else {
                (
                    counted.idle(),
                    StepModel { lines: shown, request: RequestModel::Finished(Err(error)) },
                )
            }
        } else {
            counted.moved_on(lines)
        }
    }

    /// The state and the step after the call `turn` for the destination
    /// in hand, whose status is `status`.
    pub open spec fn turned<S>(
        self,
        turn: Turn<S>,
        status: FilesystemStatus,
        answer: Option<Choice>,
        changes: bool,
    ) -> (DotsModel, StepModel) {
        let dest = self.targets[self.next].0@;
        let source = self.targets[self.next].1@;
        match turn.attempt {
            AttemptModel::Ask { question, info } => (
                DotsModel { waiting: WaitingModel::Answer(status), ..self },
                StepModel {
                    lines: Seq::empty(),
                    request: RequestModel::Prompt { question, info, opts: Opts::All },
                },
            ),
            AttemptModel::Perform(actions) => (
                DotsModel { waiting: WaitingModel::Outcome(status, answer), ..self },
                StepModel { lines: Seq::empty(), request: RequestModel::Perform(actions) },
            ),
            AttemptModel::Done { result, lines } => {
                let dealt = DotsModel {
                    next: self.next + 1,
                    would_change: self.would_change || (self.args.dry_run && changes),
                    ..self
                };
                match result {
                    Ok(_) => dealt.moved_on(lines),
                    Err(cause) => dealt.failed(dest, source, cause, lines),
                }
            },
        }
    }

    /// The state and the step after a call for the destination in hand,
    /// given what is known about it. At a dry run the ledger counts as
    /// one that would change where a symlink would be created, or where
    /// a recorded destination would be removed.
    pub open spec fn attempted(
        self,
        status: FilesystemStatus,
        answer: Option<Choice>,
        performed: Option<Performed>,
    ) -> (DotsModel, StepModel) {
        let dest = self.targets[self.next].0;
        let source = self.targets[self.next].1;
        if self.linking {
            let turn = link_turn(
                self.args,
                self.choices,
                self.ledger,
                self.dirty,
                self.link_stats,
                dest,
                source,
                status,
                answer,
                performed,
            );
            DotsModel {
                ledger: turn.ledger,
                dirty: turn.dirty,
                link_stats: turn.stats,
                choices: turn.choices,
                ..self
            }.turned(
                turn,
                status,
                answer,
                turn.stats.symlinks_added > self.link_stats.symlinks_added,
            )
        } else {
            let turn = unlink_turn(
                self.args,
                self.choices,
                self.ledger,
                self.dirty,
                self.unlink_stats,
                dest,
                source,
                status,
                answer,
                performed,
            );
            DotsModel {
                ledger: turn.ledger,
                dirty: turn.dirty,
                unlink_stats: turn.stats,
                choices: turn.choices,
                ..self
            }.turned(
                turn,
                status,
                answer,
                recorded_source(self.ledger, dest@) is Some && (turn.stats.symlinks_removed
                    > self.unlink_stats.symlinks_removed || turn.stats.files_removed
                    > self.unlink_stats.files_removed),
            )
        }
    }

    /// The state and the step after `event`.
    ///
    /// An event that answers what the run waits for takes the destination
    /// in hand one call further. After a failure, "yes" lets the run go
    /// on, "yes to all" for every later failure of the pass as well, and
    /// any other answer stops it with the error. An event that the run
    /// does not wait for ends it with an error.
    pub open spec fn resumed(self, event: Event) -> (DotsModel, StepModel) {
        match (self.waiting, event) {
            (WaitingModel::Status, Event::Status(status)) => self.idle().attempted(
                status,
                None,
                None,
            ),
            (WaitingModel::Answer(status), Event::Answer(choice)) => self.idle().attempted(
                status,
                Some(choice),
                None,
            ),
            (
                WaitingModel::Outcome(status, answer),
                Event::Performed(performed),
            ) => self.idle().attempted(status, answer, Some(performed)),
            (WaitingModel::Bail(error), Event::Answer(choice)) => match choice {
                Choice::Yes { all } => DotsModel { never_bail: all, ..self.idle() }.moved_on(
                    Seq::empty(),
                ),
                _ => (
                    self.idle(),
                    StepModel {
                        lines: Seq::empty(),
                        request: RequestModel::Finished(Err(error)),
                    },
                ),
            },
            _ => (
                self.idle(),
                StepModel {
                    lines: Seq::empty(),
                    request: RequestModel::Finished(Err(unexpected_text())),
                },
            ),
        }
    }

    /// The invariant of a run: no destination is recorded twice in the
    /// ledger, the run waits for something only while a destination is
    /// in hand, and no counter is above the number of destinations that
    /// its pass has dealt with.
    pub open spec fn wf(self) -> bool {
        let n = self.targets.len() as int;
        &&& distinct_keys(self.ledger)
        &&& n <= MAX_TARGETS
        &&& 0 <= self.next <= n
        &&& (self.waiting is Status || self.waiting is Answer || self.waiting is Outcome)
            ==> self.next < n
        &&& self.waiting is Bail ==> self.next >= 1
        &&& (self.kind is Link ==> self.linking)
        &&& (self.kind is Unlink ==> !self.linking)
        &&& self.link_stats.targets == n
        &&& self.unlink_stats.targets == n
        &&& self.link_stats.within(if self.linking { self.next } else { 0 })
        &&& self.unlink_stats.within(if self.linking { n } else { self.next })
    }
}

/// What the run waits for.
#[derive(Debug)]
enum Waiting {
    Idle,
    Status,
    Answer(FilesystemStatus),
    Outcome(FilesystemStatus, Option<Choice>),
    Bail(String),
}

impl View for Waiting {
    type V = WaitingModel;

    closed spec fn view(&self) -> WaitingModel {
        match self {
            Waiting::Idle => WaitingModel::Idle,
            Waiting::Status => WaitingModel::Status,
            Waiting::Answer(status) => WaitingModel::Answer(*status),
            Waiting::Outcome(status, answer) => WaitingModel::Outcome(*status, *answer),
            Waiting::Bail(error) => WaitingModel::Bail(error@),
        }
    }
}

/// The ledger and the run in hand.
#[derive(Debug)]
pub struct Dots {
    args: DotsLinkArgs,
    state: Trackfile,
    targets: Vec<(String, String)>,
    kind: Kind,
    linking: bool,
    next: usize,
    user_choices: UserChoiceState,
    never_bail: bool,
    link_stats: LinkStats,
    unlink_stats: UnlinkStats,
    would_change: bool,
    waiting: Waiting,
}

impl View for Dots {
    type V = DotsModel;

    closed spec fn view(&self) -> DotsModel {
        DotsModel {
            args: self.args,
            ledger: self.state.content(),
            dirty: self.state.dirty(),
            targets: self.targets@,
            kind: self.kind,
            linking: self.linking,
            next: self.next as int,
            choices: self.user_choices,
            never_bail: self.never_bail,
            link_stats: self.link_stats,
            unlink_stats: self.unlink_stats,
            would_change: self.would_change,
            waiting: self.waiting@,
        }
    }
}

impl Dots {
    /// The ledger `state` with the arguments of the run to come, and no run in hand.
    pub fn new(args: DotsLinkArgs, state: Trackfile) -> (r: Self)
        requires
            state.wf(),
        ensures
            r@.wf(),
            r@.args == args,
            r@.ledger == state.content(),
            r@.dirty == state.dirty(),
            r@.waiting is Idle,
            r@.targets.len() == 0,
            !r@.would_change,
    {
        Dots {
            args,
            state,
            targets: Vec::new(),
            kind: Kind::Link,
            linking: true,
            next: 0,
            user_choices: UserChoiceState::default(),
            never_bail: false,
            link_stats: LinkStats::new(0),
            unlink_stats: UnlinkStats::new(0),
            would_change: false,
            waiting: Waiting::Idle,
        }
    }

    /// The ledger.
    pub fn state(&self) -> (r: &Trackfile)
        ensures
            r.content() == self@.ledger,
            r.dirty() == self@.dirty,
    {
        &self.state
    }

    /// The ledger; the run is given up.
    pub fn into_state(self) -> (r: Trackfile)
        ensures
            r.content() == self@.ledger,
            r.dirty() == self@.dirty,
    {
        self.state
    }

    /// Whether a dry run came to a change that a run would have made to the ledger.
    pub fn would_change(&self) -> (r: bool)
        ensures
            r == self@.would_change,
    {
        self.would_change
    }

    /// Reports on the links of the ledger. The command exists in name
    /// only: it always fails, and says so.
    pub fn status(&self, args: &DotsStatusArgs) -> (r: Result<(), String>)
        ensures
            r matches Err(message) && message@ == "[ STATUS ] Not implemented yet :p"@,
    {
        Err("[ STATUS ] Not implemented yet :p".to_owned())
    }

    /// Removes the links of the ledger whose source is gone. The command
    /// exists in name only: it always fails, and says so.
    pub fn clean(&mut self, args: &DotsCleanArgs) -> (r: Result<(), String>)
        ensures
            *final(self) == *old(self),
            r matches Err(message) && message@ == "[ CLEAN ] Not implemented yet :p"@,
    {
        Err("[ CLEAN ] Not implemented yet :p".to_owned())
    }

    /// The counters of the run, by its kind.
    fn summary(&self) -> (r: Summary)
        requires
            self@.wf(),
        ensures
            r == self@.summary(),
    {
        match self.kind {
            Kind::Link => Summary::Linked(self.link_stats),
            Kind::Unlink => Summary::Unlinked(self.unlink_stats),
            Kind::Relink => Summary::Relinked(RelinkStats::new(self.unlink_stats, self.link_stats)),
        }
    }

    /// Starts a run of `kind` over `targets`.
    fn begin(&mut self, kind: Kind, targets: Vec<(String, String)>) -> (step: Step)
        requires
            old(self)@.wf(),
            targets@.len() <= MAX_TARGETS,
        ensures
            final(self)@.wf(),
            (final(self)@, step@) == old(self)@.begun(kind, targets@),
    {
        let n = targets.len();
        self.targets = targets;
        self.kind = kind;
        self.linking = match kind {
            Kind::Link => true,
            _ => false,
        };
        self.next = 0;
        self.user_choices = UserChoiceState::default();
        self.never_bail = false;
        self.link_stats = LinkStats::new(n as i32);
        self.unlink_stats = UnlinkStats::new(n as i32);
        self.would_change = false;
        self.waiting = Waiting::Idle;
        let mut lines: Vec<String> = Vec::new();
        if n == 0 {
            let line = match kind {
                Kind::Link => "No dotfiles found to link based on the provided target and filters.",
                Kind::Unlink => "No dotfiles found to unlink based on the provided target and filters.",
                Kind::Relink => "No dotfiles found to relink based on the provided target and filters.",
            };
            lines.push(line.to_owned());
            assert(texts(lines@) =~= seq![nothing_line(kind)]);
            Step { lines, request: Request::Finished(Ok(self.summary())) }
        } else {
            match kind {
                Kind::Link => {
                    lines.push(linking_message(n));
                },
                Kind::Unlink => {
                    lines.push(unlinking_message(n));
                },
                Kind::Relink => {
                    let mut s = "Preparing to relink ".to_owned();
                    s.append(int_text(n as i64).as_str());
                    s.append(" specified dotfiles...");
                    lines.push(s);
                    lines.push(unlinking_message(n));
                },
            }
            assert(texts(lines@) =~= opening_lines(kind, n as int));
            self.waiting = Waiting::Status;
            Step { lines, request: Request::Status(self.targets[0].0.clone()) }
        }
    }

    /// Starts a `link` run over `targets`: each is a destination with the
    /// source it is to point to. The step is the first of the run.
    pub fn link(&mut self, targets: Vec<(String, String)>) -> (step: Step)
        requires
            old(self)@.wf(),
            targets@.len() <= MAX_TARGETS,
        ensures
            final(self)@.wf(),
            (final(self)@, step@) == old(self)@.begun(Kind::Link, targets@),
    {
        self.begin(Kind::Link, targets)
    }

    /// Starts an `unlink` run over `targets`. The step is the first of the run.
    pub fn unlink(&mut self, targets: Vec<(String, String)>) -> (step: Step)
        requires
            old(self)@.wf(),
            targets@.len() <= MAX_TARGETS,
        ensures
            final(self)@.wf(),
            (final(self)@, step@) == old(self)@.begun(Kind::Unlink, targets@),
    {
        self.begin(Kind::Unlink, targets)
    }

    /// Starts a `relink` run over `targets`: an `unlink` pass and then a
    /// `link` pass. The step is the first of the run.
    pub fn relink(&mut self, targets: Vec<(String, String)>) -> (step: Step)
        requires
            old(self)@.wf(),
            targets@.len() <= MAX_TARGETS,
        ensures
            final(self)@.wf(),
            (final(self)@, step@) == old(self)@.begun(Kind::Relink, targets@),
    {
        self.begin(Kind::Relink, targets)
    }

    /// Goes on to the next destination, the next pass or the end of the run.
    fn move_on(&mut self, lines: Vec<String>) -> (step: Step)
        requires
            old(self)@.wf(),
            old(self)@.waiting is Idle,
            old(self)@.next >= 1,
        ensures
            final(self)@.wf(),
            (final(self)@, step@) == old(self)@.moved_on(texts(lines@)),
    {
        let mut lines = lines;
        if self.next < self.targets.len() {
            self.waiting = Waiting::Status;
            Step { lines, request: Request::Status(self.targets[self.next].0.clone()) }
        } else {
            let relinking = match self.kind {
                Kind::Relink => true,
                _ => false,
            };
            if relinking && !self.linking {
                self.linking = true;
                self.next = 0;
                self.user_choices = UserChoiceState::default();
                self.never_bail = false;
                self.waiting = Waiting::Status;
                let ghost before = texts(lines@);
                lines.push(linking_message(self.targets.len()));
                assert(texts(lines@) =~= before.push(linking_line(self.targets@.len() as int)));
                Step { lines, request: Request::Status(self.targets[0].0.clone()) }
            } else {
                self.waiting = Waiting::Idle;
                Step { lines, request: Request::Finished(Ok(self.summary())) }
            }
        }
    }

    /// Counts a failed destination and stops, asks or moves on.
    fn fail(&mut self, dest: &str, source: &str, cause: &str, lines: Vec<String>) -> (step: Step)
        requires
            old(self)@.wf(),
            old(self)@.waiting is Idle,
            1 <= old(self)@.next,
            if old(self)@.linking {
                old(self)@.link_stats.errors < old(self)@.next
            } else {
                old(self)@.unlink_stats.errors < old(self)@.next
            },
        ensures
            final(self)@.wf(),
            (final(self)@, step@) == old(self)@.failed(dest@, source@, cause@, texts(lines@)),
    {
        let mut lines = lines;
        let bail = self.args.bail && !self.never_bail;
        let interactive = self.args.interactive;
        let linking = self.linking;
        if linking {
            self.link_stats.errors = self.link_stats.errors + 1;
        } else {
            self.unlink_stats.errors = self.unlink_stats.errors + 1;
        }
        if bail {
            let ghost before = texts(lines@);
            let mut shown = "[ BAIL ] ".to_owned();
            shown.append(cause);
            lines.push(shown);
            assert(texts(lines@) =~= before.push("[ BAIL ] "@ + cause@));
            let mut error = if linking {
                let mut s = "User bailed link operation from ".to_owned();
                s.append(dest);
                s.append(" to ");
                s.append(source);
                s
            } else {
                let mut s = "User bailed unlink operation on ".to_owned();
                s.append(dest);
                s.append(" (from ");
                s.append(source);
                s.append(")");
                s
            };
            error.append(": ");
            error.append(cause);
            assert(error@ =~= bail_text(linking, dest@, source@, cause@));
            if interactive {
                let mut info = "error checking destination type: ".to_owned();
                info.append(cause);
                self.waiting = Waiting::Bail(error);
                Step {
                    lines,
                    request: Request::Prompt {
                        question: "Continue execution?".to_owned(),
                        info,
                        opts: Opts::YesNoAll,
                    },
                }
            } else {
                self.waiting = Waiting::Idle;
                Step { lines, request: Request::Finished(Err(error)) }
            }
        } else {
            self.move_on(lines)
        }
    }

    /// Makes one call for the destination in hand with what is known about it.
    fn attempt(
        &mut self,
        status: FilesystemStatus,
        answer: Option<Choice>,
        performed: Option<&Performed>,
    ) -> (step: Step)
        requires
            old(self)@.wf(),
            old(self)@.waiting is Idle,
            old(self)@.next < old(self)@.targets.len(),
        ensures
            final(self)@.wf(),
            (final(self)@, step@) == old(self)@.attempted(status, answer, outcome_of(performed)),
    {
        let dest = self.targets[self.next].0.clone();
        let source = self.targets[self.next].1.clone();
        let ghost before = self@;
        let added = self.link_stats.symlinks_added;
        let removed = self.unlink_stats.symlinks_removed;
        let files = self.unlink_stats.files_removed;
        let was_recorded = self.state.contains_dest(dest.as_str());
        let result = if self.linking {
            Dots::try_perform_link(
                &mut self.state,
                &self.args,
                &mut self.link_stats,
                &mut self.user_choices,
                &dest,
                &source,
                &status,
                answer,
                performed,
            )
        } else {
            Dots::try_perform_unlink(
                &mut self.state,
                &self.args,
                &mut self.unlink_stats,
                &mut self.user_choices,
                &dest,
                &source,
                &status,
                answer,
                performed,
            )
        };
        let changes = if self.linking {
            self.link_stats.symlinks_added > added
        } else {
            was_recorded && (self.unlink_stats.symlinks_removed > removed
                || self.unlink_stats.files_removed > files)
        };
        match result {
            Attempt::Ask { question, info } => {
                self.waiting = Waiting::Answer(status);
                Step {
                    lines: no_lines(),
                    request: Request::Prompt { question, info, opts: Opts::All },
                }
            },
            Attempt::Perform(actions) => {
                self.waiting = Waiting::Outcome(status, answer);
                Step { lines: no_lines(), request: Request::Perform(actions) }
            },
            Attempt::Done { result, lines } => {
                self.next = self.next + 1;
                self.would_change = self.would_change || (self.args.dry_run && changes);
                match result {
                    Ok(_) => self.move_on(lines),
                    Err(cause) => self.fail(dest.as_str(), source.as_str(), cause.as_str(), lines),
                }
            },
        }
    }

    /// Goes on with the run in hand, given the event that answers its last request.
    pub fn resume(&mut self, event: Event) -> (step: Step)
        requires
            old(self)@.wf(),
        ensures
            final(self)@.wf(),
            (final(self)@, step@) == old(self)@.resumed(event),
    {
        let mut waiting = Waiting::Idle;
        std::mem::swap(&mut self.waiting, &mut waiting);
        match (waiting, event) {
            (Waiting::Status, Event::Status(status)) => self.attempt(status, None, None),
            (Waiting::Answer(status), Event::Answer(choice)) => self.attempt(
                status,
                Some(choice),
                None,
            ),
            (Waiting::Outcome(status, answer), Event::Performed(performed)) => self.attempt(
                status,
                answer,
                Some(&performed),
            ),
            (Waiting::Bail(error), Event::Answer(choice)) => match choice {
                Choice::Yes { all } => {
                    self.never_bail = all;
                    self.move_on(no_lines())
                },
                _ => Step { lines: no_lines(), request: Request::Finished(Err(error)) },
            },
            _ => Step {
                lines: no_lines(),
                request: Request::Finished(Err("Unexpected event".to_owned())),
            },
        }
    }
}

/// No lines.
fn no_lines() -> (r: Vec<String>)
    ensures
        texts(r@) == Seq::<Seq<char>>::empty(),
{
    let r: Vec<String> = Vec::new();
    assert(texts(r@) =~= Seq::<Seq<char>>::empty());
    r
}

/// The line shown before the first destination of a `link` pass.
fn linking_message(n: usize) -> (r: String)
    requires
        n <= MAX_TARGETS,
    ensures
        r@ == linking_line(n as int),
{
    let mut s = "Preparing to link ".to_owned();
    s.append(int_text(n as i64).as_str());
    s.append(" dotfiles...");
    s
}

/// The line shown before the first destination of an `unlink` pass.
fn unlinking_message(n: usize) -> (r: String)
    requires
        n <= MAX_TARGETS,
    ensures
        r@ == unlinking_line(n as int),
{
    let mut s = "Preparing to unlink ".to_owned();
    s.append(int_text(n as i64).as_str());
    s.append(" specified dotfiles...");
    s
}

} // verus!
