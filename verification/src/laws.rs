//! Laws of the library, each proved from the specifications of its functions.

use vstd::prelude::*;

use crate::args::DotsLinkArgs;
use crate::choice::{Choice, UserChoiceState};
use crate::dots::{DotsModel, Event, RequestModel};
use crate::engine::{
    classify, gated, gated_memory, link_actions, unlink_actions, Action, Performed,
};
use crate::handlers::{link_turn, AttemptModel};
use crate::knowledge::{Env, ListingModel, World};
use crate::paths::joined;
use crate::reason::{Op, Reason};
use crate::resolve::{expanded, listed, resolved, segment_kind, Found, OutcomeModel};
use crate::stats::LinkStats;
use crate::status::FilesystemStatus;
use crate::strmap::{
    distinct_keys, has_key, lemma_pairs_insert, lemma_pairs_remove, pairs_insert, pairs_map,
    pairs_remove, Pair,
};
use crate::trackfile::bind_all;

verus! {

/// Where nothing is at the destination, `link` goes ahead without asking
/// and removes nothing: it never comes to a question, its plan is to
/// make the parent directory and to create the symlink, and no removal
/// is ever counted.
pub proof fn law_link_to_free_destination(
    args: DotsLinkArgs,
    choices: UserChoiceState,
    ledger: Seq<Pair>,
    dirty: bool,
    stats: LinkStats,
    dest: String,
    source: String,
    answer: Option<Choice>,
    performed: Option<Performed>,
)
    ensures
        ({
            let turn = link_turn(
                args,
                choices,
                ledger,
                dirty,
                stats,
                dest,
                source,
                FilesystemStatus::NotFound,
                answer,
                performed,
            );
            &&& gated(
                true,
                args,
                choices,
                FilesystemStatus::NotFound,
                crate::handlers::recorded_source(ledger, dest@),
                source@,
                answer,
            ) == Some(Op::Confirmed(Reason::NotFound))
            &&& !(turn.attempt is Ask)
            &&& turn.attempt matches AttemptModel::Perform(actions) ==> actions == seq![
                Action::CreateParent(dest),
                Action::CreateSymlink { source, dest },
            ]
            &&& turn.stats.symlinks_removed == stats.symlinks_removed
            &&& turn.stats.files_removed == stats.files_removed
            &&& turn.stats.targets_skipped == stats.targets_skipped
            &&& turn.choices == choices
        }),
{
}

/// Where the destination is a symlink that holds the intended source and
/// is not dangling, `link` has nothing to do: it neither asks nor plans
/// any action, whatever the flags, and it leaves the ledger and the
/// memory of answers as they are and creates and removes nothing.
pub proof fn law_link_is_idempotent(
    args: DotsLinkArgs,
    choices: UserChoiceState,
    ledger: Seq<Pair>,
    dirty: bool,
    stats: LinkStats,
    dest: String,
    source: String,
    held: String,
    answer: Option<Choice>,
    performed: Option<Performed>,
)
    requires
        held@ == source@,
    ensures
        ({
            let status = FilesystemStatus::Symlink { points_to: Some(held), dangling: false };
            let turn = link_turn(
                args,
                choices,
                ledger,
                dirty,
                stats,
                dest,
                source,
                status,
                answer,
                performed,
            );
            &&& link_actions(Op::Denied(Reason::IntendedSymlink), status, dest, source)
                == Seq::<Action>::empty()
            &&& turn.attempt matches AttemptModel::Done { result, .. } && result is Ok
            &&& turn.ledger == ledger
            &&& turn.dirty == dirty
            &&& turn.choices == choices
            &&& turn.stats.symlinks_added == stats.symlinks_added
            &&& turn.stats.symlinks_removed == stats.symlinks_removed
            &&& turn.stats.files_removed == stats.files_removed
            &&& turn.stats.errors == stats.errors
        }),
{
}

/// A dangling symlink at the destination is confirmed for removal by
/// `link` and by `unlink` alike, whatever the flags, the ledger and the
/// memory of answers: `link` plans to remove it and to create the symlink
/// anew, `unlink` plans to remove it.
pub proof fn law_dangling_symlink_is_replaced(
    linking: bool,
    args: DotsLinkArgs,
    choices: UserChoiceState,
    recorded: Option<Seq<char>>,
    dest: String,
    source: String,
    points_to: Option<String>,
    answer: Option<Choice>,
)
    ensures
        ({
            let status = FilesystemStatus::Symlink { points_to, dangling: true };
            let op = Op::Confirmed(Reason::DanglingSymlink);
            &&& gated(linking, args, choices, status, recorded, source@, answer) == Some(op)
            &&& gated_memory(args, choices, status, recorded, source@, answer) == choices
            &&& link_actions(op, status, dest, source) == seq![
                Action::RemoveFile(dest),
                Action::CreateParent(dest),
                Action::CreateSymlink { source, dest },
            ]
            &&& unlink_actions(op, status, dest) == seq![Action::RemoveFile(dest)]
        }),
{
}

/// The force flags form a hierarchy. `force_dangerously` authorizes every
/// reason. `force_file` authorizes what `force_symlink` does and a file
/// in the way of a recorded destination; `force_symlink` authorizes what
/// `force_correct_symlink` does and any other symlink at a recorded
/// destination. `force_correct_symlink` alone authorizes one forceable
/// reason only, `ForceCorrectSymlink`, and no flag at all authorizes none.
pub proof fn law_force_flags(flags: DotsLinkArgs, reason: Reason)
    ensures
        flags.force_dangerously ==> reason.authorized_by(&flags),
        flags.force_file ==> (reason.authorized_by(&flags) <==> flags.force_dangerously || !(
        reason is ForceDangerously)),
        flags.force_symlink && !flags.force_file && !flags.force_dangerously ==> (
        reason.authorized_by(&flags) <==> !(reason is ForceDangerously || reason is ForceFile)),
        flags.force_correct_symlink && !flags.force_symlink && !flags.force_file
            && !flags.force_dangerously ==> (reason.forceable() ==> (reason.authorized_by(&flags)
            <==> reason is ForceCorrectSymlink)),
        !flags.force_correct_symlink && !flags.force_symlink && !flags.force_file
            && !flags.force_dangerously ==> (reason.forceable() ==> !reason.authorized_by(&flags)),
        !reason.forceable() ==> reason.authorized_by(&flags),
{
}

/// At a run that is not interactive, a forceable reason is confirmed
/// where the force flags authorize it and denied where they do not, and
/// the user is never asked.
pub proof fn law_flags_decide_without_prompt(
    linking: bool,
    args: DotsLinkArgs,
    choices: UserChoiceState,
    status: FilesystemStatus,
    recorded: Option<Seq<char>>,
    intended: Seq<char>,
    answer: Option<Choice>,
)
    requires
        !args.interactive,
    ensures
        ({
            let reason = classify(status, recorded, intended);
            &&& gated(linking, args, choices, status, recorded, intended, answer) is Some
            &&& gated_memory(args, choices, status, recorded, intended, answer) == choices
            &&& reason.forceable() ==> gated(
                linking,
                args,
                choices,
                status,
                recorded,
                intended,
                answer,
            ) == Some(
                if reason.authorized_by(&args) {
                    Op::Confirmed(reason)
                } else {
                    Op::Denied(reason)
                },
            )
        }),
{
}

/// A `link` run that learns that nothing is at the destination in hand
/// asks for the symlink to be created, and for nothing else: it puts no
/// question and plans no removal. At a dry run it asks for no action at
/// all and moves on.
pub proof fn law_run_links_a_free_destination(m: DotsModel)
    requires
        m.wf(),
        m.linking,
        m.waiting is Status,
    ensures
        ({
            let after = m.resumed(Event::Status(FilesystemStatus::NotFound));
            let dest = m.targets[m.next].0;
            let source = m.targets[m.next].1;
            &&& !(after.1.request is Prompt)
            &&& after.0.ledger == m.ledger
            &&& after.0.link_stats.symlinks_removed == m.link_stats.symlinks_removed
            &&& after.0.link_stats.files_removed == m.link_stats.files_removed
            &&& !m.args.dry_run ==> after.1.request == RequestModel::Perform(
                seq![Action::CreateParent(dest), Action::CreateSymlink { source, dest }],
            )
            &&& m.args.dry_run ==> !(after.1.request is Perform)
        }),
{
}

/// A `link` run that finds the intended symlink at the destination in
/// hand passes it over: it asks for no action and puts no question,
/// leaves the ledger as it is, counts the destination as skipped and
/// goes on to the next one, or is over without an error. So a second
/// `link` run over a tree that the first one linked changes nothing.
pub proof fn law_run_passes_over_a_linked_destination(m: DotsModel, held: String)
    requires
        m.wf(),
        m.linking,
        m.waiting is Status,
        held@ == m.targets[m.next].1@,
    ensures
        ({
            let status = FilesystemStatus::Symlink { points_to: Some(held), dangling: false };
            let after = m.resumed(Event::Status(status));
            &&& after.0.ledger == m.ledger
            &&& after.0.dirty == m.dirty
            &&& after.0.would_change == m.would_change
            &&& after.0.next == m.next + 1
            &&& after.0.link_stats == (LinkStats {
                targets_skipped: (m.link_stats.targets_skipped + 1) as i32,
                ..m.link_stats
            })
            &&& after.1.request is Status || after.1.request matches RequestModel::Finished(Ok(_))
        }),
{
}

/// A `link` run without force flags that is not interactive skips a
/// destination where a file or a directory is that the ledger does not
/// record: it asks for no action and puts no question, leaves the ledger
/// as it is, counts the destination as skipped and not as an error, and
/// goes on.
pub proof fn law_run_skips_an_unrecorded_file(m: DotsModel, status: FilesystemStatus)
    requires
        m.wf(),
        m.linking,
        m.waiting is Status,
        status is File || status is Directory,
        !pairs_map(m.ledger).contains_key(m.targets[m.next].0@),
        !m.args.interactive,
        !m.args.force_dangerously,
    ensures
        ({
            let after = m.resumed(Event::Status(status));
            &&& after.0.ledger == m.ledger
            &&& after.0.dirty == m.dirty
            &&& after.0.next == m.next + 1
            &&& after.0.link_stats == (LinkStats {
                targets_skipped: (m.link_stats.targets_skipped + 1) as i32,
                ..m.link_stats
            })
            &&& after.1.request is Status || after.1.request matches RequestModel::Finished(Ok(_))
        }),
{
}

/// The destinations of `targets` taken out of `ledger`, one after the other.
pub open spec fn unbind_all(ledger: Seq<Pair>, targets: Seq<Pair>) -> Seq<Pair>
    decreases targets.len(),
{
    if targets.len() == 0 {
        ledger
    } else {
        pairs_remove(unbind_all(ledger, targets.drop_last()), targets.last().0)
    }
}

/// Binding pairs keeps the keys distinct; the keys afterwards are those
/// before and those of the pairs, and each key of the pairs has the value
/// of its last pair, whatever was bound before.
pub proof fn lemma_bind_all(start: Seq<Pair>, targets: Seq<Pair>)
    requires
        distinct_keys(start),
    ensures
        distinct_keys(bind_all(start, targets)),
        forall|d: Seq<char>| #[trigger]
            pairs_map(bind_all(start, targets)).contains_key(d) <==> pairs_map(start).contains_key(d)
                || has_key(targets, d),
        forall|d: Seq<char>|
            !has_key(targets, d) && pairs_map(start).contains_key(d) ==> #[trigger] pairs_map(
                bind_all(start, targets),
            )[d] == pairs_map(start)[d],
        forall|d: Seq<char>| #[trigger]
            has_key(targets, d) ==> pairs_map(bind_all(start, targets))[d] == pairs_map(
                bind_all(Seq::empty(), targets),
            )[d],
    decreases targets.len(),
{
    if targets.len() == 0 {
        assert forall|d: Seq<char>| #[trigger] has_key(targets, d) implies false by {}
    } else {
        let before = targets.drop_last();
        let last = targets.last();
        lemma_bind_all(start, before);
        lemma_bind_all(Seq::empty(), before);
        lemma_pairs_insert(bind_all(start, before), last.0, last.1);
        lemma_pairs_insert(bind_all(Seq::empty(), before), last.0, last.1);
        assert forall|d: Seq<char>| has_key(targets, d) <==> has_key(before, d) || d == last.0 by {
            if has_key(targets, d) {
                let i = choose|i: int| 0 <= i < targets.len() && (#[trigger] targets[i]).0 == d;
                if i < before.len() {
                    assert(before[i] == targets[i]);
                }
            }
            if has_key(before, d) {
                let i = choose|i: int| 0 <= i < before.len() && (#[trigger] before[i]).0 == d;
                assert(targets[i] == before[i]);
            }
            if d == last.0 {
                assert(targets[targets.len() - 1].0 == d);
            }
        }
        assert forall|d: Seq<char>| #[trigger]
            pairs_map(bind_all(start, targets)).contains_key(d) <==> pairs_map(start).contains_key(d)
                || has_key(targets, d) by {
            assert(has_key(targets, d) <==> has_key(before, d) || d == last.0);
        }
        assert forall|d: Seq<char>|
            !has_key(targets, d) && pairs_map(start).contains_key(d) implies #[trigger] pairs_map(
            bind_all(start, targets),
        )[d] == pairs_map(start)[d] by {
            assert(has_key(targets, d) <==> has_key(before, d) || d == last.0);
        }
        assert forall|d: Seq<char>| #[trigger] has_key(targets, d) implies pairs_map(
            bind_all(start, targets),
        )[d] == pairs_map(bind_all(Seq::empty(), targets))[d] by {
            assert(has_key(targets, d) <==> has_key(before, d) || d == last.0);
        }
    }
}

/// Taking destinations out keeps the keys distinct, and leaves the
/// bindings of every other key as they were.
pub proof fn lemma_unbind_all(ledger: Seq<Pair>, targets: Seq<Pair>)
    requires
        distinct_keys(ledger),
    ensures
        distinct_keys(unbind_all(ledger, targets)),
        forall|d: Seq<char>| #[trigger]
            pairs_map(unbind_all(ledger, targets)).contains_key(d) <==> pairs_map(
                ledger,
            ).contains_key(d) && !has_key(targets, d),
        forall|d: Seq<char>| #[trigger]
            pairs_map(unbind_all(ledger, targets)).contains_key(d) ==> pairs_map(
                unbind_all(ledger, targets),
            )[d] == pairs_map(ledger)[d],
    decreases targets.len(),
{
    if targets.len() == 0 {
        assert forall|d: Seq<char>| #[trigger] has_key(targets, d) implies false by {}
    } else {
        let before = targets.drop_last();
        let last = targets.last();
        lemma_unbind_all(ledger, before);
        lemma_pairs_remove(unbind_all(ledger, before), last.0);
        assert forall|d: Seq<char>| has_key(targets, d) <==> has_key(before, d) || d == last.0 by {
            if has_key(targets, d) {
                let i = choose|i: int| 0 <= i < targets.len() && (#[trigger] targets[i]).0 == d;
                if i < before.len() {
                    assert(before[i] == targets[i]);
                }
            }
            if has_key(before, d) {
                let i = choose|i: int| 0 <= i < before.len() && (#[trigger] before[i]).0 == d;
                assert(targets[i] == before[i]);
            }
            if d == last.0 {
                assert(targets[targets.len() - 1].0 == d);
            }
        }
        assert forall|d: Seq<char>| #[trigger]
            pairs_map(unbind_all(ledger, targets)).contains_key(d) <==> pairs_map(
                ledger,
            ).contains_key(d) && !has_key(targets, d) by {
            assert(has_key(targets, d) <==> has_key(before, d) || d == last.0);
        }
    }
}

/// Unlinking a set of targets and linking it again records for each of
/// its destinations the source that linking it from an empty ledger
/// records, and leaves what the ledger records for any other destination
/// as it was. The ledger is taken through `pairs_remove` and
/// `pairs_insert`, as `unlink` and `link` take it for each destination
/// that they remove or create.
pub proof fn law_unlink_then_link(ledger: Seq<Pair>, targets: Seq<Pair>)
    requires
        distinct_keys(ledger),
    ensures
        ({
            let after = pairs_map(bind_all(unbind_all(ledger, targets), targets));
            let fresh = pairs_map(bind_all(Seq::empty(), targets));
            &&& forall|d: Seq<char>| #[trigger] fresh.contains_key(d) <==> has_key(targets, d)
            &&& forall|d: Seq<char>| #[trigger]
                has_key(targets, d) ==> after.contains_key(d) && after[d] == fresh[d]
            &&& forall|d: Seq<char>|
                !has_key(targets, d) ==> (#[trigger] after.contains_key(d) <==> pairs_map(
                    ledger,
                ).contains_key(d))
            &&& forall|d: Seq<char>|
                !has_key(targets, d) && pairs_map(ledger).contains_key(d) ==> #[trigger] after[d]
                    == pairs_map(ledger)[d]
        }),
{
    let cleared = unbind_all(ledger, targets);
    lemma_unbind_all(ledger, targets);
    lemma_bind_all(cleared, targets);
    lemma_bind_all(Seq::empty(), targets);
    let after = pairs_map(bind_all(cleared, targets));
    let fresh = pairs_map(bind_all(Seq::empty(), targets));
    assert forall|d: Seq<char>| #[trigger] fresh.contains_key(d) <==> has_key(targets, d) by {
        assert(!pairs_map(Seq::<Pair>::empty()).contains_key(d));
    }
    assert forall|d: Seq<char>| #[trigger] has_key(targets, d) implies after.contains_key(d)
        && after[d] == fresh[d] by {}
    assert forall|d: Seq<char>| !has_key(targets, d) implies (#[trigger] after.contains_key(d)
        <==> pairs_map(ledger).contains_key(d)) by {
        assert(pairs_map(cleared).contains_key(d) <==> pairs_map(ledger).contains_key(d));
    }
    assert forall|d: Seq<char>|
        !has_key(targets, d) && pairs_map(ledger).contains_key(d) implies #[trigger] after[d]
        == pairs_map(ledger)[d] by {
        assert(pairs_map(cleared).contains_key(d));
    }
}

/// The paths that a wildcard followed by the component `x` finds for the
/// entries `entries` from position `i` on: for each directory among
/// them, in order, `x` below it.
pub open spec fn below_each(
    base: Seq<char>,
    acc: Seq<char>,
    entries: Seq<(Seq<char>, bool)>,
    i: int,
    x: Seq<char>,
    env: Env,
) -> Seq<Found>
    decreases entries.len() - i,
{
    if i < 0 || i >= entries.len() {
        Seq::empty()
    } else if entries[i].1 {
        seq![(joined(base, joined(joined(acc, entries[i].0), x)), env)] + below_each(
            base,
            acc,
            entries,
            i + 1,
            x,
            env,
        )
    } else {
        below_each(base, acc, entries, i + 1, x, env)
    }
}

/// The entries from position `i` on expand to `x` below each directory among them.
pub proof fn lemma_expanded_below_each(
    w: World,
    base: Seq<char>,
    acc: Seq<char>,
    entries: Seq<(Seq<char>, bool)>,
    i: int,
    x: Seq<char>,
    env: Env,
)
    requires
        segment_kind(x) is Literal,
        0 <= i,
    ensures
        expanded(w, base, acc, entries, i, seq![seq!['*'], x], 0, env, None) == OutcomeModel::Ready(
            below_each(base, acc, entries, i, x, env),
        ),
    decreases entries.len() - i,
{
    let segs = seq![seq!['*'], x];
    if i < entries.len() {
        lemma_expanded_below_each(w, base, acc, entries, i + 1, x, env);
        if entries[i].1 {
            let inner = joined(acc, entries[i].0);
            assert(segs[1] == x);
            assert(resolved(w, base, inner, segs, 1, env) == resolved(
                w,
                base,
                joined(inner, x),
                segs,
                2,
                env,
            ));
            assert(resolved(w, base, joined(inner, x), segs, 2, env) == OutcomeModel::Ready(
                seq![(joined(base, joined(inner, x)), env)],
            ));
        }
    } else {
        assert(below_each(base, acc, entries, i, x, env) =~= Seq::<Found>::empty());
    }
}

/// A wildcard followed by a literal component `x`, resolved at a place
/// whose listing is known, finds `x` below each entry of the listing that
/// is a directory, in listing order, and nothing for any other entry.
/// For a listing of two directories `a` and `b` these are the two paths
/// `a/x` and `b/x` below the place.
pub proof fn law_wildcard_expands(
    w: World,
    base: Seq<char>,
    acc: Seq<char>,
    entries: Seq<(Seq<char>, bool)>,
    x: Seq<char>,
    env: Env,
)
    requires
        segment_kind(x) is Literal,
        w.listings.contains_key(joined(base, acc)),
        w.listings[joined(base, acc)] == ListingModel::Entries(entries),
    ensures
        resolved(w, base, acc, seq![seq!['*'], x], 0, env) == OutcomeModel::Ready(
            below_each(base, acc, entries, 0, x, env),
        ),
        entries.len() == 2 && entries[0].1 && entries[1].1 ==> below_each(
            base,
            acc,
            entries,
            0,
            x,
            env,
        ) == seq![
            (joined(base, joined(joined(acc, entries[0].0), x)), env),
            (joined(base, joined(joined(acc, entries[1].0), x)), env),
        ],
        entries.len() == 2 && entries[0].1 && !entries[1].1 ==> below_each(
            base,
            acc,
            entries,
            0,
            x,
            env,
        ) == seq![(joined(base, joined(joined(acc, entries[0].0), x)), env)],
{
    let segs = seq![seq!['*'], x];
    assert(segs[0] == seq!['*']);
    assert(segment_kind(segs[0]) is Wildcard);
    lemma_expanded_below_each(w, base, acc, entries, 0, x, env);
    assert(resolved(w, base, acc, segs, 0, env) == listed(w, base, acc, segs, 0, env, None));
    if entries.len() == 2 {
        reveal_with_fuel(below_each, 4);
        if entries[0].1 && entries[1].1 {
            assert(below_each(base, acc, entries, 0, x, env) =~= seq![
                (joined(base, joined(joined(acc, entries[0].0), x)), env),
                (joined(base, joined(joined(acc, entries[1].0), x)), env),
            ]);
        }
        if entries[0].1 && !entries[1].1 {
            assert(below_each(base, acc, entries, 0, x, env) =~= seq![
                (joined(base, joined(joined(acc, entries[0].0), x)), env),
            ]);
        }
    }
}

/// Whether the world `more` knows every answer that `w` knows, and the same one.
pub open spec fn knows_more(more: World, w: World) -> bool {
    &&& w.listings.submap_of(more.listings)
    &&& w.outputs.submap_of(more.outputs)
}

/// Whether a query is one whose answer the world `w` lacks.
pub open spec fn unanswered(w: World, outcome: crate::resolve::Resolution) -> bool {
    match outcome {
        OutcomeModel::Need(crate::knowledge::QueryModel::ListDir(path)) => !w.listings.contains_key(
            path,
        ),
        OutcomeModel::Need(crate::knowledge::QueryModel::Shell { command, env }) => !w.outputs.contains_key(
            (command, env),
        ),
        _ => true,
    }
}

/// A resolution asks only for what is not known: the query it needs has
/// no answer in the world, so that recording the answer lets the
/// resolution get further.
pub proof fn law_resolution_needs_the_unknown(
    w: World,
    base: Seq<char>,
    acc: Seq<char>,
    segs: Seq<Seq<char>>,
    at: int,
    env: Env,
)
    ensures
        unanswered(w, resolved(w, base, acc, segs, at, env)),
    decreases segs.len() - at, 2int, 0int,
{
    if 0 <= at < segs.len() {
        let seg = segs[at];
        match segment_kind(seg) {
            crate::resolve::SegmentKind::Wildcard => {
                lemma_listing_needs_the_unknown(w, base, acc, segs, at, env, None);
            },
            crate::resolve::SegmentKind::Variable => {
                let name = crate::resolve::variable_name(seg);
                if !env.contains_key(name) {
                    law_resolution_needs_the_unknown(w, base, joined(acc, seg), segs, at + 1, env);
                } else if env[name] == seq!['*'] {
                    lemma_listing_needs_the_unknown(w, base, acc, segs, at, env, Some(name));
                } else {
                    law_resolution_needs_the_unknown(
                        w,
                        base,
                        joined(acc, env[name]),
                        segs,
                        at + 1,
                        env,
                    );
                }
            },
            crate::resolve::SegmentKind::Shell => {
                let key = (crate::shell::echo_line(seg), env);
                if w.outputs.contains_key(key) {
                    match w.outputs[key] {
                        Ok(output) => {
                            law_resolution_needs_the_unknown(
                                w,
                                base,
                                joined(acc, crate::text::trimmed(output)),
                                segs,
                                at + 1,
                                env,
                            );
                        },
                        Err(_) => {
                            law_resolution_needs_the_unknown(
                                w,
                                base,
                                joined(acc, seg),
                                segs,
                                at + 1,
                                env,
                            );
                        },
                    }
                }
            },
            crate::resolve::SegmentKind::Literal => {
                law_resolution_needs_the_unknown(w, base, joined(acc, seg), segs, at + 1, env);
            },
        }
    }
}

/// A listing asks only for what is not known.
pub proof fn lemma_listing_needs_the_unknown(
    w: World,
    base: Seq<char>,
    acc: Seq<char>,
    segs: Seq<Seq<char>>,
    at: int,
    env: Env,
    bind: Option<Seq<char>>,
)
    ensures
        unanswered(w, listed(w, base, acc, segs, at, env, bind)),
    decreases segs.len() - at, 1int, 0int,
{
    let place = joined(base, acc);
    if 0 <= at < segs.len() && w.listings.contains_key(place) {
        match w.listings[place] {
            ListingModel::Entries(entries) => {
                lemma_expansion_needs_the_unknown(w, base, acc, entries, 0, segs, at, env, bind);
            },
            _ => {},
        }
    }
}

/// An expansion asks only for what is not known.
pub proof fn lemma_expansion_needs_the_unknown(
    w: World,
    base: Seq<char>,
    acc: Seq<char>,
    entries: Seq<(Seq<char>, bool)>,
    i: int,
    segs: Seq<Seq<char>>,
    at: int,
    env: Env,
    bind: Option<Seq<char>>,
)
    ensures
        unanswered(w, expanded(w, base, acc, entries, i, segs, at, env, bind)),
    decreases segs.len() - at, 0int, entries.len() - i,
{
    if 0 <= at < segs.len() && 0 <= i < entries.len() {
        lemma_expansion_needs_the_unknown(w, base, acc, entries, i + 1, segs, at, env, bind);
        if entries[i].1 {
            let inner = match bind {
                Some(name) => env.insert(name, entries[i].0),
                None => env,
            };
            law_resolution_needs_the_unknown(
                w,
                base,
                joined(acc, entries[i].0),
                segs,
                at + 1,
                inner,
            );
        }
    }
}

/// A resolution that needs no answer stays as it is when more becomes
/// known: what was found, or the error, is the same in every world that
/// knows more.
pub proof fn law_resolution_is_stable(
    w: World,
    more: World,
    base: Seq<char>,
    acc: Seq<char>,
    segs: Seq<Seq<char>>,
    at: int,
    env: Env,
)
    requires
        knows_more(more, w),
        !(resolved(w, base, acc, segs, at, env) is Need),
    ensures
        resolved(more, base, acc, segs, at, env) == resolved(w, base, acc, segs, at, env),
    decreases segs.len() - at, 2int, 0int,
{
    if 0 <= at < segs.len() {
        let seg = segs[at];
        match segment_kind(seg) {
            crate::resolve::SegmentKind::Wildcard => {
                lemma_listing_is_stable(w, more, base, acc, segs, at, env, None);
            },
            crate::resolve::SegmentKind::Variable => {
                let name = crate::resolve::variable_name(seg);
                if !env.contains_key(name) {
                    law_resolution_is_stable(w, more, base, joined(acc, seg), segs, at + 1, env);
                } else if env[name] == seq!['*'] {
                    lemma_listing_is_stable(w, more, base, acc, segs, at, env, Some(name));
                } else {
                    law_resolution_is_stable(
                        w,
                        more,
                        base,
                        joined(acc, env[name]),
                        segs,
                        at + 1,
                        env,
                    );
                }
            },
            crate::resolve::SegmentKind::Shell => {
                let key = (crate::shell::echo_line(seg), env);
                assert(w.outputs.contains_key(key));
                assert(w.outputs.dom().contains(key));
                assert(more.outputs.contains_key(key) && more.outputs[key] == w.outputs[key]);
                match w.outputs[key] {
                    Ok(output) => {
                        law_resolution_is_stable(
                            w,
                            more,
                            base,
                            joined(acc, crate::text::trimmed(output)),
                            segs,
                            at + 1,
                            env,
                        );
                    },
                    Err(_) => {
                        law_resolution_is_stable(
                            w,
                            more,
                            base,
                            joined(acc, seg),
                            segs,
                            at + 1,
                            env,
                        );
                    },
                }
            },
            crate::resolve::SegmentKind::Literal => {
                law_resolution_is_stable(w, more, base, joined(acc, seg), segs, at + 1, env);
            },
        }
    }
}

/// A listing that needs no answer stays as it is when more becomes known.
pub proof fn lemma_listing_is_stable(
    w: World,
    more: World,
    base: Seq<char>,
    acc: Seq<char>,
    segs: Seq<Seq<char>>,
    at: int,
    env: Env,
    bind: Option<Seq<char>>,
)
    requires
        knows_more(more, w),
        !(listed(w, base, acc, segs, at, env, bind) is Need),
    ensures
        listed(more, base, acc, segs, at, env, bind) == listed(w, base, acc, segs, at, env, bind),
    decreases segs.len() - at, 1int, 0int,
{
    let place = joined(base, acc);
    if 0 <= at < segs.len() {
        assert(w.listings.contains_key(place));
        assert(w.listings.dom().contains(place));
        assert(more.listings.contains_key(place) && more.listings[place] == w.listings[place]);
        match w.listings[place] {
            ListingModel::Entries(entries) => {
                lemma_expansion_is_stable(w, more, base, acc, entries, 0, segs, at, env, bind);
            },
            _ => {},
        }
    }
}

/// An expansion that needs no answer stays as it is when more becomes known.
pub proof fn lemma_expansion_is_stable(
    w: World,
    more: World,
    base: Seq<char>,
    acc: Seq<char>,
    entries: Seq<(Seq<char>, bool)>,
    i: int,
    segs: Seq<Seq<char>>,
    at: int,
    env: Env,
    bind: Option<Seq<char>>,
)
    requires
        knows_more(more, w),
        !(expanded(w, base, acc, entries, i, segs, at, env, bind) is Need),
    ensures
        expanded(more, base, acc, entries, i, segs, at, env, bind) == expanded(
            w,
            base,
            acc,
            entries,
            i,
            segs,
            at,
            env,
            bind,
        ),
    decreases segs.len() - at, 0int, entries.len() - i,
{
    if 0 <= at < segs.len() && 0 <= i < entries.len() {
        if !entries[i].1 {
            lemma_expansion_is_stable(w, more, base, acc, entries, i + 1, segs, at, env, bind);
        } else {
            let inner = match bind {
                Some(name) => env.insert(name, entries[i].0),
                None => env,
            };
            let first = resolved(w, base, joined(acc, entries[i].0), segs, at + 1, inner);
            law_resolution_is_stable(
                w,
                more,
                base,
                joined(acc, entries[i].0),
                segs,
                at + 1,
                inner,
            );
            if first is Ready {
                lemma_expansion_is_stable(w, more, base, acc, entries, i + 1, segs, at, env, bind);
            }
        }
    }
}

} // verus!
