use dots::args::DotsLinkArgs;
use dots::choice::{Choice, ChoiceState, UserChoiceState};
use dots::engine::{
    classify_target, failure_message, gate, plan_link, plan_unlink, prompt_message, prompt_user,
    Action, Attempt, Performed,
};
use dots::dots::Dots;
use dots::reason::{Op, Reason};
use dots::stats::{LinkStats, UnlinkStats};
use dots::status::FilesystemStatus;
use dots::trackfile::Trackfile;

fn s(text: &str) -> String {
    text.to_string()
}

fn flags() -> DotsLinkArgs {
    DotsLinkArgs::new(s("dotfiles"))
}

fn symlink(to: &str) -> FilesystemStatus {
    FilesystemStatus::Symlink { points_to: Some(s(to)), dangling: false }
}

fn dangling() -> FilesystemStatus {
    FilesystemStatus::Symlink { points_to: Some(s("/gone")), dangling: true }
}

fn every_flag_setting() -> Vec<DotsLinkArgs> {
    let mut all = Vec::new();
    for bits in 0..32u8 {
        let mut f = flags();
        f.force_correct_symlink = bits & 1 != 0;
        f.force_symlink = bits & 2 != 0;
        f.force_file = bits & 4 != 0;
        f.force_dangerously = bits & 8 != 0;
        f.interactive = bits & 16 != 0;
        all.push(f);
    }
    all
}

#[test]
fn classify_nothing_there() {
    assert_eq!(classify_target(&FilesystemStatus::NotFound, None, "/s"), Reason::NotFound);
    assert_eq!(
        classify_target(&FilesystemStatus::NotFound, Some(&s("/old")), "/s"),
        Reason::NotFound
    );
}

#[test]
fn classify_status_error() {
    assert_eq!(
        classify_target(&FilesystemStatus::Error(s("denied")), None, "/s"),
        Reason::StatusError(s("denied"))
    );
}

#[test]
fn classify_symlinks() {
    assert_eq!(classify_target(&dangling(), None, "/s"), Reason::DanglingSymlink);
    assert_eq!(classify_target(&dangling(), Some(&s("/gone")), "/gone"), Reason::DanglingSymlink);
    assert_eq!(classify_target(&symlink("/s"), None, "/s"), Reason::IntendedSymlink);
    assert_eq!(classify_target(&symlink("/s"), Some(&s("/old")), "/s"), Reason::IntendedSymlink);
    assert_eq!(
        classify_target(&symlink("/old"), Some(&s("/old")), "/s"),
        Reason::ForceCorrectSymlink
    );
    assert_eq!(classify_target(&symlink("/else"), Some(&s("/old")), "/s"), Reason::ForceSymlink);
    assert_eq!(classify_target(&symlink("/else"), None, "/s"), Reason::ForceDangerously);
    let unread = FilesystemStatus::Symlink { points_to: None, dangling: false };
    assert_eq!(classify_target(&unread, Some(&s("/old")), "/s"), Reason::ForceSymlink);
    assert_eq!(classify_target(&unread, None, "/s"), Reason::ForceDangerously);
}

#[test]
fn classify_files_and_directories() {
    for status in [FilesystemStatus::File, FilesystemStatus::Directory] {
        assert_eq!(classify_target(&status, Some(&s("/old")), "/s"), Reason::ForceFile);
        assert_eq!(classify_target(&status, None, "/s"), Reason::ForceDangerously);
    }
    assert_eq!(classify_target(&FilesystemStatus::Other, None, "/s"), Reason::StatusInvalid);
    assert_eq!(
        classify_target(&FilesystemStatus::Other, Some(&s("/old")), "/s"),
        Reason::StatusInvalid
    );
}

#[test]
fn gate_settles_unforced_reasons_by_direction() {
    let mut m = UserChoiceState::default();
    let f = flags();
    let none = FilesystemStatus::NotFound;
    assert_eq!(gate(true, &f, &mut m, &none, None, "/s", None), Some(Op::Confirmed(Reason::NotFound)));
    assert_eq!(gate(false, &f, &mut m, &none, None, "/s", None), Some(Op::Denied(Reason::NotFound)));
    let same = symlink("/s");
    assert_eq!(
        gate(true, &f, &mut m, &same, None, "/s", None),
        Some(Op::Denied(Reason::IntendedSymlink))
    );
    assert_eq!(
        gate(false, &f, &mut m, &same, None, "/s", None),
        Some(Op::Confirmed(Reason::IntendedSymlink))
    );
    let other = FilesystemStatus::Other;
    assert_eq!(
        gate(true, &f, &mut m, &other, None, "/s", None),
        Some(Op::Confirmed(Reason::StatusInvalid))
    );
    assert_eq!(
        gate(false, &f, &mut m, &other, None, "/s", None),
        Some(Op::Confirmed(Reason::StatusInvalid))
    );
    let err = FilesystemStatus::Error(s("denied"));
    for linking in [true, false] {
        assert_eq!(
            gate(linking, &f, &mut m, &err, None, "/s", None),
            Some(Op::Denied(Reason::StatusError(s("denied"))))
        );
    }
    assert_eq!(m, UserChoiceState::default());
}

#[test]
fn dangling_symlink_is_always_confirmed() {
    for f in every_flag_setting() {
        for linking in [true, false] {
            let mut m = UserChoiceState::default();
            m.set_never(&Reason::ForceDangerously).unwrap();
            m.set_never(&Reason::ForceSymlink).unwrap();
            let before = m;
            assert_eq!(
                gate(linking, &f, &mut m, &dangling(), None, "/s", None),
                Some(Op::Confirmed(Reason::DanglingSymlink))
            );
            assert_eq!(m, before);
        }
    }
    let op = Op::Confirmed(Reason::DanglingSymlink);
    assert_eq!(
        plan_link(&op, &dangling(), &s("/d"), &s("/s")),
        vec![
            Action::RemoveFile(s("/d")),
            Action::CreateParent(s("/d")),
            Action::CreateSymlink { source: s("/s"), dest: s("/d") },
        ]
    );
    assert_eq!(plan_unlink(&op, &dangling(), &s("/d")), vec![Action::RemoveFile(s("/d"))]);
}

#[test]
fn gate_without_prompt_follows_the_flags() {
    let mut m = UserChoiceState::default();
    let file = FilesystemStatus::File;
    let f = flags();
    assert_eq!(
        gate(true, &f, &mut m, &file, None, "/s", None),
        Some(Op::Denied(Reason::ForceDangerously))
    );
    assert_eq!(
        gate(true, &f, &mut m, &file, Some(&s("/old")), "/s", None),
        Some(Op::Denied(Reason::ForceFile))
    );
    let mut f = flags();
    f.force_file = true;
    assert_eq!(
        gate(true, &f, &mut m, &file, Some(&s("/old")), "/s", None),
        Some(Op::Confirmed(Reason::ForceFile))
    );
    assert_eq!(
        gate(true, &f, &mut m, &file, None, "/s", None),
        Some(Op::Denied(Reason::ForceDangerously))
    );
    assert_eq!(
        gate(false, &f, &mut m, &symlink("/x"), Some(&s("/old")), "/s", Some(Choice::Quit)),
        Some(Op::Confirmed(Reason::ForceSymlink))
    );
    assert_eq!(m, UserChoiceState::default());
}

#[test]
fn prompt_user_asks_then_remembers() {
    let mut m = UserChoiceState::default();
    let reason = Reason::ForceFile;
    assert_eq!(prompt_user(&mut m, &reason, None), None);
    assert_eq!(
        prompt_user(&mut m, &reason, Some(Choice::Yes { all: false })),
        Some(Op::Confirmed(Reason::ForceFile))
    );
    assert_eq!(m.get(&reason), Some(ChoiceState::Unset));
    assert_eq!(
        prompt_user(&mut m, &reason, Some(Choice::No { all: false })),
        Some(Op::Denied(Reason::ForceFile))
    );
    assert_eq!(prompt_user(&mut m, &reason, Some(Choice::Quit)), Some(Op::Denied(Reason::UserQuit)));
    assert_eq!(m, UserChoiceState::default());
    assert_eq!(
        prompt_user(&mut m, &reason, Some(Choice::Yes { all: true })),
        Some(Op::Confirmed(Reason::ForceFile))
    );
    assert_eq!(m.get(&reason), Some(ChoiceState::Always));
    assert_eq!(prompt_user(&mut m, &reason, None), Some(Op::Confirmed(Reason::ForceFile)));
    assert_eq!(
        prompt_user(&mut m, &reason, Some(Choice::No { all: true })),
        Some(Op::Confirmed(Reason::ForceFile))
    );
    assert_eq!(m.get(&reason), Some(ChoiceState::Always));
    assert_eq!(m.get(&Reason::ForceSymlink), Some(ChoiceState::Unset));
    let other = Reason::ForceSymlink;
    assert_eq!(
        prompt_user(&mut m, &other, Some(Choice::No { all: true })),
        Some(Op::Denied(Reason::ForceSymlink))
    );
    assert_eq!(prompt_user(&mut m, &other, None), Some(Op::Denied(Reason::ForceSymlink)));
    assert_eq!(m.get(&other), Some(ChoiceState::Never));
}

#[test]
fn consult_user_by_flags_or_by_answer() {
    let mut m = UserChoiceState::default();
    let mut f = flags();
    assert_eq!(
        Reason::ForceSymlink.consult_user(&f, &mut m, None),
        Some(Op::Denied(Reason::ForceSymlink))
    );
    f.force_symlink = true;
    assert_eq!(
        Reason::ForceSymlink.consult_user(&f, &mut m, None),
        Some(Op::Confirmed(Reason::ForceSymlink))
    );
    assert_eq!(Reason::NotFound.consult_user(&f, &mut m, None), Some(Op::Denied(Reason::UserQuit)));
    f.interactive = true;
    assert_eq!(Reason::ForceSymlink.consult_user(&f, &mut m, None), None);
    assert_eq!(
        Reason::ForceSymlink.consult_user(&f, &mut m, Some(Choice::No { all: true })),
        Some(Op::Denied(Reason::ForceSymlink))
    );
    assert_eq!(m.get(&Reason::ForceSymlink), Some(ChoiceState::Never));
    assert_eq!(
        Reason::DanglingSymlink.consult_user(&f, &mut m, Some(Choice::Yes { all: true })),
        Some(Op::Denied(Reason::UserQuit))
    );
}

#[test]
fn prompt_messages() {
    assert_eq!(
        prompt_message(&Reason::ForceSymlink, "/home/u/.bashrc", Some(&s("/old/.bashrc"))),
        "[ -fs ] Remove symlink at /home/u/.bashrc (points to: /old/.bashrc)"
    );
    assert_eq!(
        prompt_message(&Reason::ForceDangerously, "/home/u/.bashrc", None),
        "[ --force-dangerously ] Remove file (not a symlink!) at /home/u/.bashrc"
    );
}

#[test]
fn plans_for_link() {
    let d = s("/d");
    let src = s("/s");
    let create = vec![
        Action::CreateParent(s("/d")),
        Action::CreateSymlink { source: s("/s"), dest: s("/d") },
    ];
    assert_eq!(
        plan_link(&Op::Confirmed(Reason::NotFound), &FilesystemStatus::NotFound, &d, &src),
        create
    );
    assert_eq!(
        plan_link(&Op::Confirmed(Reason::StatusInvalid), &FilesystemStatus::Other, &d, &src),
        create
    );
    let plan = plan_link(&Op::Confirmed(Reason::ForceFile), &FilesystemStatus::Directory, &d, &src);
    assert_eq!(plan.len(), 3);
    assert_eq!(plan[0], Action::RemoveDirAll(s("/d")));
    let plan = plan_link(&Op::Confirmed(Reason::ForceFile), &FilesystemStatus::File, &d, &src);
    assert_eq!(plan[0], Action::RemoveFile(s("/d")));
    let none: Vec<Action> = Vec::new();
    assert_eq!(plan_link(&Op::Denied(Reason::ForceFile), &FilesystemStatus::File, &d, &src), none);
}

#[test]
fn plans_for_unlink() {
    let d = s("/d");
    assert_eq!(
        plan_unlink(&Op::Confirmed(Reason::IntendedSymlink), &symlink("/s"), &d),
        vec![Action::RemoveFile(s("/d"))]
    );
    assert_eq!(
        plan_unlink(&Op::Confirmed(Reason::ForceFile), &FilesystemStatus::Directory, &d),
        vec![Action::RemoveDirAll(s("/d"))]
    );
    let none: Vec<Action> = Vec::new();
    assert_eq!(plan_unlink(&Op::Denied(Reason::NotFound), &FilesystemStatus::NotFound, &d), none);
}

#[test]
fn failure_messages_say_what_was_tried() {
    assert_eq!(
        failure_message(&Action::RemoveFile(s("/d")), &symlink("/x"), "busy"),
        "Failed to remove symlink at /d: busy"
    );
    assert_eq!(
        failure_message(&Action::RemoveDirAll(s("/d")), &FilesystemStatus::Directory, "busy"),
        "Failed to remove directory at /d: busy"
    );
    assert_eq!(
        failure_message(&Action::CreateParent(s("/a/d")), &FilesystemStatus::NotFound, "denied"),
        "Failed to create parent directory for /a/d: denied"
    );
    assert_eq!(
        failure_message(
            &Action::CreateSymlink { source: s("/s"), dest: s("/d") },
            &FilesystemStatus::NotFound,
            "exists"
        ),
        "Failed to create symlink /d -> /s: exists"
    );
}

#[test]
fn link_to_a_free_destination_needs_no_prompt_and_removes_nothing() {
    for f in every_flag_setting() {
        let mut state = Trackfile::new();
        let mut stats = LinkStats::new(1);
        let mut m = UserChoiceState::default();
        let status = FilesystemStatus::NotFound;
        let first =
            Dots::try_perform_link(&mut state, &f, &mut stats, &mut m, &s("/d"), &s("/s"), &status, None, None);
        assert_eq!(
            first,
            Attempt::Perform(vec![
                Action::CreateParent(s("/d")),
                Action::CreateSymlink { source: s("/s"), dest: s("/d") },
            ])
        );
        assert_eq!(stats, LinkStats::new(1));
        assert!(state.is_empty() && !state.is_dirty());
        let done = Performed::Completed;
        let second = Dots::try_perform_link(
            &mut state, &f, &mut stats, &mut m, &s("/d"), &s("/s"), &status, None, Some(&done),
        );
        assert_eq!(second, Attempt::Done { result: Ok(()), lines: vec![] });
        assert_eq!(stats.symlinks_added, 1);
        assert_eq!(stats.symlinks_removed, 0);
        assert_eq!(stats.files_removed, 0);
        assert_eq!(stats.targets_skipped, 0);
        assert_eq!(state.get_source("/d"), Some(&s("/s")));
        assert!(state.is_dirty());
        assert_eq!(m, UserChoiceState::default());
    }
}

#[test]
fn link_of_the_intended_symlink_changes_nothing() {
    for f in every_flag_setting() {
        let mut state = Trackfile::new();
        state.insert(s("/d"), s("/s"));
        state.saved();
        let mut stats = LinkStats::new(1);
        let mut m = UserChoiceState::default();
        let r = Dots::try_perform_link(
            &mut state, &f, &mut stats, &mut m, &s("/d"), &s("/s"), &symlink("/s"), None, None,
        );
        assert_eq!(r, Attempt::Done { result: Ok(()), lines: vec![] });
        assert_eq!(stats.targets_skipped, 1);
        assert_eq!(stats.symlinks_added + stats.symlinks_removed + stats.files_removed, 0);
        assert!(!state.is_dirty());
        assert_eq!(state.len(), 1);
        assert_eq!(state.get_source("/d"), Some(&s("/s")));
    }
}

#[test]
fn untracked_file_without_force_is_skipped() {
    let mut state = Trackfile::new();
    let f = flags();
    let mut stats = LinkStats::new(1);
    let mut m = UserChoiceState::default();
    let r = Dots::try_perform_link(
        &mut state, &f, &mut stats, &mut m, &s("/d"), &s("/s"), &FilesystemStatus::File, None, None,
    );
    assert_eq!(r, Attempt::Done { result: Ok(()), lines: vec![] });
    assert_eq!(stats.targets_skipped, 1);
    assert_eq!(stats.errors, 0);
    assert_eq!(stats.symlinks_added, 0);
    assert_eq!(stats.files_removed, 0);
    assert!(state.is_empty());
    assert!(!state.is_dirty());
}

#[test]
fn forced_link_over_a_tracked_file() {
    let mut state = Trackfile::new();
    state.insert(s("/d"), s("/old"));
    let mut f = flags();
    f.force_file = true;
    f.verbose = true;
    let mut stats = LinkStats::new(1);
    let mut m = UserChoiceState::default();
    let status = FilesystemStatus::File;
    let first =
        Dots::try_perform_link(&mut state, &f, &mut stats, &mut m, &s("/d"), &s("/s"), &status, None, None);
    assert_eq!(
        first,
        Attempt::Perform(vec![
            Action::RemoveFile(s("/d")),
            Action::CreateParent(s("/d")),
            Action::CreateSymlink { source: s("/s"), dest: s("/d") },
        ])
    );
    let done = Performed::Completed;
    let second = Dots::try_perform_link(
        &mut state, &f, &mut stats, &mut m, &s("/d"), &s("/s"), &status, None, Some(&done),
    );
    assert_eq!(
        second,
        Attempt::Done {
            result: Ok(()),
            lines: vec![s("Removed file at /d"), s("Linked /d -> /s")],
        }
    );
    assert_eq!(stats.files_removed, 1);
    assert_eq!(stats.symlinks_removed, 0);
    assert_eq!(stats.symlinks_added, 1);
    assert_eq!(state.get_source("/d"), Some(&s("/s")));
}

#[test]
fn link_that_fails_midway_counts_what_was_done() {
    let mut state = Trackfile::new();
    state.insert(s("/d"), s("/old"));
    state.saved();
    let mut f = flags();
    f.force_symlink = true;
    let mut stats = LinkStats::new(1);
    let mut m = UserChoiceState::default();
    let status = symlink("/else");
    let failed = Performed::FailedAt(2, s("read-only"));
    let r = Dots::try_perform_link(
        &mut state, &f, &mut stats, &mut m, &s("/d"), &s("/s"), &status, None, Some(&failed),
    );
    assert_eq!(
        r,
        Attempt::Done {
            result: Err(s("Failed to create symlink /d -> /s: read-only")),
            lines: vec![],
        }
    );
    assert_eq!(stats.symlinks_removed, 1);
    assert_eq!(stats.symlinks_added, 0);
    assert_eq!(state.get_source("/d"), Some(&s("/old")));
    assert!(!state.is_dirty());
    let mut stats = LinkStats::new(1);
    let failed = Performed::FailedAt(0, s("busy"));
    let r = Dots::try_perform_link(
        &mut state, &f, &mut stats, &mut m, &s("/d"), &s("/s"), &status, None, Some(&failed),
    );
    assert_eq!(
        r,
        Attempt::Done { result: Err(s("Failed to remove symlink at /d: busy")), lines: vec![] }
    );
    assert_eq!(stats, LinkStats::new(1));
}

#[test]
fn status_error_is_surfaced_not_skipped() {
    let mut state = Trackfile::new();
    let f = flags();
    let mut m = UserChoiceState::default();
    let status = FilesystemStatus::Error(s("Error checking status for /d: denied"));
    let mut stats = LinkStats::new(1);
    let r = Dots::try_perform_link(
        &mut state, &f, &mut stats, &mut m, &s("/d"), &s("/s"), &status, None, None,
    );
    assert_eq!(
        r,
        Attempt::Done { result: Err(s("Error checking status for /d: denied")), lines: vec![] }
    );
    assert_eq!(stats.targets_skipped, 0);
    let mut ustats = UnlinkStats::new(1);
    let r = Dots::try_perform_unlink(
        &mut state, &f, &mut ustats, &mut m, &s("/d"), &s("/s"), &status, None, None,
    );
    assert_eq!(
        r,
        Attempt::Done { result: Err(s("Error checking status for /d: denied")), lines: vec![] }
    );
    assert_eq!(ustats, UnlinkStats::new(1));
}

#[test]
fn interactive_link_asks_then_acts_on_the_answer() {
    let mut state = Trackfile::new();
    let mut f = flags();
    f.interactive = true;
    let mut stats = LinkStats::new(2);
    let mut m = UserChoiceState::default();
    let status = FilesystemStatus::File;
    let r = Dots::try_perform_link(
        &mut state, &f, &mut stats, &mut m, &s("/d"), &s("/s"), &status, None, None,
    );
    assert_eq!(
        r,
        Attempt::Ask {
            question: s("[ --force-dangerously ] Remove file (not a symlink!) at /d"),
            info: s("destination is not tracked"),
        }
    );
    assert_eq!(stats, LinkStats::new(2));
    let r = Dots::try_perform_link(
        &mut state, &f, &mut stats, &mut m, &s("/d"), &s("/s"), &status,
        Some(Choice::Yes { all: true }), None,
    );
    assert!(matches!(r, Attempt::Perform(_)));
    assert_eq!(m.get(&Reason::ForceDangerously), Some(ChoiceState::Always));
    let done = Performed::Completed;
    let r = Dots::try_perform_link(
        &mut state, &f, &mut stats, &mut m, &s("/d"), &s("/s"), &status,
        Some(Choice::Yes { all: true }), Some(&done),
    );
    assert_eq!(r, Attempt::Done { result: Ok(()), lines: vec![] });
    assert_eq!(stats.files_removed, 1);
    assert_eq!(stats.symlinks_added, 1);
    let r = Dots::try_perform_link(
        &mut state, &f, &mut stats, &mut m, &s("/e"), &s("/t"), &status, None, None,
    );
    assert!(matches!(r, Attempt::Perform(_)));
}

#[test]
fn interactive_quit_denies_the_destination_only() {
    let mut state = Trackfile::new();
    let mut f = flags();
    f.interactive = true;
    f.verbose = true;
    let mut stats = LinkStats::new(1);
    let mut m = UserChoiceState::default();
    let r = Dots::try_perform_link(
        &mut state, &f, &mut stats, &mut m, &s("/d"), &s("/s"), &FilesystemStatus::File,
        Some(Choice::Quit), None,
    );
    assert_eq!(
        r,
        Attempt::Done {
            result: Ok(()),
            lines: vec![s("Skipping link for /d: the user canceled the operation ")],
        }
    );
    assert_eq!(stats.targets_skipped, 1);
    assert_eq!(m, UserChoiceState::default());
}

#[test]
fn dry_run_link_counts_but_changes_nothing() {
    let mut state = Trackfile::new();
    let mut f = flags();
    f.dry_run = true;
    let mut stats = LinkStats::new(3);
    let mut m = UserChoiceState::default();
    let r = Dots::try_perform_link(
        &mut state, &f, &mut stats, &mut m, &s("/d"), &s("/s"), &FilesystemStatus::NotFound, None,
        None,
    );
    assert_eq!(
        r,
        Attempt::Done {
            result: Ok(()),
            lines: vec![
                s("/d -> /s"),
                s("[ DRY RUN --- Link ] destination not found (nothing to remove) "),
            ],
        }
    );
    let r = Dots::try_perform_link(
        &mut state, &f, &mut stats, &mut m, &s("/e"), &s("/t"), &dangling(), None, None,
    );
    assert_eq!(
        r,
        Attempt::Done {
            result: Ok(()),
            lines: vec![
                s("/e -> /t"),
                s("[ DRY RUN --- Remove+Link ] destination is a dangling symlink "),
            ],
        }
    );
    let r = Dots::try_perform_link(
        &mut state, &f, &mut stats, &mut m, &s("/f"), &s("/u"), &FilesystemStatus::File, None, None,
    );
    assert_eq!(
        r,
        Attempt::Done {
            result: Ok(()),
            lines: vec![
                s("/f -> /u"),
                s("[ DRY RUN --- Skip ] destination is not tracked (use --force-dangerously to remove)"),
            ],
        }
    );
    assert_eq!(stats.symlinks_added, 2);
    assert_eq!(stats.symlinks_removed, 1);
    assert_eq!(stats.files_removed, 0);
    assert_eq!(stats.targets_skipped, 1);
    assert!(state.is_empty());
    assert!(!state.is_dirty());
}

#[test]
fn unlink_removes_the_intended_symlink() {
    let mut state = Trackfile::new();
    state.insert(s("/d"), s("/s"));
    state.saved();
    let mut f = flags();
    f.verbose = true;
    let mut stats = UnlinkStats::new(1);
    let mut m = UserChoiceState::default();
    let status = symlink("/s");
    let r = Dots::try_perform_unlink(
        &mut state, &f, &mut stats, &mut m, &s("/d"), &s("/s"), &status, None, None,
    );
    assert_eq!(r, Attempt::Perform(vec![Action::RemoveFile(s("/d"))]));
    assert_eq!(state.len(), 1);
    let done = Performed::Completed;
    let r = Dots::try_perform_unlink(
        &mut state, &f, &mut stats, &mut m, &s("/d"), &s("/s"), &status, None, Some(&done),
    );
    assert_eq!(r, Attempt::Done { result: Ok(()), lines: vec![s("Removed symlink at /d")] });
    assert_eq!(stats.symlinks_removed, 1);
    assert_eq!(stats.files_removed, 0);
    assert!(state.is_empty());
    assert!(state.is_dirty());
}

#[test]
fn unlink_skips_what_is_not_there() {
    let mut state = Trackfile::new();
    let mut f = flags();
    f.verbose = true;
    let mut stats = UnlinkStats::new(2);
    let mut m = UserChoiceState::default();
    let r = Dots::try_perform_unlink(
        &mut state, &f, &mut stats, &mut m, &s("/d"), &s("/s"), &FilesystemStatus::NotFound, None,
        None,
    );
    assert_eq!(
        r,
        Attempt::Done {
            result: Ok(()),
            lines: vec![s("Skipping unlink for /d: destination not found (nothing to remove) ")],
        }
    );
    assert_eq!(stats.targets_skipped, 1);
    assert_eq!(stats.symlinks_removed + stats.files_removed, 0);
}

#[test]
fn unlink_removes_an_entry_of_no_known_kind_as_a_file() {
    let mut state = Trackfile::new();
    let f = flags();
    let mut stats = UnlinkStats::new(1);
    let mut m = UserChoiceState::default();
    let status = FilesystemStatus::Other;
    let r = Dots::try_perform_unlink(
        &mut state, &f, &mut stats, &mut m, &s("/d"), &s("/s"), &status, None, None,
    );
    assert_eq!(r, Attempt::Perform(vec![Action::RemoveFile(s("/d"))]));
    let done = Performed::Completed;
    let r = Dots::try_perform_unlink(
        &mut state, &f, &mut stats, &mut m, &s("/d"), &s("/s"), &status, None, Some(&done),
    );
    assert_eq!(r, Attempt::Done { result: Ok(()), lines: vec![] });
    assert_eq!(stats.files_removed, 1);
    assert_eq!(stats.symlinks_removed, 0);
    assert_eq!(stats.targets_skipped, 0);
}

#[test]
fn link_over_an_entry_of_no_known_kind_removes_nothing() {
    let mut state = Trackfile::new();
    let f = flags();
    let mut stats = LinkStats::new(1);
    let mut m = UserChoiceState::default();
    let r = Dots::try_perform_link(
        &mut state, &f, &mut stats, &mut m, &s("/d"), &s("/s"), &FilesystemStatus::Other, None,
        None,
    );
    assert_eq!(
        r,
        Attempt::Perform(vec![
            Action::CreateParent(s("/d")),
            Action::CreateSymlink { source: s("/s"), dest: s("/d") },
        ])
    );
}

#[test]
fn unlink_that_fails_keeps_the_ledger() {
    let mut state = Trackfile::new();
    state.insert(s("/d"), s("/s"));
    state.saved();
    let f = flags();
    let mut stats = UnlinkStats::new(1);
    let mut m = UserChoiceState::default();
    let failed = Performed::FailedAt(0, s("busy"));
    let r = Dots::try_perform_unlink(
        &mut state, &f, &mut stats, &mut m, &s("/d"), &s("/s"), &dangling(), None, Some(&failed),
    );
    assert_eq!(
        r,
        Attempt::Done { result: Err(s("Failed to remove symlink at /d: busy")), lines: vec![] }
    );
    assert_eq!(stats, UnlinkStats::new(1));
    assert_eq!(state.len(), 1);
    assert!(!state.is_dirty());
}

#[test]
fn dry_run_unlink_reports_the_removal() {
    let mut state = Trackfile::new();
    state.insert(s("/d"), s("/s"));
    state.saved();
    let mut f = flags();
    f.dry_run = true;
    let mut stats = UnlinkStats::new(1);
    let mut m = UserChoiceState::default();
    let r = Dots::try_perform_unlink(
        &mut state, &f, &mut stats, &mut m, &s("/d"), &s("/s"), &symlink("/s"), None, None,
    );
    assert_eq!(
        r,
        Attempt::Done {
            result: Ok(()),
            lines: vec![
                s("Unlink /d"),
                s("[ DRY RUN --- Remove ] destination is a symlink that points to the intended source "),
            ],
        }
    );
    assert_eq!(stats.symlinks_removed, 1);
    assert_eq!(state.len(), 1);
    assert!(!state.is_dirty());
}
