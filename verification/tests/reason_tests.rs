use dots::args::{Args, Commands, DotsCleanArgs, DotsLinkArgs, DotsStatusArgs};
use dots::choice::{Choice, ChoiceState, InvalidReason, Opts, Reply, UserChoiceState};
use dots::reason::{Op, Reason};

fn flags() -> DotsLinkArgs {
    DotsLinkArgs::new("dotfiles".to_string())
}

fn forceable() -> Vec<Reason> {
    vec![
        Reason::ForceDangerously,
        Reason::ForceFile,
        Reason::ForceSymlink,
        Reason::ForceCorrectSymlink,
    ]
}

fn others() -> Vec<Reason> {
    vec![
        Reason::DanglingSymlink,
        Reason::CorrectSymlink,
        Reason::IntendedSymlink,
        Reason::NotFound,
        Reason::StatusInvalid,
        Reason::StatusError("denied".to_string()),
        Reason::UserQuit,
    ]
}

#[test]
fn new_args_have_every_switch_off() {
    let a = flags();
    assert_eq!(a.target, "dotfiles");
    assert_eq!(a.includes, None);
    assert_eq!(a.excludes, None);
    assert!(!a.force_correct_symlink && !a.force_symlink && !a.force_file);
    assert!(!a.force_dangerously && !a.dry_run && !a.interactive && !a.verbose && !a.bail);
}

#[test]
fn commands_know_their_dry_run() {
    let mut a = flags();
    a.dry_run = true;
    assert!(Commands::Link(a.clone()).dry_run());
    assert!(Commands::Unlink(a.clone()).dry_run());
    assert!(Commands::Relink(a.clone()).dry_run());
    assert!(!Commands::Link(flags()).dry_run());
    assert!(!Commands::Status(DotsStatusArgs {}).dry_run());
    assert!(Commands::Clean(DotsCleanArgs { dry_run: true, interactive: false }).dry_run());
    assert!(!Commands::Clean(DotsCleanArgs { dry_run: false, interactive: true }).dry_run());
    let args = Args { command: Commands::Link(a), dotfiles: None };
    assert!(args.command.dry_run());
}

#[test]
fn reason_info_texts() {
    assert_eq!(Reason::ForceDangerously.info(), "destination is not tracked");
    assert_eq!(Reason::ForceFile.info(), "destination is tracked but is a file");
    assert_eq!(
        Reason::ForceSymlink.info(),
        "destination is tracked and is a symlink but points to neither the intended nor the expected source"
    );
    assert_eq!(
        Reason::ForceCorrectSymlink.info(),
        "destination is tracked and is a symlink but doesn't point to the expected source"
    );
    assert_eq!(Reason::DanglingSymlink.info(), "destination is a dangling symlink");
    assert_eq!(
        Reason::CorrectSymlink.info(),
        "destination is a symlink that points to the expected source"
    );
    assert_eq!(
        Reason::IntendedSymlink.info(),
        "destination is a symlink that points to the intended source"
    );
    assert_eq!(Reason::NotFound.info(), "destination not found (nothing to remove)");
    assert_eq!(
        Reason::StatusInvalid.info(),
        "destination is not a symlink or file (nothing to remove)"
    );
    assert_eq!(
        Reason::StatusError("permission denied".to_string()).info(),
        "error checking destination type: permission denied"
    );
    assert_eq!(Reason::UserQuit.info(), "the user canceled the operation");
}

#[test]
fn reason_flags_texts() {
    assert_eq!(Reason::ForceDangerously.short_flag(), "--force-dangerously");
    assert_eq!(Reason::ForceFile.short_flag(), "-ff");
    assert_eq!(Reason::ForceSymlink.short_flag(), "-fs");
    assert_eq!(Reason::ForceCorrectSymlink.short_flag(), "-fc");
    assert_eq!(Reason::ForceDangerously.flags(), "--force-dangerously");
    assert_eq!(Reason::ForceFile.flags(), "-ff or --force-dangerously");
    assert_eq!(Reason::ForceSymlink.flags(), "-fs, -ff, or --force-dangerously");
    assert_eq!(Reason::ForceCorrectSymlink.flags(), "-fc, -fs, -ff, or --force-dangerously");
    for reason in others() {
        assert_eq!(reason.short_flag(), "");
        assert_eq!(reason.flags(), "");
        assert!(!reason.is_forceable());
    }
    for reason in forceable() {
        assert!(reason.is_forceable());
    }
}

#[test]
fn force_dangerously_alone_authorizes_every_reason() {
    let mut f = flags();
    f.force_dangerously = true;
    for reason in forceable() {
        assert!(reason.test_flags(&f));
    }
    for reason in others() {
        assert!(reason.test_flags(&f));
    }
}

#[test]
fn force_correct_symlink_alone_authorizes_only_itself() {
    let mut f = flags();
    f.force_correct_symlink = true;
    assert!(Reason::ForceCorrectSymlink.test_flags(&f));
    assert!(!Reason::ForceSymlink.test_flags(&f));
    assert!(!Reason::ForceFile.test_flags(&f));
    assert!(!Reason::ForceDangerously.test_flags(&f));
}

#[test]
fn force_flags_form_a_hierarchy() {
    let mut f = flags();
    f.force_symlink = true;
    assert!(Reason::ForceCorrectSymlink.test_flags(&f));
    assert!(Reason::ForceSymlink.test_flags(&f));
    assert!(!Reason::ForceFile.test_flags(&f));
    assert!(!Reason::ForceDangerously.test_flags(&f));
    let mut f = flags();
    f.force_file = true;
    assert!(Reason::ForceCorrectSymlink.test_flags(&f));
    assert!(Reason::ForceSymlink.test_flags(&f));
    assert!(Reason::ForceFile.test_flags(&f));
    assert!(!Reason::ForceDangerously.test_flags(&f));
    let none = flags();
    for reason in forceable() {
        assert!(!reason.test_flags(&none));
    }
    for reason in others() {
        assert!(reason.test_flags(&none));
    }
}

#[test]
fn op_or_keeps_the_first_confirmed() {
    let yes = Op::Confirmed(Reason::NotFound);
    let no = Op::Denied(Reason::ForceFile);
    assert_eq!(yes.clone().or(no.clone()), yes);
    assert_eq!(no.clone().or(yes.clone()), yes);
    assert_eq!(no.clone().or(Op::Denied(Reason::UserQuit)), Op::Denied(Reason::UserQuit));
    assert_eq!(yes.clone().or(Op::Confirmed(Reason::DanglingSymlink)), yes);
}

#[test]
fn op_or_else_asks_only_after_a_denial() {
    let yes = Op::Confirmed(Reason::NotFound);
    let no = Op::Denied(Reason::ForceFile);
    assert_eq!(yes.clone().or_else(|_| Op::Denied(Reason::UserQuit)), yes);
    assert_eq!(no.clone().or_else(|r| Op::Confirmed(r)), Op::Confirmed(Reason::ForceFile));
    assert_eq!(no.clone().or_else_if(false, |r| Op::Confirmed(r)), no);
    assert_eq!(no.clone().or_else_if(true, |r| Op::Confirmed(r)), Op::Confirmed(Reason::ForceFile));
    assert_eq!(yes.clone().or_else_if(true, |_| Op::Denied(Reason::UserQuit)), yes);
}

#[test]
fn op_accessors() {
    let yes = Op::Confirmed(Reason::DanglingSymlink);
    let no = Op::Denied(Reason::ForceSymlink);
    assert_eq!(yes.reason(), &Reason::DanglingSymlink);
    assert_eq!(no.reason(), &Reason::ForceSymlink);
    assert!(yes.was_confirmed() && !yes.was_denied());
    assert!(no.was_denied() && !no.was_confirmed());
    assert_eq!(yes.info(), "destination is a dangling symlink");
    assert_eq!(Op::verify(true, Reason::ForceFile), Op::Confirmed(Reason::ForceFile));
    assert_eq!(Op::verify(false, Reason::ForceFile), Op::Denied(Reason::ForceFile));
}

#[test]
fn op_in_words() {
    assert_eq!(
        Op::Confirmed(Reason::ForceFile).to_text(),
        "destination is tracked but is a file (-ff or --force-dangerously was used)"
    );
    assert_eq!(
        Op::Denied(Reason::ForceDangerously).to_text(),
        "destination is not tracked (use --force-dangerously to remove)"
    );
    assert_eq!(
        Op::Denied(Reason::IntendedSymlink).to_text(),
        "destination is a symlink that points to the intended source "
    );
    assert_eq!(
        Op::Confirmed(Reason::NotFound).to_text(),
        "destination not found (nothing to remove) "
    );
}

#[test]
fn choice_memory_starts_unset() {
    let m = UserChoiceState::default();
    for reason in forceable() {
        assert_eq!(m.get(&reason), Some(ChoiceState::Unset));
    }
    for reason in others() {
        assert_eq!(m.get(&reason), None);
    }
    assert_eq!(ChoiceState::default(), ChoiceState::Unset);
}

#[test]
fn choice_memory_remembers_per_reason() {
    let mut m = UserChoiceState::default();
    assert_eq!(m.set_always(&Reason::ForceFile), Ok(()));
    assert_eq!(m.set_never(&Reason::ForceSymlink), Ok(()));
    assert_eq!(m.set(&Reason::ForceDangerously, ChoiceState::Always), Ok(()));
    assert_eq!(m.get(&Reason::ForceFile), Some(ChoiceState::Always));
    assert_eq!(m.get(&Reason::ForceSymlink), Some(ChoiceState::Never));
    assert_eq!(m.get(&Reason::ForceDangerously), Some(ChoiceState::Always));
    assert_eq!(m.get(&Reason::ForceCorrectSymlink), Some(ChoiceState::Unset));
    assert_eq!(m.unset(&Reason::ForceFile), Ok(()));
    assert_eq!(m.get(&Reason::ForceFile), Some(ChoiceState::Unset));
    assert_eq!(m.get(&Reason::ForceSymlink), Some(ChoiceState::Never));
}

#[test]
fn choice_memory_refuses_other_reasons() {
    let mut m = UserChoiceState::default();
    m.set_always(&Reason::ForceFile).unwrap();
    let before = m;
    for reason in others() {
        assert_eq!(m.set(&reason, ChoiceState::Always), Err(InvalidReason));
        assert_eq!(m.set_always(&reason), Err(InvalidReason));
        assert_eq!(m.set_never(&reason), Err(InvalidReason));
        assert_eq!(m.unset(&reason), Err(InvalidReason));
        assert_eq!(m, before);
    }
}

#[test]
fn opts_help_texts() {
    assert_eq!(Opts::YesNo.get(), "[Y]es/[N]o");
    assert_eq!(Opts::YesNoAll.get(), "[Y]es/[N]o/[Y]es[A]all/[N]o[All]");
    assert_eq!(Opts::All.get(), "[Y]es/[N]o/[Y]es[A]all/[N]o[A]ll/[I]nfo/[Q]uit");
    assert_eq!(Opts::YesNo.prompt("Continue?"), "Continue?\n[Y]es/[N]o: ");
    assert_eq!(Opts::YesNo.invalid(), "Invalid input. Please choose from [Y]es/[N]o.");
}

#[test]
fn opts_process_reads_answers() {
    let yes = Some(Reply::Answer(Choice::Yes { all: false }));
    let no = Some(Reply::Answer(Choice::No { all: false }));
    for opts in [Opts::YesNo, Opts::YesNoAll, Opts::All] {
        assert_eq!(opts.process("y"), yes);
        assert_eq!(opts.process("yes"), yes);
        assert_eq!(opts.process("n"), no);
        assert_eq!(opts.process("no"), no);
        assert_eq!(opts.process(""), None);
        assert_eq!(opts.process("maybe"), None);
        assert_eq!(opts.process("Y"), None);
    }
    for opts in [Opts::YesNoAll, Opts::All] {
        assert_eq!(opts.process("ya"), Some(Reply::Answer(Choice::Yes { all: true })));
        assert_eq!(opts.process("yesall"), Some(Reply::Answer(Choice::Yes { all: true })));
        assert_eq!(opts.process("na"), Some(Reply::Answer(Choice::No { all: true })));
        assert_eq!(opts.process("noall"), Some(Reply::Answer(Choice::No { all: true })));
    }
    assert_eq!(Opts::YesNo.process("ya"), None);
    assert_eq!(Opts::YesNo.process("q"), None);
    assert_eq!(Opts::YesNoAll.process("q"), None);
    assert_eq!(Opts::YesNoAll.process("i"), None);
    assert_eq!(Opts::All.process("i"), Some(Reply::Info));
    assert_eq!(Opts::All.process("info"), Some(Reply::Info));
    for word in ["q", "quit", "cancel"] {
        assert_eq!(Opts::All.process(word), Some(Reply::Answer(Choice::Quit)));
    }
}
