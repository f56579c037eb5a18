//! Why a destination is or is not acted on (`Reason`), and the gated outcome (`Op`).

use vstd::prelude::*;
use vstd::string::*;

use crate::args::DotsLinkArgs;

verus! {

/// The situation a destination was found in.
#[derive(Debug, PartialEq, Eq)]
pub enum Reason {
    /// The destination is not in the ledger.
    ForceDangerously,
    /// The destination is in the ledger but is a file or a directory.
    ForceFile,
    /// The destination is in the ledger and is a symlink that points neither
    /// to the intended nor to the recorded source.
    ForceSymlink,
    /// The destination is in the ledger and is a symlink to the recorded
    /// source, which is not the intended one.
    ForceCorrectSymlink,
    /// The destination is a symlink whose target does not exist.
    DanglingSymlink,
    /// The destination is a symlink to the source recorded before the operation.
    CorrectSymlink,
    /// The destination is a symlink to the source wanted after the operation.
    IntendedSymlink,
    /// Nothing is at the destination.
    NotFound,
    /// The destination is neither a file, a directory nor a symlink.
    StatusInvalid,
    /// The destination could not be examined; the message says why.
    StatusError(String),
    /// The user cancelled.
    UserQuit,
}

impl Clone for Reason {
    fn clone(&self) -> (r: Self)
        ensures
            r == *self,
    {
        match self {
            Reason::ForceDangerously => Reason::ForceDangerously,
            Reason::ForceFile => Reason::ForceFile,
            Reason::ForceSymlink => Reason::ForceSymlink,
            Reason::ForceCorrectSymlink => Reason::ForceCorrectSymlink,
            Reason::DanglingSymlink => Reason::DanglingSymlink,
            Reason::CorrectSymlink => Reason::CorrectSymlink,
            Reason::IntendedSymlink => Reason::IntendedSymlink,
            Reason::NotFound => Reason::NotFound,
            Reason::StatusInvalid => Reason::StatusInvalid,
            Reason::StatusError(e) => Reason::StatusError(e.clone()),
            Reason::UserQuit => Reason::UserQuit,
        }
    }
}

impl Reason {
    /// A reason is forceable when acting on it needs a force flag or the user's consent.
    pub open spec fn forceable(&self) -> bool {
        *self is ForceDangerously || *self is ForceFile || *self is ForceSymlink
            || *self is ForceCorrectSymlink
    }

    /// The text of `info`.
    pub open spec fn info_text(&self) -> Seq<char> {
        match self {
            Reason::ForceDangerously => "destination is not tracked"@,
            Reason::ForceFile => "destination is tracked but is a file"@,
            Reason::ForceSymlink => "destination is tracked and is a symlink but points to neither the intended nor the expected source"@,
            Reason::ForceCorrectSymlink => "destination is tracked and is a symlink but doesn't point to the expected source"@,
            Reason::DanglingSymlink => "destination is a dangling symlink"@,
            Reason::CorrectSymlink => "destination is a symlink that points to the expected source"@,
            Reason::IntendedSymlink => "destination is a symlink that points to the intended source"@,
            Reason::NotFound => "destination not found (nothing to remove)"@,
            Reason::StatusInvalid => "destination is not a symlink or file (nothing to remove)"@,
            Reason::StatusError(e) => "error checking destination type: "@ + e@,
            Reason::UserQuit => "the user canceled the operation"@,
        }
    }

    /// The text of `short_flag`: empty for a reason that is not forceable.
    pub open spec fn short_flag_text(&self) -> Seq<char> {
        match self {
            Reason::ForceDangerously => "--force-dangerously"@,
            Reason::ForceFile => "-ff"@,
            Reason::ForceSymlink => "-fs"@,
            Reason::ForceCorrectSymlink => "-fc"@,
            _ => Seq::empty(),
        }
    }

    /// The text of `flags`: empty for a reason that is not forceable.
    pub open spec fn flags_text(&self) -> Seq<char> {
        match self {
            Reason::ForceDangerously => "--force-dangerously"@,
            Reason::ForceFile => "-ff or --force-dangerously"@,
            Reason::ForceSymlink => "-fs, -ff, or --force-dangerously"@,
            Reason::ForceCorrectSymlink => "-fc, -fs, -ff, or --force-dangerously"@,
            _ => Seq::empty(),
        }
    }

    /// Whether the force flags authorize acting on this reason. Each flag
    /// authorizes its own reason and the weaker ones; a reason that is not
    /// forceable needs no flag.
    pub open spec fn authorized_by(&self, flags: &DotsLinkArgs) -> bool {
        match self {
            Reason::ForceDangerously => flags.force_dangerously,
            Reason::ForceFile => flags.force_file || flags.force_dangerously,
            Reason::ForceSymlink => flags.force_symlink || flags.force_file
                || flags.force_dangerously,
            Reason::ForceCorrectSymlink => flags.force_correct_symlink || flags.force_symlink
                || flags.force_file || flags.force_dangerously,
            _ => true,
        }
    }

    /// Whether the reason is forceable.
    pub fn is_forceable(&self) -> (r: bool)
        ensures
            r == self.forceable(),
    {
        match self {
            Reason::ForceDangerously
            | Reason::ForceFile
            | Reason::ForceSymlink
            | Reason::ForceCorrectSymlink => true,
            _ => false,
        }
    }

    /// A sentence that describes the situation.
    pub fn info(&self) -> (r: String)
        ensures
            r@ == self.info_text(),
    {
        match self {
            Reason::ForceDangerously => "destination is not tracked".to_owned(),
            Reason::ForceFile => "destination is tracked but is a file".to_owned(),
            Reason::ForceSymlink => "destination is tracked and is a symlink but points to neither the intended nor the expected source".to_owned(),
            Reason::ForceCorrectSymlink => "destination is tracked and is a symlink but doesn't point to the expected source".to_owned(),
            Reason::DanglingSymlink => "destination is a dangling symlink".to_owned(),
            Reason::CorrectSymlink => "destination is a symlink that points to the expected source".to_owned(),
            Reason::IntendedSymlink => "destination is a symlink that points to the intended source".to_owned(),
            Reason::NotFound => "destination not found (nothing to remove)".to_owned(),
            Reason::StatusInvalid => "destination is not a symlink or file (nothing to remove)".to_owned(),
            Reason::StatusError(e) => {
                let mut s = "error checking destination type: ".to_owned();
                s.append(e.as_str());
                s
            },
            Reason::UserQuit => "the user canceled the operation".to_owned(),
        }
    }

    /// The shortest flag that authorizes acting on this reason.
    pub fn short_flag(&self) -> (r: &'static str)
        ensures
            r@ == self.short_flag_text(),
            (r@.len() > 0) == self.forceable(),
    {
        proof {
            reveal_strlit("--force-dangerously");
            reveal_strlit("-ff");
            reveal_strlit("-fs");
            reveal_strlit("-fc");
            reveal_strlit("");
        }
        match self {
            Reason::ForceDangerously => "--force-dangerously",
            Reason::ForceFile => "-ff",
            Reason::ForceSymlink => "-fs",
            Reason::ForceCorrectSymlink => "-fc",
            _ => "",
        }
    }

    /// Every flag that authorizes acting on this reason, as a phrase.
    pub fn flags(&self) -> (r: &'static str)
        ensures
            r@ == self.flags_text(),
            (r@.len() > 0) == self.forceable(),
    {
        proof {
            reveal_strlit("--force-dangerously");
            reveal_strlit("-ff or --force-dangerously");
            reveal_strlit("-fs, -ff, or --force-dangerously");
            reveal_strlit("-fc, -fs, -ff, or --force-dangerously");
            reveal_strlit("");
        }
        match self {
            Reason::ForceDangerously => "--force-dangerously",
            Reason::ForceFile => "-ff or --force-dangerously",
            Reason::ForceSymlink => "-fs, -ff, or --force-dangerously",
            Reason::ForceCorrectSymlink => "-fc, -fs, -ff, or --force-dangerously",
            _ => "",
        }
    }

    /// Whether the force flags authorize acting on this reason.
    pub fn test_flags(&self, flags: &DotsLinkArgs) -> (r: bool)
        ensures
            r == self.authorized_by(flags),
    {
        match self {
            Reason::ForceDangerously => flags.force_dangerously,
            Reason::ForceFile => flags.force_file || flags.force_dangerously,
            Reason::ForceSymlink => flags.force_symlink || flags.force_file
                || flags.force_dangerously,
            Reason::ForceCorrectSymlink => flags.force_correct_symlink || flags.force_symlink
                || flags.force_file || flags.force_dangerously,
            _ => true,
        }
    }
}

/// The gated outcome for one destination.
#[derive(Debug, PartialEq, Eq)]
pub enum Op {
    /// The operation goes ahead.
    Confirmed(Reason),
    /// The destination is left as it is.
    Denied(Reason),
}

impl Clone for Op {
    fn clone(&self) -> (r: Self)
        ensures
            r == *self,
    {
        match self {
            Op::Confirmed(reason) => Op::Confirmed(reason.clone()),
            Op::Denied(reason) => Op::Denied(reason.clone()),
        }
    }
}

impl Op {
    /// The reason an outcome carries.
    pub open spec fn spec_reason(&self) -> Reason {
        match self {
            Op::Confirmed(reason) => *reason,
            Op::Denied(reason) => *reason,
        }
    }

    /// The text of `to_text`: the reason's sentence, a space, and, for a
    /// forceable reason, the flags in brackets.
    pub open spec fn text(&self) -> Seq<char> {
        let reason = self.spec_reason();
        reason.info_text() + " "@ + if !reason.forceable() {
            Seq::empty()
        } else if *self is Confirmed {
            "("@ + reason.flags_text() + " was used)"@
        } else {
            "(use "@ + reason.flags_text() + " to remove)"@
        }
    }

    /// `self` if it is confirmed, else `other`.
    pub fn or(self, other: Op) -> (r: Op)
        ensures
            r == if self is Confirmed {
                self
            } else {
                other
            },
    {
        match self {
            Op::Confirmed(reason) => Op::Confirmed(reason),
            Op::Denied(_) => other,
        }
    }

    /// `self` if it is confirmed, else what `f` makes of the reason it was denied for.
    pub fn or_else<F: FnOnce(Reason) -> Op>(self, f: F) -> (r: Op)
        requires
            self matches Op::Denied(reason) ==> f.requires((reason,)),
        ensures
            self is Confirmed ==> r == self,
            self matches Op::Denied(reason) ==> f.ensures((reason,), r),
    {
        match self {
            Op::Confirmed(reason) => Op::Confirmed(reason),
            Op::Denied(reason) => f(reason),
        }
    }

    /// Like `or_else`, but `f` is tried only where `cond` holds.
    pub fn or_else_if<F: FnOnce(Reason) -> Op>(self, cond: bool, f: F) -> (r: Op)
        requires
            cond ==> (self matches Op::Denied(reason) ==> f.requires((reason,))),
        ensures
            self is Confirmed || !cond ==> r == self,
            cond ==> (self matches Op::Denied(reason) ==> f.ensures((reason,), r)),
    {
        match self {
            Op::Confirmed(reason) => Op::Confirmed(reason),
            Op::Denied(reason) => {
                if cond {
                    f(reason)
                } else {
                    Op::Denied(reason)
                }
            },
        }
    }

    /// The reason of the outcome.
    pub fn reason(&self) -> (r: &Reason)
        ensures
            *r == self.spec_reason(),
    {
        match self {
            Op::Confirmed(reason) => reason,
            Op::Denied(reason) => reason,
        }
    }

    /// Whether the operation goes ahead.
    pub fn was_confirmed(&self) -> (r: bool)
        ensures
            r == (*self is Confirmed),
    {
        match self {
            Op::Confirmed(_) => true,
            _ => false,
        }
    }

    /// Whether the destination is left as it is.
    pub fn was_denied(&self) -> (r: bool)
        ensures
            r == (*self is Denied),
    {
        match self {
            Op::Denied(_) => true,
            _ => false,
        }
    }

    /// The sentence of the outcome's reason.
    pub fn info(&self) -> (r: String)
        ensures
            r@ == self.spec_reason().info_text(),
    {
        self.reason().info()
    }

    /// `Confirmed(reason)` where `cond` holds, `Denied(reason)` where it does not.
    pub fn verify(cond: bool, reason: Reason) -> (r: Op)
        ensures
            r == if cond {
                Op::Confirmed(reason)
            } else {
                Op::Denied(reason)
            },
    {
        if cond {
            Op::Confirmed(reason)
        } else {
            Op::Denied(reason)
        }
    }

    /// The outcome in words, as shown to the user.
    pub fn to_text(&self) -> (r: String)
        ensures
            r@ == self.text(),
    {
        let reason = self.reason();
        let mut s = reason.info();
        s.append(" ");
        let flags = reason.flags();
        if flags.unicode_len() > 0 {
            match self {
                Op::Confirmed(_) => {
                    s.append("(");
                    s.append(flags);
                    s.append(" was used)");
                    assert(s@ =~= self.text());
                },
                Op::Denied(_) => {
                    s.append("(use ");
                    s.append(flags);
                    s.append(" to remove)");
                    assert(s@ =~= self.text());
                },
            }
        } else {
            assert(s@ =~= self.text());
        }
        s
    }
}

} // verus!
