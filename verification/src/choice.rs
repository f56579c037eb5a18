//! The answers a user can give, and the memory of answers given "for all".

use vstd::prelude::*;
use vstd::string::*;

use crate::reason::Reason;
use crate::text::{same_text, trim, trimmed};

verus! {

/// An answer to a prompt. `all` extends it to every later prompt of the same kind.
#[derive(Debug, Clone, Copy, PartialEq, Eq, Structural)]
pub enum Choice {
    Yes { all: bool },
    No { all: bool },
    Quit,
}

/// What is remembered for one forceable reason.
#[derive(Debug, Clone, Copy, PartialEq, Eq, Structural)]
pub enum ChoiceState {
    /// Nothing: the user is asked.
    Unset,
    /// The user said no to all.
    Never,
    /// The user said yes to all.
    Always,
}

impl Default for ChoiceState {
    fn default() -> (r: Self)
        ensures
            r == ChoiceState::Unset,
    {
        ChoiceState::Unset
    }
}

/// A reason that is not forceable was given where only a forceable one has a memory.
#[derive(Debug, Clone, Copy, PartialEq, Eq, Structural)]
pub struct InvalidReason;

/// The answers remembered during one run, one per forceable reason.
#[derive(Debug, Clone, Copy, PartialEq, Eq, Structural)]
pub struct UserChoiceState {
    pub force_correct_symlink: ChoiceState,
    pub force_symlink: ChoiceState,
    pub force_file: ChoiceState,
    pub force_dangerously: ChoiceState,
}

impl Default for UserChoiceState {
    fn default() -> (r: Self)
        ensures
            r == UserChoiceState::blank(),
    {
        UserChoiceState {
            force_correct_symlink: ChoiceState::Unset,
            force_symlink: ChoiceState::Unset,
            force_file: ChoiceState::Unset,
            force_dangerously: ChoiceState::Unset,
        }
    }
}

impl UserChoiceState {
    /// The memory at the start of a run: nothing is remembered.
    pub open spec fn blank() -> UserChoiceState {
        UserChoiceState {
            force_correct_symlink: ChoiceState::Unset,
            force_symlink: ChoiceState::Unset,
            force_file: ChoiceState::Unset,
            force_dangerously: ChoiceState::Unset,
        }
    }

    /// What is remembered for `reason`; `Unset` for a reason that is not forceable.
    pub open spec fn remembered(&self, reason: Reason) -> ChoiceState {
        match reason {
            Reason::ForceDangerously => self.force_dangerously,
            Reason::ForceFile => self.force_file,
            Reason::ForceSymlink => self.force_symlink,
            Reason::ForceCorrectSymlink => self.force_correct_symlink,
            _ => ChoiceState::Unset,
        }
    }

    /// The memory with `value` remembered for `reason` and the other
    /// reasons as they are; the same memory for a reason that is not forceable.
    pub open spec fn with(&self, reason: Reason, value: ChoiceState) -> UserChoiceState {
        match reason {
            Reason::ForceDangerously => UserChoiceState { force_dangerously: value, ..*self },
            Reason::ForceFile => UserChoiceState { force_file: value, ..*self },
            Reason::ForceSymlink => UserChoiceState { force_symlink: value, ..*self },
            Reason::ForceCorrectSymlink => UserChoiceState { force_correct_symlink: value, ..*self },
            _ => *self,
        }
    }

    /// What is remembered for `reason`, or `None` for a reason that is not forceable.
    pub fn get(&self, reason: &Reason) -> (r: Option<ChoiceState>)
        ensures
            r == if reason.forceable() {
                Some(self.remembered(*reason))
            } else {
                None
            },
    {
        match reason {
            Reason::ForceDangerously => Some(self.force_dangerously),
            Reason::ForceFile => Some(self.force_file),
            Reason::ForceSymlink => Some(self.force_symlink),
            Reason::ForceCorrectSymlink => Some(self.force_correct_symlink),
            _ => None,
        }
    }

    /// Remembers `value` for `reason` and leaves the other reasons as they
    /// are. A reason that is not forceable is refused and nothing changes.
    pub fn set(&mut self, reason: &Reason, value: ChoiceState) -> (r: Result<(), InvalidReason>)
        ensures
            r is Ok <==> reason.forceable(),
            *final(self) == old(self).with(*reason, value),
    {
        match reason {
            Reason::ForceDangerously => {
                self.force_dangerously = value;
            },
            Reason::ForceFile => {
                self.force_file = value;
            },
            Reason::ForceSymlink => {
                self.force_symlink = value;
            },
            Reason::ForceCorrectSymlink => {
                self.force_correct_symlink = value;
            },
            _ => {
                return Err(InvalidReason);
            },
        }
        Ok(())
    }

    /// Forgets what was remembered for `reason`.
    pub fn unset(&mut self, reason: &Reason) -> (r: Result<(), InvalidReason>)
        ensures
            r is Ok <==> reason.forceable(),
            *final(self) == old(self).with(*reason, ChoiceState::Unset),
    {
        self.set(reason, ChoiceState::Unset)
    }

    /// Remembers that the user said no to every prompt for `reason`.
    pub fn set_never(&mut self, reason: &Reason) -> (r: Result<(), InvalidReason>)
        ensures
            r is Ok <==> reason.forceable(),
            *final(self) == old(self).with(*reason, ChoiceState::Never),
    {
        self.set(reason, ChoiceState::Never)
    }

    /// Remembers that the user said yes to every prompt for `reason`.
    pub fn set_always(&mut self, reason: &Reason) -> (r: Result<(), InvalidReason>)
        ensures
            r is Ok <==> reason.forceable(),
            *final(self) == old(self).with(*reason, ChoiceState::Always),
    {
        self.set(reason, ChoiceState::Always)
    }
}

/// What a line typed at a prompt means.
#[derive(Debug, Clone, Copy, PartialEq, Eq, Structural)]
pub enum Reply {
    /// An answer.
    Answer(Choice),
    /// A request to explain the situation and ask again.
    Info,
}

/// What `str::to_lowercase` makes of a text.
pub uninterp spec fn lowercase(text: Seq<char>) -> Seq<char>;

/// Calls `str::to_lowercase`: the text with each character replaced by
/// its lower-case form, as Unicode defines it. Which text that is, is
/// what `lowercase` names.
#[verifier::external_body]
fn to_lowercase(text: &str) -> (r: String)
    ensures
        r@ == lowercase(text@),
{
    text.to_lowercase()
}

/// The set of answers a prompt offers.
#[derive(Debug, Clone, Copy, PartialEq, Eq, Structural)]
pub enum Opts {
    /// Yes or no.
    YesNo,
    /// Yes or no, each also "for all".
    YesNoAll,
    /// Yes or no, each also "for all", an explanation, or quitting.
    All,
}

impl Opts {
    /// The text of `get`.
    pub open spec fn help_text(&self) -> Seq<char> {
        match self {
            Opts::YesNo => "[Y]es/[N]o"@,
            Opts::YesNoAll => "[Y]es/[N]o/[Y]es[A]all/[N]o[All]"@,
            Opts::All => "[Y]es/[N]o/[Y]es[A]all/[N]o[A]ll/[I]nfo/[Q]uit"@,
        }
    }

    /// What `input` means at a prompt that offers `self`, if anything.
    /// `input` is the line as typed, without surrounding blanks and in lower case.
    pub open spec fn reading(&self, input: Seq<char>) -> Option<Reply> {
        if input == "y"@ || input == "yes"@ {
            Some(Reply::Answer(Choice::Yes { all: false }))
        } else if input == "n"@ || input == "no"@ {
            Some(Reply::Answer(Choice::No { all: false }))
        } else if *self is YesNo {
            None
        } else if input == "ya"@ || input == "yesall"@ {
            Some(Reply::Answer(Choice::Yes { all: true }))
        } else if input == "na"@ || input == "noall"@ {
            Some(Reply::Answer(Choice::No { all: true }))
        } else if *self is YesNoAll {
            None
        } else if input == "i"@ || input == "info"@ {
            Some(Reply::Info)
        } else if input == "q"@ || input == "quit"@ || input == "cancel"@ {
            Some(Reply::Answer(Choice::Quit))
        } else {
            None
        }
    }

    /// The text of `prompt`.
    pub open spec fn prompt_line(&self, question: Seq<char>) -> Seq<char> {
        question + "\n"@ + self.help_text() + ": "@
    }

    /// The text of `invalid`.
    pub open spec fn invalid_line(&self) -> Seq<char> {
        "Invalid input. Please choose from "@ + self.help_text() + "."@
    }

    /// What is shown to put `question`: the question, and on a line of
    /// its own the answers on offer.
    pub fn prompt(&self, question: &str) -> (r: String)
        ensures
            r@ == self.prompt_line(question@),
    {
        let mut s = question.to_owned();
        s.append("\n");
        s.append(self.get());
        s.append(": ");
        s
    }

    /// What is shown after a line that is none of the answers on offer.
    pub fn invalid(&self) -> (r: String)
        ensures
            r@ == self.invalid_line(),
    {
        let mut s = "Invalid input. Please choose from ".to_owned();
        s.append(self.get());
        s.append(".");
        s
    }

    /// The answers on offer, as shown after the question.
    pub fn get(&self) -> (r: &'static str)
        ensures
            r@ == self.help_text(),
    {
        match self {
            Opts::YesNo => "[Y]es/[N]o",
            Opts::YesNoAll => "[Y]es/[N]o/[Y]es[A]all/[N]o[All]",
            Opts::All => "[Y]es/[N]o/[Y]es[A]all/[N]o[A]ll/[I]nfo/[Q]uit",
        }
    }

    /// Reads a line as typed at the prompt: blanks around it and the case
    /// of its letters do not count.
    pub fn read_line(&self, line: &str) -> (r: Option<Reply>)
        ensures
            r == self.reading(lowercase(trimmed(line@))),
    {
        let word = to_lowercase(trim(line).as_str());
        self.process(word.as_str())
    }

    /// Reads a line typed at the prompt. `input` is the line without
    /// surrounding blanks and in lower case; `None` means that it is none
    /// of the answers on offer.
    pub fn process(&self, input: &str) -> (r: Option<Reply>)
        ensures
            r == self.reading(input@),
    {
        if same_text(input, "y") || same_text(input, "yes") {
            return Some(Reply::Answer(Choice::Yes { all: false }));
        }
        if same_text(input, "n") || same_text(input, "no") {
            return Some(Reply::Answer(Choice::No { all: false }));
        }
        if let Opts::YesNo = self {
            return None;
        }
        if same_text(input, "ya") || same_text(input, "yesall") {
            return Some(Reply::Answer(Choice::Yes { all: true }));
        }
        if same_text(input, "na") || same_text(input, "noall") {
            return Some(Reply::Answer(Choice::No { all: true }));
        }
        if let Opts::YesNoAll = self {
            return None;
        }
        if same_text(input, "i") || same_text(input, "info") {
            return Some(Reply::Info);
        }
        if same_text(input, "q") || same_text(input, "quit") || same_text(input, "cancel") {
            return Some(Reply::Answer(Choice::Quit));
        }
        None
    }
}

} // verus!
