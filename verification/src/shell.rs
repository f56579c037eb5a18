//! The command lines handed to the shell, and the reading of what it prints.
//!
//! Nothing here runs a command: a function either builds the command
//! line to run, or reads the output of one that was run.

use vstd::prelude::*;
use vstd::string::*;

use crate::text::{same_text, trim, trimmed};

verus! {

/// The output of a command that should say yes or no says neither.
#[derive(Debug, Clone, PartialEq, Eq)]
pub struct NotBool {
    /// The output, without the blanks around it.
    pub output: String,
}

/// The command line of `echo`.
pub open spec fn echo_line(command: Seq<char>) -> Seq<char> {
    "echo "@ + command
}

/// The command line of `test_if`.
pub open spec fn test_if_line(command: Seq<char>) -> Seq<char> {
    "if [ "@ + command + " ]; then echo true; else echo false; fi"@
}

/// The command line of `test_command`.
pub open spec fn test_command_line(command: Seq<char>) -> Seq<char> {
    test_if_line("-x \"$(command -v "@ + command + ")\""@)
}

/// What an output says: yes for `1` and `true`, no for `0` and `false`,
/// each with or without blanks around it; nothing for any other output.
pub open spec fn bool_of(output: Seq<char>) -> Option<bool> {
    let word = trimmed(output);
    if word == "0"@ || word == "false"@ {
        Some(false)
    } else if word == "1"@ || word == "true"@ {
        Some(true)
    } else {
        None
    }
}

/// The text of `NotBool::message`.
pub open spec fn not_bool_text() -> Seq<char> {
    "Value returned from shell was not a bool"@
}

impl NotBool {
    /// The message of the error.
    pub fn message(&self) -> (r: String)
        ensures
            r@ == not_bool_text(),
    {
        "Value returned from shell was not a bool".to_owned()
    }
}

/// Reads the output of a command as yes or no.
pub fn run_for_bool(output: &str) -> (r: Result<bool, NotBool>)
    ensures
        match bool_of(output@) {
            Some(b) => r == Ok::<bool, NotBool>(b),
            None => r matches Err(e) && e.output@ == trimmed(output@),
        },
{
    let word = trim(output);
    if same_text(word.as_str(), "0") || same_text(word.as_str(), "false") {
        Ok(false)
    } else if same_text(word.as_str(), "1") || same_text(word.as_str(), "true") {
        Ok(true)
    } else {
        Err(NotBool { output: word })
    }
}

/// The command line that prints `true` where the test `command` of `[`
/// holds, and `false` where it does not.
pub fn test_if(command: &str) -> (r: String)
    ensures
        r@ == test_if_line(command@),
{
    let mut s = "if [ ".to_owned();
    s.append(command);
    s.append(" ]; then echo true; else echo false; fi");
    s
}

/// The command line that prints `true` where `command` names a program
/// that can be run, and `false` where it does not.
pub fn test_command(command: &str) -> (r: String)
    ensures
        r@ == test_command_line(command@),
{
    let mut s = "-x \"$(command -v ".to_owned();
    s.append(command);
    s.append(")\"");
    test_if(s.as_str())
}

/// The command line that prints `command` as the shell expands it.
pub fn echo(command: &str) -> (r: String)
    ensures
        r@ == echo_line(command@),
{
    let mut s = "echo ".to_owned();
    s.append(command);
    s
}

} // verus!
