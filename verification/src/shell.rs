//! The shell that invoked the inspector. It decides the grammar of the stack
//! trace and the syntax of the commands handed back.

use std::str::FromStr;
use vstd::prelude::*;
use vstd::string::*;

verus! {

/// The shell family.
#[derive(Debug, Clone, Copy, PartialEq, Eq, Structural)]
pub enum Shell {
    Bash,
    Zsh,
    Fish,
}

/// A shell name that is none of `bash`, `zsh` and `fish`.
#[derive(Debug, Clone)]
pub struct UnrecognizedShell {
    /// The name as it was given.
    pub name: String,
}

impl UnrecognizedShell {
    /// Returns a message that names the shell that was not recognized.
    pub fn message(&self) -> (text: String)
        ensures
            text@ == "unrecognized shell: "@ + self.name@,
    {
        let mut text = "unrecognized shell: ".to_owned();
        text.append(self.name.as_str());
        text
    }
}

/// Returns whether two texts hold the same characters.
pub fn same_text(a: &str, b: &str) -> (same: bool)
    ensures
        same == (a@ == b@),
{
    a.to_owned() == b.to_owned()
}

impl Shell {
    /// The shell that a name stands for.
    pub open spec fn named(name: Seq<char>) -> Option<Shell> {
        if name == "bash"@ {
            Some(Shell::Bash)
        } else if name == "zsh"@ {
            Some(Shell::Zsh)
        } else if name == "fish"@ {
            Some(Shell::Fish)
        } else {
            None
        }
    }

    /// Returns the shell that `name` stands for: one of `bash`, `zsh` and
    /// `fish`, written in lower case.
    pub fn from_name(name: &str) -> (r: Result<Shell, UnrecognizedShell>)
        ensures
            match r {
                Ok(shell) => Shell::named(name@) == Some(shell),
                Err(e) => Shell::named(name@) is None && e.name@ == name@,
            },
    {
        if same_text(name, "bash") {
            Ok(Shell::Bash)
        } else if same_text(name, "zsh") {
            Ok(Shell::Zsh)
        } else if same_text(name, "fish") {
            Ok(Shell::Fish)
        } else {
            Err(UnrecognizedShell { name: name.to_owned() })
        }
    }
}

impl FromStr for Shell {
    type Err = UnrecognizedShell;

    /// Reads a shell's name: one of `bash`, `zsh` and `fish`, written in
    /// lower case. Any other text is an error that holds the text.
    fn from_str(s: &str) -> (r: Result<Shell, UnrecognizedShell>)
        ensures
            match r {
                Ok(shell) => Shell::named(s@) == Some(shell),
                Err(e) => Shell::named(s@) is None && e.name@ == s@,
            },
    {
        Shell::from_name(s)
    }
}

} // verus!
