//! The operator's prompt: a line that is typed, and the command it is when
//! it is entered.

use vstd::prelude::*;
use vstd::string::StrSliceExecFns;

verus! {

/// What a line asks for.
#[derive(Clone, Debug, PartialEq, Eq)]
pub enum Command {
    /// `help`: the commands are to be listed.
    Help,
    /// `datas`: the server's data are to be shown.
    Datas,
    /// Anything else, with the line as it was typed.
    Unknown(Vec<char>),
}

/// The line typed so far.
pub struct Prompt {
    pub typed: Vec<char>,
}

/// Whether the characters typed spell `word`.
fn spells(typed: &Vec<char>, word: &str) -> (same: bool)
    ensures
        same == (typed@ == word@),
{
    let width = word.unicode_len();
    if typed.len() != width {
        return false;
    }
    let mut at: usize = 0;
    while at < width
        invariant
            width == word@.len(),
            width == typed@.len(),
            at <= width,
            forall|k: int| 0 <= k < at ==> typed@[k] == word@[k],
        decreases width - at,
    {
        if typed[at] != word.get_char(at) {
            return false;
        }
        at = at + 1;
    }
    assert(typed@ =~= word@);
    true
}

impl Prompt {
    /// An empty line.
    pub fn new() -> (prompt: Prompt)
        ensures
            prompt.typed@ == Seq::<char>::empty(),
    {
        Prompt { typed: Vec::new() }
    }

    /// A character was typed: it ends the line.
    pub fn on_char(&mut self, typed: char)
        ensures
            final(self).typed@ == old(self).typed@.push(typed),
    {
        self.typed.push(typed);
    }

    /// The line was entered: it is the command returned, and the prompt's
    /// line is empty again.
    pub fn on_enter(&mut self) -> (command: Command)
        ensures
            final(self).typed@ == Seq::<char>::empty(),
            old(self).typed@ == "help"@ ==> command == Command::Help,
            old(self).typed@ != "help"@ && old(self).typed@ == "datas"@ ==> command
                == Command::Datas,
            old(self).typed@ != "help"@ && old(self).typed@ != "datas"@ ==> command
                == Command::Unknown(old(self).typed),
    {
        let mut line: Vec<char> = Vec::new();
        core::mem::swap(&mut line, &mut self.typed);
        if spells(&line, "help") {
            Command::Help
        } else if spells(&line, "datas") {
            Command::Datas
        } else {
            Command::Unknown(line)
        }
    }
}

} // verus!
