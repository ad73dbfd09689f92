//! The rule by which a line typed by a person becomes an action.

use crate::game_definition::Action;
use vstd::prelude::*;
use vstd::string::StrSliceExecFns;

verus! {

/// A person at the keyboard. Reading a line from the terminal is left to the
/// caller; turning that line into an action is done here.
pub struct Human {}

/// The action a line asks for, by its first character taken in lower case:
/// `a` moves left, `d` moves right, `q` quits, anything else is invalid.
pub open spec fn action_of_line(line: Seq<char>) -> Action {
    if line.len() == 0 {
        Action::Invalid
    } else if line[0] == 'a' || line[0] == 'A' {
        Action::Left
    } else if line[0] == 'd' || line[0] == 'D' {
        Action::Right
    } else if line[0] == 'q' || line[0] == 'Q' {
        Action::Quit
    } else {
        Action::Invalid
    }
}

impl Human {
    /// Reads one line of input as an action.
    pub fn parse_action(line: &str) -> (r: Action)
        ensures
            r == action_of_line(line@),
    {
        if line.unicode_len() == 0 {
            return Action::Invalid;
        }
        let c = line.get_char(0);
        if c == 'a' || c == 'A' {
            Action::Left
        } else if c == 'd' || c == 'D' {
            Action::Right
        } else if c == 'q' || c == 'Q' {
            Action::Quit
        } else {
            Action::Invalid
        }
    }
}

} // verus!
