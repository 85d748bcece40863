//! The one-line form of a log record.

use vstd::prelude::*;
use vstd::string::StringExecFns;

verus! {

/// A logger that writes each record as one line, with its level and its
/// target in square brackets in front of the message.
pub struct TinyLogger;

impl TinyLogger {
    /// The line of a record: `[level][target] message`.
    pub open spec fn line(level: Seq<char>, target: Seq<char>, message: Seq<char>) -> Seq<char> {
        seq!['['] + level + seq![']', '['] + target + seq![']', ' '] + message
    }

    /// Puts a record into its line.
    pub fn format(&self, level: &str, target: &str, message: &str) -> (line: String)
        ensures
            line@ == Self::line(level@, target@, message@),
    {
        let mut line = String::new();
        line.push('[');
        line.append(level);
        line.push(']');
        line.push('[');
        line.append(target);
        line.push(']');
        line.push(' ');
        line.append(message);
        assert(line@ =~= Self::line(level@, target@, message@));
        line
    }
}

} // verus!
