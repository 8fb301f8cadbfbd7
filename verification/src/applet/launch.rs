//! From an applet's description to the process to start for it.

use crate::applet::interface::AppletInfo;
use vstd::prelude::*;

verus! {

/// The program to start for an applet, and the arguments to hand to it.
#[derive(Debug, Clone)]
pub struct LaunchCommand {
    pub program: String,
    pub args: Vec<String>,
}

/// Why an applet cannot be started.
#[derive(Debug, Clone, Copy, PartialEq, Eq, Structural)]
pub enum LaunchError {
    /// The description's command line names no program.
    EmptyCommand,
}

/// The words of a line: its non-empty runs of characters other than white
/// space, in order, as `str::split_whitespace` yields them.
pub uninterp spec fn words(line: Seq<char>) -> Seq<Seq<char>>;

/// `str::split_whitespace`, with each word copied into a `String` of its
/// own. The result holds the words of the line, in order.
#[verifier::external_body]
fn split_whitespace(line: &str) -> (r: Vec<String>)
    ensures
        r@.len() == words(line@).len(),
        forall|i: int| 0 <= i < r@.len() ==> (#[trigger] r@[i])@ == words(line@)[i],
{
    line.split_whitespace().map(String::from).collect()
}

/// Whether `words` are the words `expected`, in order.
pub open spec fn spells(words: Seq<String>, expected: Seq<Seq<char>>) -> bool {
    &&& words.len() == expected.len()
    &&& forall|i: int| 0 <= i < words.len() ==> (#[trigger] words[i])@ == expected[i]
}

impl LaunchCommand {
    /// The command that a list of words stands for: the first word is the
    /// program, the others are its arguments. An empty list stands for none.
    pub fn from_words(words: Vec<String>) -> (r: Result<LaunchCommand, LaunchError>)
        ensures
            words@.len() == 0 ==> r == Err::<LaunchCommand, LaunchError>(LaunchError::EmptyCommand),
            words@.len() > 0 ==> (r matches Ok(command) && command.program == words@[0]
                && command.args@ == words@.skip(1)),
    {
        let mut words = words;
        if words.len() == 0 {
            return Err(LaunchError::EmptyCommand);
        }
        let ghost all = words@;
        let program = words.remove(0);
        assert(words@ =~= all.skip(1));
        Ok(LaunchCommand { program, args: words })
    }
}

impl AppletInfo {
    /// What to start for this applet: the first word of its command line is
    /// the program, the other words are the arguments. A command line
    /// without a word is refused.
    pub fn launch(&self) -> (r: Result<LaunchCommand, LaunchError>)
        ensures
            words(self.command@).len() == 0 ==> r == Err::<LaunchCommand, LaunchError>(
                LaunchError::EmptyCommand,
            ),
            words(self.command@).len() > 0 ==> (r matches Ok(command) && command.program@ == words(
                self.command@,
            )[0] && spells(command.args@, words(self.command@).skip(1))),
    {
        LaunchCommand::from_words(split_whitespace(self.command.as_str()))
    }
}

} // verus!
