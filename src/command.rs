use vstd::prelude::*;

use crate::text::text_equals;

verus! {

/// The shell's commands, each bound to exactly one action.
#[derive(Clone, Copy, Debug, PartialEq, Eq, Structural)]
pub enum Command {
    ListBrokers,
    ListTopics,
    CreateTopic,
    Help,
    Exit,
}

/// The command that a word selects: exact, case-sensitive match on the
/// keywords; any other word, the empty one included, selects help.
pub open spec fn command_of(w: Seq<char>) -> Command {
    if w == seq!['l', 'b'] {
        Command::ListBrokers
    } else if w == seq!['l', 't'] {
        Command::ListTopics
    } else if w == seq!['c', 't'] {
        Command::CreateTopic
    } else if w == seq!['e', 'x', 'i', 't'] {
        Command::Exit
    } else {
        Command::Help
    }
}

/// Resolves a word to its command.
pub fn parse_command(w: &str) -> (r: Command)
    ensures
        r == command_of(w@),
{
    proof {
        reveal_strlit("lb");
        reveal_strlit("lt");
        reveal_strlit("ct");
        reveal_strlit("exit");
    }
    if text_equals(w, "lb") {
        assert("lb"@ =~= seq!['l', 'b']);
        Command::ListBrokers
    } else if text_equals(w, "lt") {
        assert("lt"@ =~= seq!['l', 't']);
        Command::ListTopics
    } else if text_equals(w, "ct") {
        assert("ct"@ =~= seq!['c', 't']);
        Command::CreateTopic
    } else if text_equals(w, "exit") {
        assert("exit"@ =~= seq!['e', 'x', 'i', 't']);
        Command::Exit
    } else {
        assert(w@ != seq!['l', 'b']) by { assert("lb"@ =~= seq!['l', 'b']); }
        assert(w@ != seq!['l', 't']) by { assert("lt"@ =~= seq!['l', 't']); }
        assert(w@ != seq!['c', 't']) by { assert("ct"@ =~= seq!['c', 't']); }
        assert(w@ != seq!['e', 'x', 'i', 't']) by { assert("exit"@ =~= seq!['e', 'x', 'i', 't']); }
        Command::Help
    }
}


/// Each keyword selects exactly its own command, and no other word selects
/// that command.
pub proof fn lemma_keywords_route_exactly(w: Seq<char>)
    ensures
        command_of(w) == Command::ListBrokers <==> w == seq!['l', 'b'],
        command_of(w) == Command::ListTopics <==> w == seq!['l', 't'],
        command_of(w) == Command::CreateTopic <==> w == seq!['c', 't'],
        command_of(w) == Command::Exit <==> w == seq!['e', 'x', 'i', 't'],
{
}

/// A word that is none of the keywords, the empty word and `?` among them,
/// selects help, never a listing, a creation or the end of the loop.
pub proof fn lemma_unknown_word_selects_help(w: Seq<char>)
    requires
        w != seq!['l', 'b'],
        w != seq!['l', 't'],
        w != seq!['c', 't'],
        w != seq!['e', 'x', 'i', 't'],
    ensures
        command_of(w) == Command::Help,
{
}

} // verus!
