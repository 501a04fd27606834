use vstd::prelude::*;

use crate::command::{command_of, parse_command, Command};
use crate::text::{trim_of, trimmed};

verus! {

/// Where the shell's read-eval loop stands.
#[derive(Clone, Copy, Debug, PartialEq, Eq, Structural)]
pub enum ShellState {
    AwaitingCommand,
    Terminated,
}

/// The state after a command: only `exit` ends the loop, and an ended loop
/// stays ended.
pub open spec fn transition(state: ShellState, c: Command) -> ShellState {
    if state is Terminated || c is Exit {
        ShellState::Terminated
    } else {
        ShellState::AwaitingCommand
    }
}

/// The commands that a sequence of commands runs: each in turn, up to and
/// including the first `exit`, and none after it.
pub open spec fn until_exit(cs: Seq<Command>) -> Seq<Command>
    decreases cs.len(),
{
    if cs.len() == 0 {
        Seq::empty()
    } else if cs[0] is Exit {
        seq![Command::Exit]
    } else {
        seq![cs[0]] + until_exit(cs.drop_first())
    }
}

/// The command that an operator's answer selects, surrounding whitespace
/// aside.
pub open spec fn answer_command(a: Seq<char>) -> Command {
    command_of(trim_of(a))
}

/// Resolves the operator's answer to a command.
pub fn dispatch(answer: &str) -> (r: Command)
    ensures
        r == answer_command(answer@),
{
    parse_command(trimmed(answer))
}

/// One turn of the loop: in a running shell the command is performed and the
/// state moves on; an ended shell performs nothing.
pub fn step(state: ShellState, c: Command) -> (r: (ShellState, Option<Command>))
    ensures
        r.0 == transition(state, c),
        state is AwaitingCommand ==> r.1 == Some(c),
        state is Terminated ==> r.1 is None,
{
    match state {
        ShellState::Terminated => (ShellState::Terminated, None),
        ShellState::AwaitingCommand => {
            let next = match c {
                Command::Exit => ShellState::Terminated,
                _ => ShellState::AwaitingCommand,
            };
            (next, Some(c))
        },
    }
}

/// Runs the loop over a scripted series of answers, returning the commands
/// performed, in order.
pub fn run_script(answers: &Vec<String>) -> (r: Vec<Command>)
    ensures
        r@ == until_exit(answers@.map_values(|a: String| answer_command(a@))),
{
    let ghost cs = answers@.map_values(|a: String| answer_command(a@));
    let mut state = ShellState::AwaitingCommand;
    let mut r: Vec<Command> = Vec::new();
    let mut i: usize = 0;
    assert(cs.subrange(0, cs.len() as int) =~= cs);
    assert(r@ + until_exit(cs) =~= until_exit(cs));
    while i < answers.len() && state == ShellState::AwaitingCommand
        invariant
            i <= answers@.len(),
            cs == answers@.map_values(|a: String| answer_command(a@)),
            state is AwaitingCommand ==> r@ + until_exit(cs.subrange(i as int, cs.len() as int))
                == until_exit(cs),
            state is Terminated ==> r@ == until_exit(cs),
        decreases answers@.len() - i,
    {
        let c = dispatch(answers[i].as_str());
        let ghost rest = cs.subrange(i as int, cs.len() as int);
        assert(rest[0] == c);
        assert(rest.drop_first() =~= cs.subrange(i + 1, cs.len() as int));
        let (next, performed) = step(state, c);
        if let Some(p) = performed {
            r.push(p);
        }
        state = next;
        i = i + 1;
        assert(state is AwaitingCommand ==> r@ + until_exit(cs.subrange(i as int, cs.len() as int))
            =~= until_exit(cs));
        assert(state is Terminated ==> r@ =~= until_exit(cs));
    }
    if state == ShellState::AwaitingCommand {
        assert(cs.subrange(i as int, cs.len() as int) =~= Seq::<Command>::empty());
        assert(r@ =~= until_exit(cs));
    }
    r
}


/// Only the word `exit` ends a running shell, and an ended shell stays ended.
pub proof fn lemma_only_exit_terminates(w: Seq<char>, c: Command)
    ensures
        transition(ShellState::AwaitingCommand, command_of(w)) == ShellState::Terminated <==> w
            == seq!['e', 'x', 'i', 't'],
        transition(ShellState::Terminated, c) == ShellState::Terminated,
{
}

/// A run performs the commands in the order given, stops right after the
/// first `exit`, and performs every command when none is `exit`.
pub proof fn lemma_run_stops_after_exit(cs: Seq<Command>)
    ensures
        until_exit(cs).len() <= cs.len(),
        until_exit(cs) == cs.subrange(0, until_exit(cs).len() as int),
        forall|i: int| 0 <= i < until_exit(cs).len() - 1 ==> !(#[trigger] until_exit(cs)[i] is Exit),
        (exists|i: int| 0 <= i < cs.len() && #[trigger] cs[i] is Exit) ==> until_exit(cs).last() is Exit,
        (forall|i: int| 0 <= i < cs.len() ==> !(#[trigger] cs[i] is Exit)) ==> until_exit(cs) == cs,
    decreases cs.len(),
{
    if cs.len() == 0 {
        assert(cs.subrange(0, 0) =~= cs);
    } else if cs[0] is Exit {
        assert(cs.subrange(0, 1) =~= seq![Command::Exit]);
    } else {
        let t = cs.drop_first();
        lemma_run_stops_after_exit(t);
        let u = until_exit(cs);
        assert(u == seq![cs[0]] + until_exit(t));
        assert(u =~= cs.subrange(0, u.len() as int));
        assert forall|i: int| 0 <= i < u.len() - 1 implies !(#[trigger] u[i] is Exit) by {
            if i > 0 {
                assert(u[i] == until_exit(t)[i - 1]);
            }
        }
        if exists|i: int| 0 <= i < cs.len() && #[trigger] cs[i] is Exit {
            let i = choose|i: int| 0 <= i < cs.len() && #[trigger] cs[i] is Exit;
            assert(t[i - 1] is Exit);
        }
        if forall|i: int| 0 <= i < cs.len() ==> !(#[trigger] cs[i] is Exit) {
            assert forall|i: int| 0 <= i < t.len() implies !(#[trigger] t[i] is Exit) by {
                assert(t[i] == cs[i + 1]);
            }
            assert(u =~= cs);
        }
    }
}

} // verus!
