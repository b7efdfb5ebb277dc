//! Selection of the command from the program's arguments.

use vstd::prelude::*;

verus! {

/// What one invocation does.
#[derive(Clone, Debug, PartialEq, Eq)]
pub enum Command {
    /// Report keyboard events until the hook stops.
    Listen,
    /// Type the text at the input focus.
    Write(String),
    /// Synthesize the copy chord.
    Copy,
    /// Do nothing and exit cleanly.
    NoAction,
}

/// The command that the arguments select; `args[0]` is the program name.
pub open spec fn command_of(args: Seq<String>) -> Command {
    if args.len() > 1 && args[1]@ == "listen"@ {
        Command::Listen
    } else if args.len() > 2 && args[1]@ == "write"@ {
        Command::Write(args[2])
    } else if args.len() > 1 && args[1]@ == "copy"@ {
        Command::Copy
    } else {
        Command::NoAction
    }
}

/// Whether two strings hold the same characters.
pub fn same_text(a: &str, b: &str) -> (r: bool)
    ensures
        r == (a@ == b@),
{
    let n = a.unicode_len();
    if n != b.unicode_len() {
        return false;
    }
    let mut i: usize = 0;
    while i < n
        invariant
            n == a@.len(),
            n == b@.len(),
            i <= n,
            a@.subrange(0, i as int) == b@.subrange(0, i as int),
        decreases n - i,
    {
        if a.get_char(i) != b.get_char(i) {
            assert(a@[i as int] != b@[i as int]);
            return false;
        }
        assert(a@.subrange(0, i + 1) =~= a@.subrange(0, i as int).push(a@[i as int]));
        assert(b@.subrange(0, i + 1) =~= b@.subrange(0, i as int).push(b@[i as int]));
        i = i + 1;
    }
    assert(a@ =~= a@.subrange(0, n as int));
    assert(b@ =~= b@.subrange(0, n as int));
    true
}

/// Selects the command: `listen`, `write <text>` or `copy` as the first
/// argument after the program name; anything else, or no argument, selects
/// no action. `write` without its text selects no action.
pub fn parse_command(args: &Vec<String>) -> (r: Command)
    ensures
        r == command_of(args@),
        args.len() <= 1 ==> r == Command::NoAction,
        args.len() > 1 && args[1]@ != "listen"@ && args[1]@ != "write"@ && args[1]@ != "copy"@
            ==> r == Command::NoAction,
{
    if args.len() > 1 && same_text(args[1].as_str(), "listen") {
        Command::Listen
    } else if args.len() > 2 && same_text(args[1].as_str(), "write") {
        Command::Write(args[2].clone())
    } else if args.len() > 1 && same_text(args[1].as_str(), "copy") {
        Command::Copy
    } else {
        Command::NoAction
    }
}

} // verus!
