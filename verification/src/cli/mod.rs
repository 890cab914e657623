//! The command line interface's decisions: which command a name selects, the
//! help text, and what the `run` command does with its arguments and with a
//! program's text. Reading files and printing are left to the caller.

pub mod help_command;
pub mod run_command;

use vstd::prelude::*;

use crate::cli::help_command::HelpCommand;
use crate::cli::run_command::RunCommand;

verus! {

/// A command of the command line interface.
pub trait BeachCommand {
    /// The name that selects the command.
    fn name(&self) -> &'static str;

    /// How the command is used.
    fn usage(&self) -> &'static str;

    /// What the command does.
    fn description(&self) -> &'static str;
}

/// The commands, in the order they are listed and matched.
#[derive(Clone, Copy, Debug, PartialEq, Eq, Structural)]
pub enum CommandKind {
    Help,
    Run,
}

/// The name of a command.
pub open spec fn command_name(c: CommandKind) -> Seq<char> {
    match c {
        CommandKind::Help => "help"@,
        CommandKind::Run => "run"@,
    }
}

/// The description of a command.
pub open spec fn command_description(c: CommandKind) -> Seq<char> {
    match c {
        CommandKind::Help => "prints help information for the beach cli"@,
        CommandKind::Run => "run a beach program"@,
    }
}

/// The code of `c`, with an ASCII capital letter made small.
pub open spec fn ascii_lower(c: char) -> u32 {
    let u = c as u32;
    if 0x41 <= u <= 0x5a {
        (u + 32) as u32
    } else {
        u
    }
}

/// Two strings are equal when ASCII letters are compared without case.
pub open spec fn equal_ignoring_ascii_case(a: Seq<char>, b: Seq<char>) -> bool {
    a.len() == b.len() && forall|i: int| 0 <= i < a.len() ==> ascii_lower(#[trigger] a[i]) == ascii_lower(b[i])
}

/// The command a name selects: the first command whose name equals it,
/// ASCII letters compared without case.
pub open spec fn selected_command(name: Seq<char>) -> Option<CommandKind> {
    if equal_ignoring_ascii_case(command_name(CommandKind::Help), name) {
        Some(CommandKind::Help)
    } else if equal_ignoring_ascii_case(command_name(CommandKind::Run), name) {
        Some(CommandKind::Run)
    } else {
        None
    }
}

/// Command names are matched without regard to ASCII case: two names that
/// differ only in the case of ASCII letters select the same command.
pub proof fn law_selection_ignores_ascii_case(a: Seq<char>, b: Seq<char>)
    requires
        equal_ignoring_ascii_case(a, b),
    ensures
        selected_command(a) == selected_command(b),
{
    assert forall|c: Seq<char>| equal_ignoring_ascii_case(c, a) <==> equal_ignoring_ascii_case(c, b) by {
        if equal_ignoring_ascii_case(c, a) {
            assert forall|i: int| 0 <= i < c.len() implies ascii_lower(#[trigger] c[i]) == ascii_lower(b[i]) by {
                assert(ascii_lower(a[i]) == ascii_lower(b[i]));
            }
        }
        if equal_ignoring_ascii_case(c, b) {
            assert forall|i: int| 0 <= i < c.len() implies ascii_lower(#[trigger] c[i]) == ascii_lower(a[i]) by {
                assert(ascii_lower(a[i]) == ascii_lower(b[i]));
            }
        }
    }
    assert(equal_ignoring_ascii_case(command_name(CommandKind::Help), a) == equal_ignoring_ascii_case(
        command_name(CommandKind::Help),
        b,
    ));
    assert(equal_ignoring_ascii_case(command_name(CommandKind::Run), a) == equal_ignoring_ascii_case(
        command_name(CommandKind::Run),
        b,
    ));
}

/// The code of `c`, with an ASCII capital letter made small, as
/// `char::to_ascii_lowercase` gives it.
fn to_lower(c: char) -> (r: u32)
    ensures
        r == ascii_lower(c),
{
    let u = c as u32;
    if 0x41 <= u && u <= 0x5a {
        u + 32
    } else {
        u
    }
}

/// Whether two strings are equal when ASCII letters are compared without
/// case, as `str::eq_ignore_ascii_case` decides it.
pub fn eq_ignore_ascii_case(a: &str, b: &str) -> (r: bool)
    ensures
        r == equal_ignoring_ascii_case(a@, b@),
{
    let x = crate::text::chars_of(a);
    let y = crate::text::chars_of(b);
    if x.len() != y.len() {
        return false;
    }
    let mut i: usize = 0;
    while i < x.len()
        invariant
            x@ == a@,
            y@ == b@,
            x@.len() == y@.len(),
            i <= x@.len(),
            forall|j: int| 0 <= j < i ==> ascii_lower(#[trigger] x@[j]) == ascii_lower(y@[j]),
        decreases x@.len() - i,
    {
        if to_lower(x[i]) != to_lower(y[i]) {
            return false;
        }
        i += 1;
    }
    true
}

/// The command that `command_name` selects, if any.
pub fn find_command(command_name: &str) -> (r: Option<CommandKind>)
    ensures
        r == selected_command(command_name@),
{
    proof {
        reveal_strlit("help");
        reveal_strlit("run");
    }
    if eq_ignore_ascii_case(HelpCommand.name(), command_name) {
        Some(CommandKind::Help)
    } else if eq_ignore_ascii_case(RunCommand.name(), command_name) {
        Some(CommandKind::Run)
    } else {
        None
    }
}

} // verus!
