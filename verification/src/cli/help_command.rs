//! The `help` command.

use vstd::prelude::*;

use crate::cli::run_command::RunCommand;
use crate::cli::{command_description, command_name, BeachCommand, CommandKind};

verus! {

/// The command that prints help information.
pub struct HelpCommand;

impl BeachCommand for HelpCommand {
    fn name(&self) -> (s: &'static str)
        ensures
            s@ == command_name(CommandKind::Help),
    {
        "help"
    }

    fn usage(&self) -> (s: &'static str)
        ensures
            s@ == "beach help"@,
    {
        "beach help"
    }

    fn description(&self) -> (s: &'static str)
        ensures
            s@ == command_description(CommandKind::Help),
    {
        "prints help information for the beach cli"
    }
}

/// How a command is listed: its name, a tab, and its description.
pub open spec fn command_line(c: CommandKind) -> Seq<char> {
    command_name(c) + "\t"@ + command_description(c)
}

/// The help text: the usage line, then each command on a line of its own,
/// indented by a tab.
pub open spec fn help_text() -> Seq<char> {
    "usage: beach [command] [command_args]\n\t"@ + command_line(CommandKind::Help) + "\n\t"@
        + command_line(CommandKind::Run)
}

impl HelpCommand {
    /// The text the command prints.
    pub fn help_text(&self) -> (s: String)
        ensures
            s@ == help_text(),
    {
        let mut s = "usage: beach [command] [command_args]\n\t".to_owned();
        s.append(HelpCommand.name());
        s.append("\t");
        s.append(HelpCommand.description());
        s.append("\n\t");
        s.append(RunCommand.name());
        s.append("\t");
        s.append(RunCommand.description());
        s
    }
}

} // verus!
