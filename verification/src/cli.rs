//! What the user asked for, and the command line that starts the application.

use vstd::prelude::*;
use vstd::string::*;
use crate::kind::{kind_of_command, ApplicationKind};
use crate::rule::{pattern_for, pattern_of};
use crate::text::{commas_as_spaces, spread_arguments};

verus! {

/// The command up to and including the option that names the window.  A
/// program that is not in the table is started like the terminals that take
/// their class from `--class`.
pub open spec fn launch_head(kind: ApplicationKind, cmd: Seq<char>, token: Seq<char>) -> Seq<char> {
    match kind {
        ApplicationKind::Alacritty | ApplicationKind::Kitty | ApplicationKind::Other => cmd
            + " --class="@ + token,
        ApplicationKind::Foot => cmd + " --title="@ + token + " --override locked-title=yes"@,
        ApplicationKind::Wezterm => cmd + " start --class="@ + token,
        ApplicationKind::GnomeTerminal => cmd + " --title="@ + token,
        ApplicationKind::Konsole => cmd + " -p tabtitle="@ + token,
    }
}

/// What stands between the head and the program to run inside the window.
pub open spec fn launch_separator(kind: ApplicationKind) -> Seq<char> {
    match kind {
        ApplicationKind::Wezterm | ApplicationKind::GnomeTerminal => " -- "@,
        ApplicationKind::Other => " "@,
        _ => " -e "@,
    }
}

/// The full command line: the head, and, where arguments were given and are
/// not empty, the separator and the arguments with spaces for commas.
pub open spec fn launch_line(
    kind: ApplicationKind,
    cmd: Seq<char>,
    token: Seq<char>,
    args: Option<Seq<char>>,
) -> Seq<char> {
    match args {
        Some(list) if list.len() > 0 => launch_head(kind, cmd, token) + launch_separator(kind)
            + commas_as_spaces(list),
        _ => launch_head(kind, cmd, token),
    }
}

/// Builds the command line that starts `cmd` as an application of the given
/// kind, with its window named by `token`.
pub fn command_line(kind: ApplicationKind, cmd: &str, token: &str, args: Option<&str>) -> (line:
    String)
    ensures
        line@ == launch_line(
            kind,
            cmd@,
            token@,
            match args {
                Some(list) => Some(list@),
                None => None,
            },
        ),
{
    let mut line = String::from_str(cmd);
    match kind {
        ApplicationKind::Alacritty | ApplicationKind::Kitty | ApplicationKind::Other => {
            line.append(" --class=");
            line.append(token);
        },
        ApplicationKind::Foot => {
            line.append(" --title=");
            line.append(token);
            line.append(" --override locked-title=yes");
        },
        ApplicationKind::Wezterm => {
            line.append(" start --class=");
            line.append(token);
        },
        ApplicationKind::GnomeTerminal => {
            line.append(" --title=");
            line.append(token);
        },
        ApplicationKind::Konsole => {
            line.append(" -p tabtitle=");
            line.append(token);
        },
    }
    assert(line@ == launch_head(kind, cmd@, token@));
    match args {
        Some(list) => {
            if !list.is_empty() {
                match kind {
                    ApplicationKind::Wezterm | ApplicationKind::GnomeTerminal => {
                        line.append(" -- ");
                    },
                    ApplicationKind::Other => {
                        line.append(" ");
                    },
                    _ => {
                        line.append(" -e ");
                    },
                }
                let spread = spread_arguments(list);
                line.append(spread.as_str());
            }
        },
        None => {},
    }
    line
}

/// One invocation's request.
#[derive(Debug, PartialEq, Eq)]
pub struct Cli {
    /// The program to run.
    pub cmd: String,
    /// The token that names the window; a class or a title, by application.
    pub identifier: String,
    /// Arguments for the program, separated by commas.
    pub cmd_args: Option<String>,
    /// Whether a newly started window opens out of sight.
    pub background: bool,
    /// Whether failures are also shown on the desktop.
    pub debug: bool,
}

impl Cli {
    /// The arguments as plain text, where there are any.
    pub open spec fn args_view(self) -> Option<Seq<char>> {
        match self.cmd_args {
            Some(list) => Some(list@),
            None => None,
        }
    }

    /// The application that the command names.
    pub fn kind(&self) -> (kind: ApplicationKind)
        ensures
            kind == kind_of_command(self.cmd@),
    {
        ApplicationKind::from_command(self.cmd.as_str())
    }

    /// The pattern that names this request's window to the compositor.
    pub fn to_pattern_match(&self) -> (pattern: String)
        ensures
            pattern@ == pattern_of(kind_of_command(self.cmd@), self.identifier@),
    {
        pattern_for(self.kind(), self.identifier.as_str())
    }

    /// The command line that starts the application.
    pub fn arrange_execution_cmd(&self) -> (line: String)
        ensures
            line@ == launch_line(
                kind_of_command(self.cmd@),
                self.cmd@,
                self.identifier@,
                self.args_view(),
            ),
    {
        let args: Option<&str> = match &self.cmd_args {
            Some(list) => Some(list.as_str()),
            None => None,
        };
        command_line(self.kind(), self.cmd.as_str(), self.identifier.as_str(), args)
    }
}

} // verus!
