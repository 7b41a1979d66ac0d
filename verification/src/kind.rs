//! The applications the toggler knows, and how each one's window is told apart.

use vstd::prelude::*;
use crate::text::same_text;

verus! {

/// How a window of an application can be recognised.
#[derive(Clone, Copy, Debug, PartialEq, Eq, Structural)]
pub enum Strategy {
    /// The application lets the caller choose its window class.
    ClassBased,
    /// The application lets the caller choose its window title.
    TitleBased,
    /// Neither class nor title can be relied on; only the handle that the
    /// compositor gave the window identifies it.
    OpaqueHandleBased,
}

/// The application that is being toggled.
#[derive(Clone, Copy, Debug, PartialEq, Eq, Structural)]
pub enum ApplicationKind {
    Alacritty,
    Kitty,
    Wezterm,
    Foot,
    GnomeTerminal,
    Konsole,
    /// Any other program; it is assumed to take its window class from the
    /// option `--class`, and is recognised by that class.
    Other,
}

/// The application that a command name stands for.
pub open spec fn kind_of_command(cmd: Seq<char>) -> ApplicationKind {
    if cmd == "alacritty"@ {
        ApplicationKind::Alacritty
    } else if cmd == "kitty"@ {
        ApplicationKind::Kitty
    } else if cmd == "wezterm"@ {
        ApplicationKind::Wezterm
    } else if cmd == "foot"@ {
        ApplicationKind::Foot
    } else if cmd == "gnome-terminal"@ {
        ApplicationKind::GnomeTerminal
    } else if cmd == "konsole"@ {
        ApplicationKind::Konsole
    } else {
        ApplicationKind::Other
    }
}

impl ApplicationKind {
    /// How windows of this application are recognised.  Unknown programs are
    /// treated as class based.
    pub open spec fn spec_strategy(self) -> Strategy {
        match self {
            ApplicationKind::Foot | ApplicationKind::Konsole => Strategy::TitleBased,
            ApplicationKind::GnomeTerminal => Strategy::OpaqueHandleBased,
            _ => Strategy::ClassBased,
        }
    }

    #[verifier::when_used_as_spec(spec_strategy)]
    pub fn strategy(self) -> (s: Strategy)
        ensures
            s == self.spec_strategy(),
    {
        match self {
            ApplicationKind::Foot | ApplicationKind::Konsole => Strategy::TitleBased,
            ApplicationKind::GnomeTerminal => Strategy::OpaqueHandleBased,
            _ => Strategy::ClassBased,
        }
    }

    /// Looks the command name up in the table of known applications.
    pub fn from_command(cmd: &str) -> (kind: ApplicationKind)
        ensures
            kind == kind_of_command(cmd@),
    {
        if same_text(cmd, "alacritty") {
            ApplicationKind::Alacritty
        } else if same_text(cmd, "kitty") {
            ApplicationKind::Kitty
        } else if same_text(cmd, "wezterm") {
            ApplicationKind::Wezterm
        } else if same_text(cmd, "foot") {
            ApplicationKind::Foot
        } else if same_text(cmd, "gnome-terminal") {
            ApplicationKind::GnomeTerminal
        } else if same_text(cmd, "konsole") {
            ApplicationKind::Konsole
        } else {
            ApplicationKind::Other
        }
    }
}

} // verus!
