//! What can go wrong, and what is done about it.

use vstd::prelude::*;
use vstd::string::*;

verus! {

/// The kinds of failure.
#[derive(Clone, Copy, Debug, PartialEq, Eq, Structural)]
pub enum ErrorKind {
    /// The compositor cannot be reached, so neither the clients nor the
    /// active workspace are known.
    BoundaryUnavailable,
    /// The compositor refused one operation.
    DispatchFailed,
    /// A line of the ledger's text stands for no row.
    LedgerCorrupt,
    /// After a launch no window showed the token as its initial title.
    NoHandleDiscovered,
}

impl ErrorKind {
    pub open spec fn spec_is_fatal(self) -> bool {
        self == ErrorKind::BoundaryUnavailable
    }

    /// Whether the invocation ends here.  Only an unreachable compositor ends
    /// it; every other failure is reported and the work goes on.
    #[verifier::when_used_as_spec(spec_is_fatal)]
    pub fn is_fatal(self) -> (fatal: bool)
        ensures
            fatal == self.spec_is_fatal(),
    {
        match self {
            ErrorKind::BoundaryUnavailable => true,
            _ => false,
        }
    }
}

/// The command that shows `message` on the desktop.
pub open spec fn notification(message: Seq<char>) -> Seq<char> {
    "notify-send "@ + message
}

/// Decides how a failure that was logged is shown besides: in debug mode
/// the result is the command that shows the message on the desktop, and
/// otherwise there is nothing more to do.
pub fn handle_error(e: &str, debug: bool) -> (notify: Option<String>)
    ensures
        match notify {
            Some(command) => debug && command@ == notification(e@),
            None => !debug,
        },
{
    if debug {
        let mut command = String::from_str("notify-send ");
        command.append(e);
        Some(command)
    } else {
        None
    }
}

} // verus!
