//! Decision engine of a dropdown-window toggler for a tiling compositor.
//!
//! Given the application to run and a token that identifies its window, the
//! library works out how the window is recognised among the compositor's
//! clients, where it currently sits relative to the active workspace, and
//! which placement operations bring it into view or send it away.  It talks
//! to nothing: callers hand in snapshots and carry out the operations.

pub mod search;
pub mod text;
pub mod kind;
pub mod client;
pub mod rule;
pub mod cli;
pub mod ledger;
pub mod ledger_laws;
pub mod matcher;
pub mod planner;
pub mod toggle;
pub mod run;
pub mod report;
