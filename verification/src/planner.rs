//! Where a window sits, and which operations toggle it.
//!
//! A window that is found is in one of three places: in the special
//! workspace, in the active workspace, or in some other workspace.  Each
//! place, and the case that no window was found, has its own fixed sequence
//! of operations.  The trailing step that raises the window is always
//! "bring the active window to the top"; no separate focus request is made.

use vstd::prelude::*;
use vstd::string::*;
use crate::client::{WorkspaceState, WorkspaceView, SPECIAL_WORKSPACE};
use crate::rule::{MatchRule, RuleView};

verus! {

/// Where the window of a request is.
#[derive(Clone, Copy, Debug, PartialEq, Eq, Structural)]
pub enum Placement {
    /// In the special workspace, out of sight.
    Hidden,
    /// In a workspace that is neither the special one nor the active one.
    Elsewhere,
    /// In the active workspace.
    ActiveHere,
    /// Nowhere: no window was found.
    Absent,
}

/// The window is in the special workspace.
pub open spec fn is_hidden(workspace: WorkspaceView, active: WorkspaceView) -> bool {
    workspace.is_special()
}

/// The window is in the active workspace, which is not the special one.
pub open spec fn is_active_here(workspace: WorkspaceView, active: WorkspaceView) -> bool {
    !workspace.is_special() && workspace.id == active.id
}

/// The window is in a workspace other than the special and the active one.
pub open spec fn is_elsewhere(workspace: WorkspaceView, active: WorkspaceView) -> bool {
    !workspace.is_special() && workspace.id != active.id
}

/// The place of a window in `workspace` while `active` is the active
/// workspace.  The special workspace is told by its name, the active one by
/// its number; a window in the special workspace is hidden whatever the
/// numbers are.
pub open spec fn placement_of(workspace: WorkspaceView, active: WorkspaceView) -> Placement {
    if workspace.is_special() {
        Placement::Hidden
    } else if workspace.id == active.id {
        Placement::ActiveHere
    } else {
        Placement::Elsewhere
    }
}

/// Every pair of a window's workspace and the active workspace is in exactly
/// one of the three places, and `placement_of` names that place.
pub proof fn placement_is_exactly_one(workspace: WorkspaceView, active: WorkspaceView)
    ensures
        is_hidden(workspace, active) <==> placement_of(workspace, active) == Placement::Hidden,
        is_active_here(workspace, active) <==> placement_of(workspace, active)
            == Placement::ActiveHere,
        is_elsewhere(workspace, active) <==> placement_of(workspace, active)
            == Placement::Elsewhere,
        placement_of(workspace, active) != Placement::Absent,
        is_hidden(workspace, active) || is_active_here(workspace, active) || is_elsewhere(
            workspace,
            active,
        ),
        !(is_hidden(workspace, active) && is_active_here(workspace, active)),
        !(is_hidden(workspace, active) && is_elsewhere(workspace, active)),
        !(is_active_here(workspace, active) && is_elsewhere(workspace, active)),
{
}

/// Tells where a window in `workspace` is while `active` is the active
/// workspace.
pub fn classify(workspace: &WorkspaceState, active: &WorkspaceState) -> (place: Placement)
    ensures
        place == placement_of(workspace@, active@),
        place != Placement::Absent,
{
    if workspace.is_special() {
        Placement::Hidden
    } else if workspace.id == active.id {
        Placement::ActiveHere
    } else {
        Placement::Elsewhere
    }
}

/// The workspace that a move goes to.
#[derive(Clone, Copy, Debug, PartialEq, Eq, Structural)]
pub enum WorkspaceTarget {
    /// The special workspace.
    Special,
    /// The workspace with this number.
    Id(i32),
}

/// An operation as plain values.
pub enum OperationView {
    Launch { command_line: Seq<char>, background: bool },
    MoveToWorkspaceSilent(WorkspaceTarget, RuleView),
    MoveToWorkspace(WorkspaceTarget, RuleView),
    BringActiveToTop,
}

/// One step of a plan.
#[derive(Debug, PartialEq, Eq)]
pub enum Operation {
    /// Start the application with this command line; in the background, it
    /// opens in the special workspace.
    Launch { command_line: String, background: bool },
    /// Move the window that the rule names without following it.
    MoveToWorkspaceSilent(WorkspaceTarget, MatchRule),
    /// Move the window that the rule names and follow it.
    MoveToWorkspace(WorkspaceTarget, MatchRule),
    /// Raise the active window above the others of its workspace.
    BringActiveToTop,
}

impl View for Operation {
    type V = OperationView;

    open spec fn view(&self) -> OperationView {
        match self {
            Operation::Launch { command_line, background } => OperationView::Launch {
                command_line: command_line@,
                background: *background,
            },
            Operation::MoveToWorkspaceSilent(target, rule) => OperationView::MoveToWorkspaceSilent(
                *target,
                rule@,
            ),
            Operation::MoveToWorkspace(target, rule) => OperationView::MoveToWorkspace(
                *target,
                rule@,
            ),
            Operation::BringActiveToTop => OperationView::BringActiveToTop,
        }
    }
}

/// The steps as plain values, in order.
pub open spec fn steps(plan: Seq<Operation>) -> Seq<OperationView> {
    plan.map_values(|op: Operation| op@)
}

/// The plan for a window in the given place.
///
/// A window that is absent is launched.  One in the active workspace is
/// moved to the special workspace.  One that is elsewhere goes to the
/// special workspace first and only then to the active one, since a move
/// straight across can leave the compositor unresponsive, and is raised.  One
/// that is hidden is already in the special workspace, so it is moved to the
/// active workspace and raised without the first hop.
pub open spec fn plan_of(
    place: Placement,
    rule: RuleView,
    active_id: i32,
    command_line: Seq<char>,
    background: bool,
) -> Seq<OperationView> {
    match place {
        Placement::Absent => seq![OperationView::Launch { command_line, background }],
        Placement::ActiveHere => seq![
            OperationView::MoveToWorkspaceSilent(WorkspaceTarget::Special, rule),
        ],
        Placement::Elsewhere => seq![
            OperationView::MoveToWorkspaceSilent(WorkspaceTarget::Special, rule),
            OperationView::MoveToWorkspace(WorkspaceTarget::Id(active_id), rule),
            OperationView::BringActiveToTop,
        ],
        Placement::Hidden => seq![
            OperationView::MoveToWorkspace(WorkspaceTarget::Id(active_id), rule),
            OperationView::BringActiveToTop,
        ],
    }
}

/// Lays out the operations for a window in the given place.
pub fn plan(
    place: Placement,
    rule: &MatchRule,
    active_id: i32,
    command_line: &str,
    background: bool,
) -> (ops: Vec<Operation>)
    ensures
        steps(ops@) == plan_of(place, rule@, active_id, command_line@, background),
{
    let mut ops: Vec<Operation> = Vec::new();
    match place {
        Placement::Absent => {
            ops.push(
                Operation::Launch { command_line: String::from_str(command_line), background },
            );
        },
        Placement::ActiveHere => {
            ops.push(Operation::MoveToWorkspaceSilent(WorkspaceTarget::Special, rule.clone()));
        },
        Placement::Elsewhere => {
            ops.push(Operation::MoveToWorkspaceSilent(WorkspaceTarget::Special, rule.clone()));
            ops.push(Operation::MoveToWorkspace(WorkspaceTarget::Id(active_id), rule.clone()));
            ops.push(Operation::BringActiveToTop);
        },
        Placement::Hidden => {
            ops.push(Operation::MoveToWorkspace(WorkspaceTarget::Id(active_id), rule.clone()));
            ops.push(Operation::BringActiveToTop);
        },
    }
    assert(steps(ops@) =~= plan_of(place, rule@, active_id, command_line@, background));
    ops
}

/// The plan for a window that is elsewhere or hidden ends by raising it.
pub proof fn showing_ends_by_raising(
    place: Placement,
    rule: RuleView,
    active_id: i32,
    command_line: Seq<char>,
    background: bool,
)
    requires
        place == Placement::Elsewhere || place == Placement::Hidden,
    ensures
        plan_of(place, rule, active_id, command_line, background).last()
            == OperationView::BringActiveToTop,
{
}

/// The plan for a window that is elsewhere begins with the silent move to
/// the special workspace; the plan for a hidden window holds no such move at
/// all, and begins with the move to the active workspace.
pub proof fn only_elsewhere_hops_through_special(
    rule: RuleView,
    active_id: i32,
    command_line: Seq<char>,
    background: bool,
)
    ensures
        plan_of(Placement::Elsewhere, rule, active_id, command_line, background).first()
            == OperationView::MoveToWorkspaceSilent(WorkspaceTarget::Special, rule),
        plan_of(Placement::Hidden, rule, active_id, command_line, background).first()
            == OperationView::MoveToWorkspace(WorkspaceTarget::Id(active_id), rule),
        forall|i: int|
            0 <= i < plan_of(Placement::Hidden, rule, active_id, command_line, background).len()
                ==> !(#[trigger] plan_of(
                Placement::Hidden,
                rule,
                active_id,
                command_line,
                background,
            )[i] is MoveToWorkspaceSilent),
{
}

/// The words that make a launch open in the special workspace.
pub open spec fn background_prefix() -> Seq<char> {
    "[workspace special:"@ + SPECIAL_WORKSPACE@ + " silent] "@
}

/// The command that is handed to the compositor to launch the application:
/// the command line, after the background prefix where one is wanted.
pub open spec fn launch_request(command_line: Seq<char>, background: bool) -> Seq<char> {
    if background {
        background_prefix() + command_line
    } else {
        command_line
    }
}

/// Builds the command that is handed to the compositor for a launch.
pub fn exec_command(command_line: &str, background: bool) -> (request: String)
    ensures
        request@ == launch_request(command_line@, background),
{
    let mut request = String::new();
    if background {
        request.append("[workspace special:");
        request.append(SPECIAL_WORKSPACE);
        request.append(" silent] ");
    }
    request.append(command_line);
    assert(request@ =~= launch_request(command_line@, background));
    request
}

} // verus!
