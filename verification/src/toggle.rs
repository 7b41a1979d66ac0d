//! One invocation from request to plan, and what is kept after a launch.

use vstd::prelude::*;
use vstd::string::*;
use crate::cli::{launch_line, Cli};
use crate::client::{snapshot, ClientView, LiveClient, WindowHandle, WorkspaceState, WorkspaceView};
use crate::kind::{kind_of_command, ApplicationKind, Strategy};
use crate::ledger::{recorded, AddressLedger, EntryView};
use crate::matcher::{attribute_is, bound, find_index, first_with, found_at, Attribute};
use crate::planner::{classify, plan, plan_of, placement_of, steps, Operation, OperationView, Placement};
use crate::rule::{derive_rule, rule_of};
use crate::search::first_index;

verus! {

/// The plan for a request.  The rule follows from the application and the
/// token; where it picks a client, the plan is that of the client's place,
/// with the rule bound to the client's handle; where it picks none, the
/// plan is that of an absent window.
pub open spec fn decision_of(
    kind: ApplicationKind,
    token: Seq<char>,
    command_line: Seq<char>,
    background: bool,
    clients: Seq<ClientView>,
    active: WorkspaceView,
    ledger: Seq<EntryView>,
) -> Seq<OperationView> {
    let rule = rule_of(kind, token);
    match found_at(rule, clients, ledger) {
        Some(i) => plan_of(
            placement_of(clients[i].workspace, active),
            bound(rule, clients[i].handle),
            active.id,
            command_line,
            background,
        ),
        None => plan_of(Placement::Absent, rule, active.id, command_line, background),
    }
}

/// The application is launched exactly when the rule picks no client, and
/// the launch is then the whole plan; where a client is picked, no step
/// launches anything.
pub proof fn launches_exactly_when_absent(
    kind: ApplicationKind,
    token: Seq<char>,
    command_line: Seq<char>,
    background: bool,
    clients: Seq<ClientView>,
    active: WorkspaceView,
    ledger: Seq<EntryView>,
)
    ensures
        found_at(rule_of(kind, token), clients, ledger) is None <==> decision_of(
            kind,
            token,
            command_line,
            background,
            clients,
            active,
            ledger,
        ) == seq![OperationView::Launch { command_line, background }],
        found_at(rule_of(kind, token), clients, ledger) is Some ==> forall|i: int|
            0 <= i < decision_of(
                kind,
                token,
                command_line,
                background,
                clients,
                active,
                ledger,
            ).len() ==> !(#[trigger] decision_of(
                kind,
                token,
                command_line,
                background,
                clients,
                active,
                ledger,
            )[i] is Launch),
{
    let rule = rule_of(kind, token);
    let decision = decision_of(kind, token, command_line, background, clients, active, ledger);
    match found_at(rule, clients, ledger) {
        Some(i) => {
            assert(!(decision[0] is Launch));
        },
        None => {},
    }
}

/// Works out what to do for a request, given the clients and the active
/// workspace as the compositor reports them now and the ledger as it was
/// read.  Nothing is carried out and the ledger is not written.
pub fn decide(
    cli: &Cli,
    live_clients: &Vec<LiveClient>,
    active: &WorkspaceState,
    ledger: &AddressLedger,
) -> (ops: Vec<Operation>)
    ensures
        steps(ops@) == decision_of(
            kind_of_command(cli.cmd@),
            cli.identifier@,
            launch_line(kind_of_command(cli.cmd@), cli.cmd@, cli.identifier@, cli.args_view()),
            cli.background,
            snapshot(live_clients@),
            active@,
            ledger@,
        ),
{
    let rule = derive_rule(cli.kind(), cli.identifier.as_str());
    let command_line = cli.arrange_execution_cmd();
    match find_index(&rule, live_clients, ledger) {
        Some(i) => {
            let client = &live_clients[i];
            let place = classify(&client.workspace, active);
            let bound_rule = rule.bound_to(client);
            plan(place, &bound_rule, active.id, command_line.as_str(), cli.background)
        },
        None => plan(Placement::Absent, &rule, active.id, command_line.as_str(), cli.background),
    }
}

/// The handle that is to be kept after a launch: that of the first client
/// whose initial title is the token, for an application whose windows are
/// known by their handle alone.  Other applications have none to keep.
pub open spec fn discovered(kind: ApplicationKind, token: Seq<char>, clients: Seq<ClientView>) -> Option<
    Seq<char>,
> {
    if kind.strategy() == Strategy::OpaqueHandleBased {
        match first_index(clients, attribute_is(Attribute::InitialTitle, token)) {
            Some(i) => Some(clients[i].handle),
            None => None,
        }
    } else {
        None
    }
}

/// What became of the handle after a launch.
#[derive(Debug, PartialEq, Eq)]
pub enum Capture {
    /// The application's windows are found without a handle.
    NotNeeded,
    /// The new window was found and its handle recorded.
    Recorded(WindowHandle),
    /// The application needs a handle, but no new window showed the token
    /// as its initial title.  The launch itself stands.
    NoHandleDiscovered,
}

/// After a launch that succeeded: looks for the new window among the
/// clients as reported after the launch and records its handle under the
/// token.  Where the application needs no handle, or no window is found,
/// the ledger stays as it is.
pub fn capture_after_launch(
    kind: ApplicationKind,
    token: &str,
    clients_after: &Vec<LiveClient>,
    ledger: &mut AddressLedger,
) -> (outcome: Capture)
    ensures
        match discovered(kind, token@, snapshot(clients_after@)) {
            Some(handle) => final(ledger)@ == recorded(old(ledger)@, token@, handle) && (
            outcome matches Capture::Recorded(kept) && kept@ == handle),
            None => final(ledger)@ == old(ledger)@ && outcome == (if kind.strategy()
                == Strategy::OpaqueHandleBased {
                Capture::NoHandleDiscovered
            } else {
                Capture::NotNeeded
            }),
        },
{
    match kind.strategy() {
        Strategy::OpaqueHandleBased => {
            match first_with(clients_after, Attribute::InitialTitle, token) {
                Some(i) => {
                    let handle = clients_after[i].handle.clone();
                    ledger.record(token, &handle);
                    Capture::Recorded(handle)
                },
                None => Capture::NoHandleDiscovered,
            }
        },
        _ => Capture::NotNeeded,
    }
}

} // verus!
