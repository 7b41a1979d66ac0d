use hyprdrop::cli::Cli;
use hyprdrop::client::{LiveClient, WindowHandle, WorkspaceState};
use hyprdrop::kind::{ApplicationKind, Strategy};
use hyprdrop::ledger::AddressLedger;
use hyprdrop::matcher::find;
use hyprdrop::planner::{classify, plan, Operation, Placement, WorkspaceTarget};
use hyprdrop::rule::{derive_rule, MatchRule};
use hyprdrop::toggle::decide;

fn client(handle: &str, class: &str, title: &str, initial: &str, id: i32, ws: &str) -> LiveClient {
    LiveClient {
        handle: WindowHandle::new(handle),
        class: class.to_string(),
        title: title.to_string(),
        initial_title: initial.to_string(),
        workspace: WorkspaceState::new(id, ws),
    }
}

fn request(cmd: &str, identifier: &str) -> Cli {
    Cli {
        cmd: cmd.to_string(),
        identifier: identifier.to_string(),
        cmd_args: None,
        background: false,
        debug: false,
    }
}

#[test]
fn scenario_absent_window_is_launched() {
    let cli = request("foo", "foo");
    let kind = cli.kind();
    assert_eq!(kind, ApplicationKind::Other);
    assert_eq!(kind.strategy(), Strategy::ClassBased);
    let rule = derive_rule(kind, "foo");
    assert_eq!(rule, MatchRule::ByClassPattern("^foo$".to_string()));
    let clients = vec![client("0x1", "bar", "foo", "foo", 1, "1"), client("0x2", "foobar", "", "", 1, "1")];
    let ledger = AddressLedger::new();
    assert_eq!(find(&rule, &clients, &ledger), None);
    assert_eq!(cli.arrange_execution_cmd(), "foo --class=foo");
    let launch =
        vec![Operation::Launch { command_line: "foo --class=foo".to_string(), background: false }];
    assert_eq!(decide(&cli, &clients, &WorkspaceState::new(1, "1"), &ledger), launch);
    assert_eq!(decide(&cli, &Vec::new(), &WorkspaceState::new(1, "1"), &ledger), launch);
    assert_eq!(plan(Placement::Absent, &rule, 1, "foo --class=foo", false), launch);
}

#[test]
fn scenario_window_in_active_workspace_is_hidden() {
    let rule = derive_rule(ApplicationKind::Kitty, "foo");
    let clients = vec![client("0x1", "foo", "t", "t", 3, "3")];
    let active = WorkspaceState::new(3, "3");
    let ledger = AddressLedger::new();
    let found = find(&rule, &clients, &ledger).unwrap();
    let place = classify(&found.workspace, &active);
    assert_eq!(place, Placement::ActiveHere);
    let ops = plan(place, &rule, active.id, "kitty --class=foo", false);
    assert_eq!(ops, vec![Operation::MoveToWorkspaceSilent(WorkspaceTarget::Special, rule.clone())]);
}

#[test]
fn scenario_window_elsewhere_hops_through_special() {
    let rule = derive_rule(ApplicationKind::Kitty, "foo");
    let clients = vec![client("0x1", "foo", "t", "t", 2, "2")];
    let active = WorkspaceState::new(5, "5");
    let ledger = AddressLedger::new();
    let found = find(&rule, &clients, &ledger).unwrap();
    let place = classify(&found.workspace, &active);
    assert_eq!(place, Placement::Elsewhere);
    let ops = plan(place, &rule, active.id, "kitty --class=foo", false);
    assert_eq!(
        ops,
        vec![
            Operation::MoveToWorkspaceSilent(WorkspaceTarget::Special, rule.clone()),
            Operation::MoveToWorkspace(WorkspaceTarget::Id(5), rule.clone()),
            Operation::BringActiveToTop,
        ]
    );
}

#[test]
fn scenario_hidden_window_is_shown_without_first_hop() {
    let rule = derive_rule(ApplicationKind::Kitty, "foo");
    let clients = vec![client("0x1", "foo", "t", "t", -98, "hyprdrop")];
    let active = WorkspaceState::new(5, "5");
    let ledger = AddressLedger::new();
    let found = find(&rule, &clients, &ledger).unwrap();
    let place = classify(&found.workspace, &active);
    assert_eq!(place, Placement::Hidden);
    let ops = plan(place, &rule, active.id, "kitty --class=foo", false);
    assert_eq!(
        ops,
        vec![
            Operation::MoveToWorkspace(WorkspaceTarget::Id(5), rule.clone()),
            Operation::BringActiveToTop,
        ]
    );
}

#[test]
fn decide_launches_when_nothing_matches() {
    let cli = request("alacritty", "foo");
    let clients = vec![client("0x1", "bar", "foo", "foo", 1, "1")];
    let ops = decide(&cli, &clients, &WorkspaceState::new(1, "1"), &AddressLedger::new());
    assert_eq!(
        ops,
        vec![Operation::Launch {
            command_line: "alacritty --class=foo".to_string(),
            background: false
        }]
    );
}

#[test]
fn decide_passes_the_background_flag_on() {
    let mut cli = request("foot", "drop");
    cli.background = true;
    cli.cmd_args = Some("htop,-d,5".to_string());
    let ops = decide(&cli, &Vec::new(), &WorkspaceState::new(1, "1"), &AddressLedger::new());
    assert_eq!(
        ops,
        vec![Operation::Launch {
            command_line: "foot --title=drop --override locked-title=yes -e htop -d 5".to_string(),
            background: true
        }]
    );
}

#[test]
fn decide_toggles_a_class_based_window() {
    let cli = request("kitty", "foo");
    let rule = MatchRule::ByClassPattern("^foo$".to_string());
    let active = WorkspaceState::new(5, "5");
    let ledger = AddressLedger::new();

    let here = vec![client("0x1", "other", "", "", 5, "5"), client("0x2", "foo", "", "", 5, "5")];
    assert_eq!(
        decide(&cli, &here, &active, &ledger),
        vec![Operation::MoveToWorkspaceSilent(WorkspaceTarget::Special, rule.clone())]
    );

    let away = vec![client("0x2", "foo", "", "", 2, "2")];
    assert_eq!(
        decide(&cli, &away, &active, &ledger),
        vec![
            Operation::MoveToWorkspaceSilent(WorkspaceTarget::Special, rule.clone()),
            Operation::MoveToWorkspace(WorkspaceTarget::Id(5), rule.clone()),
            Operation::BringActiveToTop,
        ]
    );

    let hidden = vec![client("0x2", "foo", "", "", -98, "hyprdrop")];
    assert_eq!(
        decide(&cli, &hidden, &active, &ledger),
        vec![
            Operation::MoveToWorkspace(WorkspaceTarget::Id(5), rule.clone()),
            Operation::BringActiveToTop,
        ]
    );
}

#[test]
fn decide_binds_the_handle_for_an_opaque_application() {
    let cli = request("gnome-terminal", "drop");
    let active = WorkspaceState::new(5, "5");
    let clients = vec![
        client("0xaaa", "gnome-terminal-server", "user@host: ~", "other", 5, "5"),
        client("0xbbb", "gnome-terminal-server", "user@host: ~", "drop", 5, "5"),
    ];
    let bound = MatchRule::ByOpaqueHandle {
        key: "drop".to_string(),
        handle: Some(WindowHandle::new("0xbbb")),
    };
    assert_eq!(
        decide(&cli, &clients, &active, &AddressLedger::new()),
        vec![Operation::MoveToWorkspaceSilent(WorkspaceTarget::Special, bound.clone())]
    );
    assert_eq!(bound.handle(), Some(WindowHandle::new("0xbbb")));
}

#[test]
fn decide_prefers_the_ledger_over_the_initial_title() {
    let cli = request("gnome-terminal", "drop");
    let active = WorkspaceState::new(5, "5");
    let clients = vec![
        client("0xaaa", "gnome-terminal-server", "a", "drop", 5, "5"),
        client("0xbbb", "gnome-terminal-server", "b", "renamed", 2, "2"),
    ];
    let mut ledger = AddressLedger::new();
    ledger.record("drop", &WindowHandle::new("0xbbb"));
    let bound = MatchRule::ByOpaqueHandle {
        key: "drop".to_string(),
        handle: Some(WindowHandle::new("0xbbb")),
    };
    assert_eq!(
        decide(&cli, &clients, &active, &ledger),
        vec![
            Operation::MoveToWorkspaceSilent(WorkspaceTarget::Special, bound.clone()),
            Operation::MoveToWorkspace(WorkspaceTarget::Id(5), bound.clone()),
            Operation::BringActiveToTop,
        ]
    );
}
