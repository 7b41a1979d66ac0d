use hyprdrop::cli::{command_line, Cli};
use hyprdrop::kind::{ApplicationKind, Strategy};
use hyprdrop::rule::{accepted, derive_rule, pattern_accepts, pattern_for, MatchRule};
use hyprdrop::text::{characters, spread_arguments, text_of};

fn request(cmd: &str, identifier: &str, args: Option<&str>) -> Cli {
    Cli {
        cmd: cmd.to_string(),
        identifier: identifier.to_string(),
        cmd_args: args.map(|a| a.to_string()),
        background: false,
        debug: false,
    }
}

#[test]
fn command_names_map_to_kinds() {
    assert_eq!(ApplicationKind::from_command("alacritty"), ApplicationKind::Alacritty);
    assert_eq!(ApplicationKind::from_command("kitty"), ApplicationKind::Kitty);
    assert_eq!(ApplicationKind::from_command("wezterm"), ApplicationKind::Wezterm);
    assert_eq!(ApplicationKind::from_command("foot"), ApplicationKind::Foot);
    assert_eq!(ApplicationKind::from_command("gnome-terminal"), ApplicationKind::GnomeTerminal);
    assert_eq!(ApplicationKind::from_command("konsole"), ApplicationKind::Konsole);
    assert_eq!(ApplicationKind::from_command("firefox"), ApplicationKind::Other);
    assert_eq!(ApplicationKind::from_command("Kitty"), ApplicationKind::Other);
    assert_eq!(ApplicationKind::from_command(""), ApplicationKind::Other);
}

#[test]
fn kinds_map_to_strategies() {
    assert_eq!(ApplicationKind::Alacritty.strategy(), Strategy::ClassBased);
    assert_eq!(ApplicationKind::Kitty.strategy(), Strategy::ClassBased);
    assert_eq!(ApplicationKind::Wezterm.strategy(), Strategy::ClassBased);
    assert_eq!(ApplicationKind::Other.strategy(), Strategy::ClassBased);
    assert_eq!(ApplicationKind::Foot.strategy(), Strategy::TitleBased);
    assert_eq!(ApplicationKind::Konsole.strategy(), Strategy::TitleBased);
    assert_eq!(ApplicationKind::GnomeTerminal.strategy(), Strategy::OpaqueHandleBased);
}

#[test]
fn rules_follow_the_strategy() {
    assert_eq!(
        derive_rule(ApplicationKind::Alacritty, "foo"),
        MatchRule::ByClassPattern("^foo$".to_string())
    );
    assert_eq!(
        derive_rule(ApplicationKind::Other, "foo"),
        MatchRule::ByClassPattern("^foo$".to_string())
    );
    assert_eq!(
        derive_rule(ApplicationKind::Foot, "foo"),
        MatchRule::ByTitlePattern("^foo$".to_string())
    );
    assert_eq!(
        derive_rule(ApplicationKind::Konsole, "foo"),
        MatchRule::ByTitlePattern("foo \u{2014} Konsole".to_string())
    );
    assert_eq!(
        derive_rule(ApplicationKind::GnomeTerminal, "foo"),
        MatchRule::ByOpaqueHandle { key: "foo".to_string(), handle: None }
    );
}

#[test]
fn deriving_a_rule_twice_gives_the_same_rule() {
    let kinds = [
        ApplicationKind::Alacritty,
        ApplicationKind::Kitty,
        ApplicationKind::Wezterm,
        ApplicationKind::Foot,
        ApplicationKind::GnomeTerminal,
        ApplicationKind::Konsole,
        ApplicationKind::Other,
    ];
    for kind in kinds {
        assert_eq!(derive_rule(kind, "drop"), derive_rule(kind, "drop"));
        assert_ne!(derive_rule(kind, "drop"), derive_rule(kind, "other"));
    }
}

#[test]
fn patterns_by_kind() {
    assert_eq!(pattern_for(ApplicationKind::Kitty, "drop"), "^drop$");
    assert_eq!(pattern_for(ApplicationKind::Foot, ""), "^$");
    assert_eq!(pattern_for(ApplicationKind::Konsole, "drop"), "drop \u{2014} Konsole");
    assert_eq!(request("konsole", "drop", None).to_pattern_match(), "drop \u{2014} Konsole");
    assert_eq!(request("foot", "drop", None).to_pattern_match(), "^drop$");
    assert_eq!(request("gnome-terminal", "drop", None).to_pattern_match(), "^drop$");
    assert_eq!(request("anything", "a b", None).to_pattern_match(), "^a b$");
}

#[test]
fn command_lines_without_arguments() {
    assert_eq!(request("alacritty", "x", None).arrange_execution_cmd(), "alacritty --class=x");
    assert_eq!(request("kitty", "x", None).arrange_execution_cmd(), "kitty --class=x");
    assert_eq!(
        request("foot", "x", None).arrange_execution_cmd(),
        "foot --title=x --override locked-title=yes"
    );
    assert_eq!(request("wezterm", "x", None).arrange_execution_cmd(), "wezterm start --class=x");
    assert_eq!(
        request("gnome-terminal", "x", None).arrange_execution_cmd(),
        "gnome-terminal --title=x"
    );
    assert_eq!(request("konsole", "x", None).arrange_execution_cmd(), "konsole -p tabtitle=x");
    assert_eq!(request("firefox", "x", None).arrange_execution_cmd(), "firefox --class=x");
    assert_eq!(request("foo", "foo", None).arrange_execution_cmd(), "foo --class=foo");
}

#[test]
fn command_lines_with_arguments() {
    let args = Some("htop,-d,5");
    assert_eq!(
        request("alacritty", "x", args).arrange_execution_cmd(),
        "alacritty --class=x -e htop -d 5"
    );
    assert_eq!(request("kitty", "x", args).arrange_execution_cmd(), "kitty --class=x -e htop -d 5");
    assert_eq!(
        request("foot", "x", args).arrange_execution_cmd(),
        "foot --title=x --override locked-title=yes -e htop -d 5"
    );
    assert_eq!(
        request("wezterm", "x", args).arrange_execution_cmd(),
        "wezterm start --class=x -- htop -d 5"
    );
    assert_eq!(
        request("gnome-terminal", "x", args).arrange_execution_cmd(),
        "gnome-terminal --title=x -- htop -d 5"
    );
    assert_eq!(
        request("konsole", "x", args).arrange_execution_cmd(),
        "konsole -p tabtitle=x -e htop -d 5"
    );
    assert_eq!(
        request("firefox", "x", args).arrange_execution_cmd(),
        "firefox --class=x htop -d 5"
    );
}

#[test]
fn empty_arguments_count_as_none() {
    assert_eq!(request("kitty", "x", Some("")).arrange_execution_cmd(), "kitty --class=x");
    assert_eq!(request("firefox", "x", Some("")).arrange_execution_cmd(), "firefox --class=x");
    assert_eq!(command_line(ApplicationKind::Wezterm, "wezterm", "x", Some("")), "wezterm start --class=x");
}

#[test]
fn the_kind_decides_the_template_not_the_command_text() {
    assert_eq!(command_line(ApplicationKind::Kitty, "foo", "foo", None), "foo --class=foo");
    assert_eq!(command_line(ApplicationKind::Other, "foo", "foo", None), "foo --class=foo");
    assert_eq!(
        command_line(ApplicationKind::Other, "kitty", "foo", Some("a")),
        "kitty --class=foo a"
    );
    assert_eq!(
        command_line(ApplicationKind::Foot, "kitty", "foo", None),
        "kitty --title=foo --override locked-title=yes"
    );
}

#[test]
fn commas_become_spaces() {
    assert_eq!(spread_arguments(""), "");
    assert_eq!(spread_arguments("a"), "a");
    assert_eq!(spread_arguments("a,b"), "a b");
    assert_eq!(spread_arguments(",a,,b,"), " a  b ");
    assert_eq!(spread_arguments("a b,c"), "a b c");
}

#[test]
fn characters_and_back() {
    let chars = characters("a\u{2014}b");
    assert_eq!(chars, vec!['a', '\u{2014}', 'b']);
    assert_eq!(text_of(&chars, 0, 3), "a\u{2014}b");
    assert_eq!(text_of(&chars, 1, 2), "\u{2014}");
    assert_eq!(text_of(&chars, 2, 2), "");
}

#[test]
fn what_a_pattern_accepts() {
    assert_eq!(accepted("^foo$"), "foo");
    assert_eq!(accepted("^$"), "");
    assert_eq!(accepted("foo"), "foo");
    assert_eq!(accepted("^foo"), "^foo");
    assert_eq!(accepted("foo$"), "foo$");
    assert_eq!(accepted("^"), "^");
    assert_eq!(accepted("$"), "$");
    assert_eq!(accepted(""), "");
    assert_eq!(accepted("^^a$$"), "^a$");
    assert!(pattern_accepts("^foo$", "foo"));
    assert!(!pattern_accepts("^foo$", "foobar"));
    assert!(!pattern_accepts("^foo$", "^foo$"));
    assert!(!pattern_accepts("^foo$", "Foo"));
    assert!(pattern_accepts("foo \u{2014} Konsole", "foo \u{2014} Konsole"));
    assert!(!pattern_accepts("foo \u{2014} Konsole", "foo"));
}
