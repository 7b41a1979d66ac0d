//! The rule by which a request's window is recognised, and what a pattern
//! accepts.

use vstd::prelude::*;
use vstd::string::*;
use crate::client::WindowHandle;
use crate::kind::{ApplicationKind, Strategy};
use crate::text::{characters, same_text, text_of};

verus! {

/// A rule as plain values.
pub enum RuleView {
    ByClassPattern(Seq<char>),
    ByTitlePattern(Seq<char>),
    ByOpaqueHandle { key: Seq<char>, handle: Option<Seq<char>> },
}

/// How the window of a request is recognised.
#[derive(Debug, PartialEq, Eq)]
pub enum MatchRule {
    /// The window's class satisfies the pattern.
    ByClassPattern(String),
    /// The window's title satisfies the pattern.
    ByTitlePattern(String),
    /// The window is known by its handle alone.  `key` is the token under
    /// which the handle is kept between invocations; `handle` is the handle
    /// itself once a live window has been found for the key.
    ByOpaqueHandle { key: String, handle: Option<WindowHandle> },
}

impl View for MatchRule {
    type V = RuleView;

    open spec fn view(&self) -> RuleView {
        match self {
            MatchRule::ByClassPattern(pattern) => RuleView::ByClassPattern(pattern@),
            MatchRule::ByTitlePattern(pattern) => RuleView::ByTitlePattern(pattern@),
            MatchRule::ByOpaqueHandle { key, handle } => RuleView::ByOpaqueHandle {
                key: key@,
                handle: match handle {
                    Some(h) => Some(h@),
                    None => None,
                },
            },
        }
    }
}

impl Clone for MatchRule {
    fn clone(&self) -> (copy: Self)
        ensures
            copy == *self,
    {
        match self {
            MatchRule::ByClassPattern(pattern) => MatchRule::ByClassPattern(pattern.clone()),
            MatchRule::ByTitlePattern(pattern) => MatchRule::ByTitlePattern(pattern.clone()),
            MatchRule::ByOpaqueHandle { key, handle } => MatchRule::ByOpaqueHandle {
                key: key.clone(),
                handle: match handle {
                    Some(h) => Some(h.clone()),
                    None => None,
                },
            },
        }
    }
}

/// A pattern that accepts exactly `token`: the token between `^` and `$`.
pub open spec fn anchored(token: Seq<char>) -> Seq<char> {
    seq!['^'] + token + seq!['$']
}

/// The title that Konsole gives a window whose tab title is `token`.
pub open spec fn konsole_title(token: Seq<char>) -> Seq<char> {
    token + " \u{2014} Konsole"@
}

/// The pattern by which the compositor is told which window is meant.
pub open spec fn pattern_of(kind: ApplicationKind, token: Seq<char>) -> Seq<char> {
    match kind {
        ApplicationKind::Konsole => konsole_title(token),
        _ => anchored(token),
    }
}

/// Builds the pattern for a window of an application of the given kind.
pub fn pattern_for(kind: ApplicationKind, token: &str) -> (pattern: String)
    ensures
        pattern@ == pattern_of(kind, token@),
{
    match kind {
        ApplicationKind::Konsole => {
            let mut pattern = String::from_str(token);
            pattern.append(" \u{2014} Konsole");
            pattern
        },
        _ => {
            let mut pattern = String::new();
            pattern.push('^');
            pattern.append(token);
            pattern.push('$');
            assert(pattern@ == anchored(token@));
            pattern
        },
    }
}

/// The rule for a window of the given application that was named `token`.
pub open spec fn rule_of(kind: ApplicationKind, token: Seq<char>) -> RuleView {
    match kind.strategy() {
        Strategy::ClassBased => RuleView::ByClassPattern(pattern_of(kind, token)),
        Strategy::TitleBased => RuleView::ByTitlePattern(pattern_of(kind, token)),
        Strategy::OpaqueHandleBased => RuleView::ByOpaqueHandle { key: token, handle: None },
    }
}

/// Derives the rule from the application and the token.  The rule depends on
/// these two alone.
pub fn derive_rule(kind: ApplicationKind, token: &str) -> (rule: MatchRule)
    ensures
        rule@ == rule_of(kind, token@),
{
    match kind.strategy() {
        Strategy::ClassBased => MatchRule::ByClassPattern(pattern_for(kind, token)),
        Strategy::TitleBased => MatchRule::ByTitlePattern(pattern_for(kind, token)),
        Strategy::OpaqueHandleBased => MatchRule::ByOpaqueHandle {
            key: String::from_str(token),
            handle: None,
        },
    }
}

/// Whether the pattern is a text between `^` and `$`.
pub open spec fn is_anchored(pattern: Seq<char>) -> bool {
    pattern.len() >= 2 && pattern.first() == '^' && pattern.last() == '$'
}

/// The one text that a pattern accepts: what stands between the anchors of
/// an anchored pattern, and any other pattern itself, letter for letter.
pub open spec fn accepted_text(pattern: Seq<char>) -> Seq<char> {
    if is_anchored(pattern) {
        pattern.subrange(1, pattern.len() - 1)
    } else {
        pattern
    }
}

/// Whether `text` satisfies `pattern`.
pub open spec fn accepts(pattern: Seq<char>, text: Seq<char>) -> bool {
    text == accepted_text(pattern)
}

/// Computes the one text that the pattern accepts.
pub fn accepted(pattern: &str) -> (text: String)
    ensures
        text@ == accepted_text(pattern@),
{
    let chars = characters(pattern);
    let n = chars.len();
    if n >= 2 && chars[0] == '^' && chars[n - 1] == '$' {
        text_of(&chars, 1, n - 1)
    } else {
        assert(chars@.subrange(0, n as int) == chars@);
        text_of(&chars, 0, n)
    }
}

/// Whether `text` satisfies `pattern`.
pub fn pattern_accepts(pattern: &str, text: &str) -> (yes: bool)
    ensures
        yes == accepts(pattern@, text@),
{
    let wanted = accepted(pattern);
    same_text(text, wanted.as_str())
}

/// An anchored token accepts the token and nothing else.
pub proof fn anchored_accepts_exactly(token: Seq<char>, text: Seq<char>)
    ensures
        accepts(anchored(token), text) <==> text == token,
{
    let p = anchored(token);
    assert(p.len() == token.len() + 2);
    assert(p.first() == '^');
    assert(p.last() == '$');
    assert(p.subrange(1, p.len() - 1) =~= token);
}

/// What the pattern of an application accepts: for Konsole the title that
/// Konsole makes of the token, and for every other application the token
/// itself.
pub proof fn derived_pattern_accepts(kind: ApplicationKind, token: Seq<char>, text: Seq<char>)
    ensures
        accepts(pattern_of(kind, token), text) <==> text == (if kind == ApplicationKind::Konsole {
            konsole_title(token)
        } else {
            token
        }),
{
    if kind == ApplicationKind::Konsole {
        reveal_strlit(" \u{2014} Konsole");
        let suffix = " \u{2014} Konsole"@;
        assert(suffix.len() == 10);
        assert(suffix[9] == 'e');
        assert(konsole_title(token).last() == suffix[9]);
    } else {
        anchored_accepts_exactly(token, text);
    }
}

} // verus!
