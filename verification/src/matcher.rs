//! Finding the window of a request among the compositor's clients.

use vstd::prelude::*;
use vstd::string::*;
use crate::client::{is_live, snapshot, ClientView, LiveClient, WindowHandle};
use crate::ledger::{handle_for, lookup_of, AddressLedger, EntryView};
use crate::rule::{accepted, accepted_text, MatchRule, RuleView};
use crate::search::{first_index, first_index_found, first_index_missing, first_index_sound};
use crate::text::same_text;

verus! {

/// The attributes of a client by which it can be recognised.
#[derive(Clone, Copy, Debug, PartialEq, Eq, Structural)]
pub enum Attribute {
    Class,
    Title,
    InitialTitle,
    Handle,
}

/// The text of the attribute on the client.
pub open spec fn attribute_of(client: ClientView, attribute: Attribute) -> Seq<char> {
    match attribute {
        Attribute::Class => client.class,
        Attribute::Title => client.title,
        Attribute::InitialTitle => client.initial_title,
        Attribute::Handle => client.handle,
    }
}

/// The property of a client that its attribute is `text`.
pub open spec fn attribute_is(attribute: Attribute, text: Seq<char>) -> spec_fn(ClientView) -> bool {
    |client: ClientView| attribute_of(client, attribute) == text
}

/// The position of the client that the rule picks: the first one whose class
/// or title satisfies the pattern; for a rule by handle, the first one that
/// bears the handle which the ledger keeps for the key and a live window
/// still has, and without such a handle the first one whose initial title is
/// the key.
pub open spec fn found_at(rule: RuleView, clients: Seq<ClientView>, ledger: Seq<EntryView>) -> Option<
    int,
> {
    match rule {
        RuleView::ByClassPattern(pattern) => first_index(
            clients,
            attribute_is(Attribute::Class, accepted_text(pattern)),
        ),
        RuleView::ByTitlePattern(pattern) => first_index(
            clients,
            attribute_is(Attribute::Title, accepted_text(pattern)),
        ),
        RuleView::ByOpaqueHandle { key, .. } => match lookup_of(ledger, key, clients) {
            Some(handle) => first_index(clients, attribute_is(Attribute::Handle, handle)),
            None => first_index(clients, attribute_is(Attribute::InitialTitle, key)),
        },
    }
}

/// The rule once it is known which handle its window has.  Only a rule by
/// handle takes the handle up; a rule by pattern stays as it is.
pub open spec fn bound(rule: RuleView, handle: Seq<char>) -> RuleView {
    match rule {
        RuleView::ByOpaqueHandle { key, .. } => RuleView::ByOpaqueHandle {
            key,
            handle: Some(handle),
        },
        _ => rule,
    }
}

/// The position of the first client whose attribute is `text`.
pub fn first_with(clients: &Vec<LiveClient>, attribute: Attribute, text: &str) -> (at: Option<usize>)
    ensures
        match at {
            Some(i) => i < clients.len() && first_index(
                snapshot(clients@),
                attribute_is(attribute, text@),
            ) == Some(i as int),
            None => first_index(snapshot(clients@), attribute_is(attribute, text@)) is None,
        },
{
    let ghost views = snapshot(clients@);
    let ghost wanted = attribute_is(attribute, text@);
    let mut i: usize = 0;
    while i < clients.len()
        invariant
            i <= clients.len(),
            views == snapshot(clients@),
            wanted == attribute_is(attribute, text@),
            forall|j: int| 0 <= j < i ==> !#[trigger] wanted(views[j]),
        decreases clients.len() - i,
    {
        let client = &clients[i];
        let here = match attribute {
            Attribute::Class => client.class.as_str(),
            Attribute::Title => client.title.as_str(),
            Attribute::InitialTitle => client.initial_title.as_str(),
            Attribute::Handle => client.handle.address.as_str(),
        };
        assert(here@ == attribute_of(views[i as int], attribute));
        if same_text(here, text) {
            proof {
                assert(wanted(views[i as int]));
                first_index_found(views, wanted, i as int);
            }
            return Some(i);
        }
        i += 1;
    }
    proof {
        first_index_missing(views, wanted);
    }
    None
}

/// The position of the client that the rule picks among `live_clients`.
pub fn find_index(rule: &MatchRule, live_clients: &Vec<LiveClient>, ledger: &AddressLedger) -> (at:
    Option<usize>)
    ensures
        match at {
            Some(i) => i < live_clients.len() && found_at(rule@, snapshot(live_clients@), ledger@)
                == Some(i as int),
            None => found_at(rule@, snapshot(live_clients@), ledger@) is None,
        },
{
    match rule {
        MatchRule::ByClassPattern(pattern) => {
            let wanted = accepted(pattern.as_str());
            first_with(live_clients, Attribute::Class, wanted.as_str())
        },
        MatchRule::ByTitlePattern(pattern) => {
            let wanted = accepted(pattern.as_str());
            first_with(live_clients, Attribute::Title, wanted.as_str())
        },
        MatchRule::ByOpaqueHandle { key, .. } => {
            match ledger.lookup(key.as_str(), live_clients) {
                Some(handle) => first_with(
                    live_clients,
                    Attribute::Handle,
                    handle.address.as_str(),
                ),
                None => first_with(live_clients, Attribute::InitialTitle, key.as_str()),
            }
        },
    }
}

/// The client that the rule picks among `live_clients`, if it picks any.
/// Nothing is written to the ledger.
pub fn find(rule: &MatchRule, live_clients: &Vec<LiveClient>, ledger: &AddressLedger) -> (found:
    Option<LiveClient>)
    ensures
        match found_at(rule@, snapshot(live_clients@), ledger@) {
            Some(i) => 0 <= i < live_clients.len() && found == Some(live_clients@[i]),
            None => found is None,
        },
{
    match find_index(rule, live_clients, ledger) {
        Some(i) => Some(live_clients[i].clone()),
        None => None,
    }
}

impl MatchRule {
    /// The rule for the same window once the window is known: a rule by
    /// handle takes up the client's handle.
    pub fn bound_to(&self, client: &LiveClient) -> (rule: MatchRule)
        ensures
            rule@ == bound(self@, client@.handle),
    {
        match self {
            MatchRule::ByOpaqueHandle { key, .. } => MatchRule::ByOpaqueHandle {
                key: key.clone(),
                handle: Some(client.handle.clone()),
            },
            _ => self.clone(),
        }
    }

    /// The handle of the rule's window, where the rule holds one.
    pub fn handle(&self) -> (handle: Option<WindowHandle>)
        ensures
            match handle {
                Some(h) => self@ matches RuleView::ByOpaqueHandle { handle: Some(held), .. }
                    && h@ == held,
                None => !(self@ matches RuleView::ByOpaqueHandle { handle: Some(_), .. }),
            },
    {
        match self {
            MatchRule::ByOpaqueHandle { handle: Some(h), .. } => Some(h.clone()),
            _ => None,
        }
    }
}

/// Whatever the rule, nothing is found where there are no clients.
pub proof fn nothing_found_among_none(rule: RuleView, ledger: Seq<EntryView>)
    ensures
        found_at(rule, Seq::<ClientView>::empty(), ledger) is None,
{
    let none = Seq::<ClientView>::empty();
    match rule {
        RuleView::ByClassPattern(pattern) => {
            first_index_missing(none, attribute_is(Attribute::Class, accepted_text(pattern)));
        },
        RuleView::ByTitlePattern(pattern) => {
            first_index_missing(none, attribute_is(Attribute::Title, accepted_text(pattern)));
        },
        RuleView::ByOpaqueHandle { key, .. } => {
            assert(!exists|h: Seq<char>| is_live(none, h));
            first_index_missing(none, attribute_is(Attribute::InitialTitle, key));
        },
    }
}

/// What is found is one of the clients, so its handle is live.
pub proof fn found_is_live(rule: RuleView, clients: Seq<ClientView>, ledger: Seq<EntryView>)
    ensures
        match found_at(rule, clients, ledger) {
            Some(i) => 0 <= i < clients.len() && is_live(clients, clients[i].handle),
            None => true,
        },
{
    match rule {
        RuleView::ByClassPattern(pattern) => {
            first_index_sound(clients, attribute_is(Attribute::Class, accepted_text(pattern)));
        },
        RuleView::ByTitlePattern(pattern) => {
            first_index_sound(clients, attribute_is(Attribute::Title, accepted_text(pattern)));
        },
        RuleView::ByOpaqueHandle { key, .. } => {
            match lookup_of(ledger, key, clients) {
                Some(handle) => {
                    first_index_sound(clients, attribute_is(Attribute::Handle, handle));
                },
                None => {
                    first_index_sound(clients, attribute_is(Attribute::InitialTitle, key));
                },
            }
        },
    }
}

/// A handle that the ledger keeps but no live window bears is never looked
/// up, and a rule by handle then finds what it would find with no row for
/// its key: the first client whose initial title is the key.
pub proof fn stale_handle_is_ignored(
    ledger: Seq<EntryView>,
    key: Seq<char>,
    held: Option<Seq<char>>,
    clients: Seq<ClientView>,
)
    requires
        handle_for(ledger, key) matches Some(handle) && !is_live(clients, handle),
    ensures
        lookup_of(ledger, key, clients) is None,
        found_at(RuleView::ByOpaqueHandle { key, handle: held }, clients, ledger) == first_index(
            clients,
            attribute_is(Attribute::InitialTitle, key),
        ),
{
}

} // verus!
