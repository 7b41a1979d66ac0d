//! The ledger of window handles: which handle was last seen for which key.
//!
//! Some applications give their windows no class or title that can be chosen
//! in advance.  Their windows are found again by the handle the compositor
//! gave them, kept here under the token of the request.  A handle is only
//! believed while a live window still bears it.

use vstd::prelude::*;
use vstd::string::*;
use crate::client::{handle_is_live, is_live, snapshot, ClientView, LiveClient, WindowHandle};
use crate::search::{first_index, first_index_found, first_index_missing, first_index_sound};
use crate::text::{characters, reach, same_text, seek, text_of};

verus! {

/// A row of the ledger as plain values.
pub struct EntryView {
    pub key: Seq<char>,
    pub handle: Seq<char>,
}

/// A row of the ledger: the handle last seen for a key.
#[derive(Debug, PartialEq, Eq)]
pub struct LedgerEntry {
    pub rule_key: String,
    pub handle: WindowHandle,
}

impl View for LedgerEntry {
    type V = EntryView;

    open spec fn view(&self) -> EntryView {
        EntryView { key: self.rule_key@, handle: self.handle@ }
    }
}

impl Clone for LedgerEntry {
    fn clone(&self) -> (copy: Self)
        ensures
            copy == *self,
    {
        LedgerEntry { rule_key: self.rule_key.clone(), handle: self.handle.clone() }
    }
}

/// Whether no two rows have the same key.
pub open spec fn distinct_keys(rows: Seq<EntryView>) -> bool {
    forall|i: int, j: int|
        0 <= i < rows.len() && 0 <= j < rows.len() && i != j ==> (#[trigger] rows[i]).key != (
        #[trigger] rows[j]).key
}

/// The property of a row to be the one for `key`.
pub open spec fn has_key(key: Seq<char>) -> spec_fn(EntryView) -> bool {
    |e: EntryView| e.key == key
}

/// The position of the row for `key`, if there is one.
pub open spec fn position_of(rows: Seq<EntryView>, key: Seq<char>) -> Option<int> {
    first_index(rows, has_key(key))
}

/// The handle kept for `key`, if there is one.
pub open spec fn handle_for(rows: Seq<EntryView>, key: Seq<char>) -> Option<Seq<char>> {
    match position_of(rows, key) {
        Some(i) => Some(rows[i].handle),
        None => None,
    }
}

/// The rows after `handle` was recorded for `key`: the row for `key` now
/// holds `handle` and stays where it was; without such a row, a new one is
/// added at the end.
pub open spec fn recorded(rows: Seq<EntryView>, key: Seq<char>, handle: Seq<char>) -> Seq<
    EntryView,
> {
    match position_of(rows, key) {
        Some(i) => rows.update(i, EntryView { key, handle }),
        None => rows.push(EntryView { key, handle }),
    }
}

/// The handle kept for `key`, provided a live window bears it.
pub open spec fn lookup_of(rows: Seq<EntryView>, key: Seq<char>, clients: Seq<ClientView>) -> Option<
    Seq<char>,
> {
    match handle_for(rows, key) {
        Some(handle) if is_live(clients, handle) => Some(handle),
        _ => None,
    }
}

/// Recording never gives two rows the same key.
pub proof fn recording_keeps_keys_distinct(rows: Seq<EntryView>, key: Seq<char>, handle: Seq<char>)
    requires
        distinct_keys(rows),
    ensures
        distinct_keys(recorded(rows, key, handle)),
{
    first_index_sound(rows, has_key(key));
    let after = recorded(rows, key, handle);
    match position_of(rows, key) {
        Some(at) => {
            assert forall|i: int, j: int|
                0 <= i < after.len() && 0 <= j < after.len() && i != j implies (
            #[trigger] after[i]).key != (#[trigger] after[j]).key by {
                assert(after[i].key == rows[i].key);
                assert(after[j].key == rows[j].key);
            }
        },
        None => {
            assert forall|i: int, j: int|
                0 <= i < after.len() && 0 <= j < after.len() && i != j implies (
            #[trigger] after[i]).key != (#[trigger] after[j]).key by {
                if i < rows.len() && j < rows.len() {
                    assert(after[i].key == rows[i].key);
                    assert(after[j].key == rows[j].key);
                } else if i < rows.len() {
                    assert(!has_key(key)(rows[i]));
                } else {
                    assert(!has_key(key)(rows[j]));
                }
            }
        },
    }
}

/// After a handle was recorded for a key, it is the handle kept for that key.
pub proof fn recorded_handle_is_kept(rows: Seq<EntryView>, key: Seq<char>, handle: Seq<char>)
    ensures
        handle_for(recorded(rows, key, handle), key) == Some(handle),
{
    first_index_sound(rows, has_key(key));
    let after = recorded(rows, key, handle);
    let at = match position_of(rows, key) {
        Some(i) => i,
        None => rows.len() as int,
    };
    assert(has_key(key)(after[at]));
    assert forall|j: int| 0 <= j < at implies !#[trigger] has_key(key)(after[j]) by {
        assert(after[j] == rows[j]);
        assert(!has_key(key)(rows[j]));
    }
    first_index_found(after, has_key(key), at);
}

/// A handle that was just recorded is looked up again under the same key
/// whenever a live window bears it.
pub proof fn lookup_after_record(
    rows: Seq<EntryView>,
    key: Seq<char>,
    handle: Seq<char>,
    clients: Seq<ClientView>,
)
    requires
        is_live(clients, handle),
    ensures
        lookup_of(recorded(rows, key, handle), key, clients) == Some(handle),
{
    recorded_handle_is_kept(rows, key, handle);
}

/// Recording a handle for one key leaves what is kept for every other key.
pub proof fn recording_leaves_other_keys(
    rows: Seq<EntryView>,
    key: Seq<char>,
    handle: Seq<char>,
    other: Seq<char>,
)
    requires
        other != key,
    ensures
        handle_for(recorded(rows, key, handle), other) == handle_for(rows, other),
{
    first_index_sound(rows, has_key(key));
    first_index_sound(rows, has_key(other));
    let after = recorded(rows, key, handle);
    assert forall|j: int| 0 <= j < rows.len() implies has_key(other)(#[trigger] after[j])
        == has_key(other)(rows[j]) by {}
    match position_of(rows, other) {
        Some(i) => {
            assert(has_key(other)(after[i]));
            assert forall|j: int| 0 <= j < i implies !#[trigger] has_key(other)(after[j]) by {
                assert(!has_key(other)(rows[j]));
            }
            first_index_found(after, has_key(other), i);
            assert(after[i].handle == rows[i].handle);
        },
        None => {
            assert forall|j: int| 0 <= j < after.len() implies !#[trigger] has_key(other)(
                after[j],
            ) by {
                if j < rows.len() {
                    assert(!has_key(other)(rows[j]));
                }
            }
            first_index_missing(after, has_key(other));
        },
    }
}

/// What parts key and handle in a line of the ledger's text.
pub const DELIMITER: char = '\t';

/// The row that a line of text stands for.  A line is a key, the delimiter
/// and a handle; the key ends at the first delimiter, and neither key nor
/// handle is empty.  Any other line stands for nothing.
pub open spec fn entry_of(line: Seq<char>) -> Option<EntryView> {
    let cut = reach(line, DELIMITER);
    if 0 < cut && cut + 1 < line.len() {
        Some(EntryView { key: line.take(cut), handle: line.skip(cut + 1) })
    } else {
        None
    }
}

/// The rows after a line was read: its row is recorded, and a line that
/// stands for no row is passed over.
pub open spec fn absorb_line(rows: Seq<EntryView>, line: Seq<char>) -> Seq<EntryView> {
    match entry_of(line) {
        Some(e) => recorded(rows, e.key, e.handle),
        None => rows,
    }
}

/// The rows after a text was read line by line, from the first line to the
/// last.  Lines end at a line feed.
pub open spec fn absorb(rows: Seq<EntryView>, text: Seq<char>) -> Seq<EntryView>
    decreases text.len(),
{
    let end = reach(text, '\n');
    let next = absorb_line(rows, text.take(end));
    if 0 <= end < text.len() {
        absorb(next, text.skip(end + 1))
    } else {
        next
    }
}

/// The rows that a ledger's text stands for.
pub open spec fn parsed(text: Seq<char>) -> Seq<EntryView> {
    absorb(Seq::empty(), text)
}

/// The line that is written for a row.
pub open spec fn line_of(e: EntryView) -> Seq<char> {
    e.key + seq![DELIMITER] + e.handle + seq!['\n']
}

/// The text that is written for the rows: one line each, in order.
pub open spec fn rendered(rows: Seq<EntryView>) -> Seq<char>
    decreases rows.len(),
{
    if rows.len() == 0 {
        Seq::empty()
    } else {
        rendered(rows.drop_last()) + line_of(rows.last())
    }
}

/// The rows as plain values.
pub open spec fn rows_view(rows: Seq<LedgerEntry>) -> Seq<EntryView> {
    rows.map_values(|e: LedgerEntry| e@)
}

/// The ledger.  No two of its rows have the same key.
pub struct AddressLedger {
    entries: Vec<LedgerEntry>,
}

impl View for AddressLedger {
    type V = Seq<EntryView>;

    closed spec fn view(&self) -> Seq<EntryView> {
        rows_view(self.entries@)
    }
}

impl AddressLedger {
    #[verifier::type_invariant]
    spec fn keys_differ(self) -> bool {
        distinct_keys(rows_view(self.entries@))
    }

    /// A ledger without rows.
    pub fn new() -> (ledger: Self)
        ensures
            ledger@ == Seq::<EntryView>::empty(),
    {
        AddressLedger { entries: Vec::new() }
    }

    /// The number of rows.  In every ledger the keys differ from row to row.
    pub fn len(&self) -> (n: usize)
        ensures
            n == self@.len(),
            distinct_keys(self@),
    {
        proof {
            use_type_invariant(self);
        }
        self.entries.len()
    }

    /// The rows in order.
    pub fn rows(&self) -> (rows: Vec<LedgerEntry>)
        ensures
            rows_view(rows@) == self@,
    {
        let mut rows: Vec<LedgerEntry> = Vec::new();
        let mut i: usize = 0;
        while i < self.entries.len()
            invariant
                i <= self.entries.len(),
                rows@ == self.entries@.take(i as int),
            decreases self.entries.len() - i,
        {
            rows.push(self.entries[i].clone());
            i += 1;
        }
        assert(rows@ == self.entries@);
        rows
    }

    /// The position of the row for `rule_key`.
    fn position(&self, rule_key: &str) -> (at: Option<usize>)
        ensures
            match at {
                Some(i) => position_of(self@, rule_key@) == Some(i as int) && i < self.entries.len(),
                None => position_of(self@, rule_key@) is None,
            },
    {
        let ghost wanted = has_key(rule_key@);
        let mut i: usize = 0;
        while i < self.entries.len()
            invariant
                i <= self.entries.len(),
                wanted == has_key(rule_key@),
                forall|j: int| 0 <= j < i ==> !#[trigger] wanted(self@[j]),
            decreases self.entries.len() - i,
        {
            if same_text(self.entries[i].rule_key.as_str(), rule_key) {
                proof {
                    assert(wanted(self@[i as int]));
                    first_index_found(self@, wanted, i as int);
                }
                return Some(i);
            }
            i += 1;
        }
        proof {
            first_index_missing(self@, wanted);
        }
        None
    }

    /// Records `handle` for `rule_key`.  The row for the key is overwritten
    /// where it stands; without one, a row is added at the end.
    pub fn record(&mut self, rule_key: &str, handle: &WindowHandle)
        ensures
            final(self)@ == recorded(old(self)@, rule_key@, handle@),
    {
        proof {
            use_type_invariant(&*self);
            first_index_sound(self@, has_key(rule_key@));
        }
        let entry = LedgerEntry { rule_key: String::from_str(rule_key), handle: handle.clone() };
        let at = self.position(rule_key);
        let mut rows: Vec<LedgerEntry> = Vec::new();
        std::mem::swap(&mut rows, &mut self.entries);
        match at {
            Some(i) => {
                rows.set(i, entry);
            },
            None => {
                rows.push(entry);
            },
        }
        assert(rows_view(rows@) == recorded(old(self)@, rule_key@, handle@));
        proof {
            recording_keeps_keys_distinct(old(self)@, rule_key@, handle@);
        }
        self.entries = rows;
    }

    /// Reads the line `chars[from..to]` into the ledger.
    fn absorb_line(&mut self, chars: &Vec<char>, from: usize, to: usize)
        requires
            from <= to <= chars.len(),
        ensures
            final(self)@ == absorb_line(old(self)@, chars@.subrange(from as int, to as int)),
    {
        let ghost line = chars@.subrange(from as int, to as int);
        let cut = seek(chars, from, to, DELIMITER);
        if from < cut && to - cut > 1 {
            let key = text_of(chars, from, cut);
            let handle = WindowHandle { address: text_of(chars, cut + 1, to) };
            assert(key@ == line.take(cut - from));
            assert(handle@ == line.skip(cut - from + 1));
            self.record(key.as_str(), &handle);
        }
    }

    /// Reads a ledger from its text.  Every line that holds a key, the
    /// delimiter and a handle is recorded, in order, so that of two lines
    /// with the same key the later one counts; every other line is skipped.
    /// An empty text gives an empty ledger.
    pub fn parse(text: &str) -> (ledger: Self)
        ensures
            ledger@ == parsed(text@),
    {
        let chars = characters(text);
        let n = chars.len();
        let mut ledger = AddressLedger::new();
        let mut pos: usize = 0;
        assert(chars@.skip(0) == chars@);
        loop
            invariant_except_break
                absorb(ledger@, chars@.skip(pos as int)) == parsed(text@),
            invariant
                pos <= n == chars.len(),
                chars@ == text@,
            ensures
                ledger@ == parsed(text@),
            decreases n - pos,
        {
            let ghost rest = chars@.skip(pos as int);
            let end = seek(&chars, pos, n, '\n');
            assert(chars@.subrange(pos as int, n as int) == rest);
            assert(chars@.subrange(pos as int, end as int) == rest.take(end - pos));
            ledger.absorb_line(&chars, pos, end);
            if end >= n {
                break;
            }
            assert(rest.skip(end - pos + 1) == chars@.skip(end + 1));
            pos = end + 1;
        }
        ledger
    }

    /// Writes the ledger as text, one line for each row.
    pub fn render(&self) -> (text: String)
        ensures
            text@ == rendered(self@),
    {
        let mut text = String::new();
        let mut i: usize = 0;
        while i < self.entries.len()
            invariant
                i <= self.entries.len(),
                text@ == rendered(self@.take(i as int)),
            decreases self.entries.len() - i,
        {
            let entry = &self.entries[i];
            text.append(entry.rule_key.as_str());
            text.push(DELIMITER);
            text.append(entry.handle.address.as_str());
            text.push('\n');
            proof {
                let upto = self@.take(i + 1);
                assert(upto.drop_last() == self@.take(i as int));
                assert(upto.last() == entry@);
            }
            i += 1;
        }
        assert(self@.take(i as int) == self@);
        text
    }

    /// The handle kept for `rule_key`, provided a window of the snapshot
    /// bears it.  A handle whose window is gone is not returned.
    pub fn lookup(&self, rule_key: &str, live_clients: &Vec<LiveClient>) -> (found: Option<
        WindowHandle,
    >)
        ensures
            match found {
                Some(handle) => lookup_of(self@, rule_key@, snapshot(live_clients@)) == Some(
                    handle@,
                ),
                None => lookup_of(self@, rule_key@, snapshot(live_clients@)) is None,
            },
    {
        match self.position(rule_key) {
            Some(i) => {
                if handle_is_live(live_clients, &self.entries[i].handle) {
                    Some(self.entries[i].handle.clone())
                } else {
                    None
                }
            },
            None => None,
        }
    }
}

} // verus!
