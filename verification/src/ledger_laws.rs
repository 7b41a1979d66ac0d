//! Laws of the ledger's text: what is written can be read again.

use vstd::prelude::*;
use crate::ledger::{
    absorb, absorb_line, distinct_keys, entry_of, has_key, line_of, parsed, recorded,
    recording_keeps_keys_distinct, rendered, EntryView, DELIMITER,
};
use crate::search::{first_index_found, first_index_missing, first_index_sound};
use crate::text::{is_char, reach};

verus! {

/// Whether a row can be written as a line and read again: key and handle
/// are not empty, neither holds a line feed, and the key holds no delimiter.
pub open spec fn writable(e: EntryView) -> bool {
    &&& e.key.len() > 0
    &&& e.handle.len() > 0
    &&& !e.key.contains(DELIMITER)
    &&& !e.key.contains('\n')
    &&& !e.handle.contains('\n')
}

/// Whether every row can be written and read again.
pub open spec fn all_writable(rows: Seq<EntryView>) -> bool {
    forall|i: int| 0 <= i < rows.len() ==> writable(#[trigger] rows[i])
}

/// The rows after each of `more` was recorded in turn.
pub open spec fn record_all(rows: Seq<EntryView>, more: Seq<EntryView>) -> Seq<EntryView>
    decreases more.len(),
{
    if more.len() == 0 {
        rows
    } else {
        record_all(recorded(rows, more[0].key, more[0].handle), more.drop_first())
    }
}

/// A text without `c`, then `c`, then anything, runs up to that `c`.
pub proof fn reach_stops_at_first(before: Seq<char>, c: char, rest: Seq<char>)
    requires
        !before.contains(c),
    ensures
        reach(before + seq![c] + rest, c) == before.len(),
{
    let text = before + seq![c] + rest;
    let at = before.len() as int;
    assert(text[at] == c);
    assert forall|j: int| 0 <= j < at implies !#[trigger] is_char(c)(text[j]) by {
        assert(text[j] == before[j]);
    }
    assert(is_char(c)(text[at]));
    first_index_found(text, is_char(c), at);
}

/// A text without `c` runs to its end.
pub proof fn reach_runs_to_end(text: Seq<char>, c: char)
    requires
        !text.contains(c),
    ensures
        reach(text, c) == text.len(),
{
    assert forall|j: int| 0 <= j < text.len() implies !#[trigger] is_char(c)(text[j]) by {}
    first_index_missing(text, is_char(c));
}

/// Wherever a text stops, it stops within the text.
pub proof fn reach_is_within(text: Seq<char>, c: char)
    ensures
        0 <= reach(text, c) <= text.len(),
{
    first_index_sound(text, is_char(c));
}

/// The line written for a writable row, without its line feed, stands for
/// that row.
pub proof fn written_line_is_read(e: EntryView)
    requires
        writable(e),
    ensures
        entry_of(e.key + seq![DELIMITER] + e.handle) == Some(e),
{
    let body = e.key + seq![DELIMITER] + e.handle;
    reach_stops_at_first(e.key, DELIMITER, e.handle);
    let cut = e.key.len() as int;
    assert(body.take(cut) =~= e.key);
    assert(body.skip(cut + 1) =~= e.handle);
}

/// Reading the line of a writable row and then the rest is recording the
/// row and then reading the rest.
pub proof fn absorb_written_line(rows: Seq<EntryView>, e: EntryView, rest: Seq<char>)
    requires
        writable(e),
    ensures
        absorb(rows, line_of(e) + rest) == absorb(recorded(rows, e.key, e.handle), rest),
{
    let body = e.key + seq![DELIMITER] + e.handle;
    let text = line_of(e) + rest;
    assert(!body.contains('\n')) by {
        if body.contains('\n') {
            let i = choose|i: int| 0 <= i < body.len() && body[i] == '\n';
            if i < e.key.len() {
                assert(e.key[i] == '\n');
            } else if i > e.key.len() {
                assert(e.handle[i - e.key.len() - 1] == '\n');
            }
        }
    }
    assert(text =~= body + seq!['\n'] + rest);
    reach_stops_at_first(body, '\n', rest);
    let end = body.len() as int;
    assert(text.take(end) =~= body);
    assert(text.skip(end + 1) =~= rest);
    written_line_is_read(e);
}

/// Reading an empty text changes nothing.
pub proof fn absorb_nothing(rows: Seq<EntryView>)
    ensures
        absorb(rows, Seq::<char>::empty()) == rows,
{
    let none = Seq::<char>::empty();
    reach_runs_to_end(none, '\n');
    reach_runs_to_end(none, DELIMITER);
    assert(none.take(0) =~= none);
}

/// The text of some rows is the line of the first and the text of the rest.
pub proof fn rendered_from_the_front(rows: Seq<EntryView>)
    requires
        rows.len() > 0,
    ensures
        rendered(rows) == line_of(rows[0]) + rendered(rows.drop_first()),
    decreases rows.len(),
{
    if rows.len() == 1 {
        assert(rows.drop_last() =~= Seq::<EntryView>::empty());
        assert(rows.drop_first() =~= Seq::<EntryView>::empty());
        assert(rendered(rows) =~= line_of(rows[0]) + rendered(rows.drop_first()));
    } else {
        let front = rows.drop_last();
        let back = rows.drop_first();
        rendered_from_the_front(front);
        assert(front.drop_first() =~= back.drop_last());
        assert(back.last() == rows.last());
        assert(front[0] == rows[0]);
        assert(rendered(rows) =~= line_of(rows[0]) + rendered(back));
    }
}

/// Reading the text of writable rows is recording them one after another.
pub proof fn absorb_rendered(rows: Seq<EntryView>, more: Seq<EntryView>)
    requires
        all_writable(more),
    ensures
        absorb(rows, rendered(more)) == record_all(rows, more),
    decreases more.len(),
{
    if more.len() == 0 {
        absorb_nothing(rows);
    } else {
        rendered_from_the_front(more);
        absorb_written_line(rows, more[0], rendered(more.drop_first()));
        assert(all_writable(more.drop_first())) by {
            assert forall|i: int| 0 <= i < more.drop_first().len() implies writable(
                #[trigger] more.drop_first()[i],
            ) by {
                assert(more.drop_first()[i] == more[i + 1]);
            }
        }
        absorb_rendered(recorded(rows, more[0].key, more[0].handle), more.drop_first());
    }
}

/// Recording rows whose keys differ from each other and from those already
/// there adds them at the end, in order.
pub proof fn record_all_appends(rows: Seq<EntryView>, more: Seq<EntryView>)
    requires
        distinct_keys(rows + more),
    ensures
        record_all(rows, more) == rows + more,
    decreases more.len(),
{
    if more.len() == 0 {
        assert(rows + more =~= rows);
    } else {
        let all = rows + more;
        let e = more[0];
        assert(all[rows.len() as int] == e);
        assert forall|j: int| 0 <= j < rows.len() implies !#[trigger] has_key(e.key)(rows[j]) by {
            assert(all[j] == rows[j]);
        }
        first_index_missing(rows, has_key(e.key));
        let next = recorded(rows, e.key, e.handle);
        assert(next =~= rows.push(e));
        assert(next + more.drop_first() =~= all);
        record_all_appends(next, more.drop_first());
    }
}

/// Reading the text that was written for a ledger gives the same rows in
/// the same order, provided every row can be written and read again.
pub proof fn reading_restores_what_was_written(rows: Seq<EntryView>)
    requires
        distinct_keys(rows),
        all_writable(rows),
    ensures
        parsed(rendered(rows)) == rows,
{
    let none = Seq::<EntryView>::empty();
    absorb_rendered(none, rows);
    assert(none + rows =~= rows);
    record_all_appends(none, rows);
}

/// Reading never gives two rows the same key.
pub proof fn reading_keeps_keys_distinct(rows: Seq<EntryView>, text: Seq<char>)
    requires
        distinct_keys(rows),
    ensures
        distinct_keys(absorb(rows, text)),
    decreases text.len(),
{
    reach_is_within(text, '\n');
    let end = reach(text, '\n');
    let line = text.take(end);
    match entry_of(line) {
        Some(e) => {
            recording_keeps_keys_distinct(rows, e.key, e.handle);
        },
        None => {},
    }
    if end < text.len() {
        reading_keeps_keys_distinct(absorb_line(rows, line), text.skip(end + 1));
    }
}

} // verus!
