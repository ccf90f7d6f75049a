//! Reading a reply: as a single row, as one row on each line, or as a row of a known shape.

use crate::json::{json_document, parse_document};
use serde_json::Value;
use vstd::prelude::*;

verus! {

/// What a reply gives when read as a single row: nothing where it is empty, else the value
/// of the text where the text is one JSON document, and nothing where it is none.
pub open spec fn single_row(text: Seq<char>) -> Option<Value> {
    if text.len() == 0 {
        None
    } else {
        json_document(text)
    }
}

/// Whether `text` has no line feed in it.
pub open spec fn single_line(text: Seq<char>) -> bool {
    forall|i: int| 0 <= i < text.len() ==> text[i] != '\n'
}

/// Where the first line of `text` ends: at its first line feed, or at its end without one.
pub open spec fn line_end(text: Seq<char>) -> int
    decreases text.len(),
{
    if text.len() == 0 || text[0] == '\n' {
        0
    } else {
        1 + line_end(text.skip(1))
    }
}

/// A line that a line feed ended, without the carriage return before the line feed, if
/// there was one.
pub open spec fn without_return(line: Seq<char>) -> Seq<char> {
    if line.len() > 0 && line.last() == '\r' {
        line.drop_last()
    } else {
        line
    }
}

/// The lines of `text`. A line ends with a line feed, or with a carriage return and a line
/// feed, neither of which belongs to it; what stands after the last line feed is a line if
/// it is not empty, and is kept as it is.
pub open spec fn lines_of(text: Seq<char>) -> Seq<Seq<char>>
    decreases text.len(),
{
    if text.len() == 0 {
        Seq::empty()
    } else {
        let end = line_end(text);
        if 0 <= end < text.len() {
            seq![without_return(text.take(end))] + lines_of(text.skip(end + 1))
        } else {
            seq![text]
        }
    }
}

/// The lines of a list, each as plain text.
pub open spec fn lines_view(lines: Seq<String>) -> Seq<Seq<char>> {
    lines.map_values(|l: String| l@)
}

/// What is kept of one parsed line: the row, or nothing.
pub open spec fn kept<T>(parsed: Option<T>) -> Seq<T> {
    match parsed {
        Some(row) => seq![row],
        None => Seq::empty(),
    }
}

/// The rows of the lines: of each line that is a JSON document its value, in the order of
/// the lines. A line that is no document gives no row.
pub open spec fn kept_rows(lines: Seq<Seq<char>>) -> Seq<Value>
    decreases lines.len(),
{
    if lines.len() == 0 {
        Seq::empty()
    } else {
        kept_rows(lines.drop_last()) + kept(json_document(lines.last()))
    }
}

/// Whether each of the lines is a JSON document.
pub open spec fn every_line_is_a_document(lines: Seq<Seq<char>>) -> bool {
    forall|i: int| 0 <= i < lines.len() ==> json_document(#[trigger] lines[i]) is Some
}

/// How many of the lines are JSON documents.
pub open spec fn count_documents(lines: Seq<Seq<char>>) -> nat
    decreases lines.len(),
{
    if lines.len() == 0 {
        0
    } else {
        count_documents(lines.drop_last()) + if json_document(lines.last()) is Some {
            1nat
        } else {
            0nat
        }
    }
}

/// The rows, or `None` where there is none: a caller is told of a missing record, never
/// handed an empty list.
pub open spec fn present<T>(rows: Seq<T>) -> Option<Seq<T>> {
    if rows.len() == 0 {
        None
    } else {
        Some(rows)
    }
}

/// Rows that may be missing, as a sequence.
pub open spec fn optional_rows<T>(rows: Option<Vec<T>>) -> Option<Seq<T>> {
    match rows {
        Some(rows) => Some(rows@),
        None => None,
    }
}

/// A reply that should hold a record of a known shape and holds something else.
#[derive(Clone, Copy, Debug, PartialEq, Eq, Structural)]
pub struct ShapeMismatch {}

/// What a strict reading gives: nothing for an empty reply, the record where the reply has
/// the shape, and an error where a reply that is not empty has not.
pub open spec fn strict<T>(text: Seq<char>, shaped: Option<T>) -> Result<Option<T>, ShapeMismatch> {
    if text.len() == 0 {
        Ok(None)
    } else {
        match shaped {
            Some(record) => Ok(Some(record)),
            None => Err(ShapeMismatch {}),
        }
    }
}

/// The line under way while a text is split: what is written of it, and after that the
/// carriage return that is held back, if one is.
spec fn under_way(written: Seq<char>, held: bool) -> Seq<char> {
    if held {
        written.push('\r')
    } else {
        written
    }
}

/// A text that starts with a line without a line feed, and goes on with a line feed or not
/// at all, has its first line end where that line ends.
proof fn lemma_line_end(line: Seq<char>, rest: Seq<char>)
    requires
        single_line(line),
        rest.len() == 0 || rest[0] == '\n',
    ensures
        line_end(line + rest) == line.len(),
    decreases line.len(),
{
    if line.len() > 0 {
        assert((line + rest).skip(1) == line.skip(1) + rest);
        lemma_line_end(line.skip(1), rest);
    }
}

/// Reads a reply as a single row: the value of the text where it is one JSON document,
/// else nothing. An empty reply is a missing record, and so is a reply that cannot be read.
pub fn decode_single_row(text: &str) -> (row: Option<Value>)
    ensures
        row == single_row(text@),
{
    if text.is_empty() {
        None
    } else {
        parse_document(text)
    }
}

/// Splits a reply into its lines.
pub fn split_lines(text: &str) -> (lines: Vec<String>)
    ensures
        lines_view(lines@) == lines_of(text@),
{
    let mut lines: Vec<String> = Vec::new();
    let mut line = String::new();
    // A carriage return that was read is held back until the next character shows whether
    // it belongs to the line's end.
    let mut held = false;
    assert(lines_view(lines@) + lines_of(under_way(line@, held) + text@.skip(0)) =~= lines_of(
        text@,
    )) by {
        assert(line@ + text@.skip(0) =~= text@);
    }
    for c in it: text.chars()
        invariant
            it.seq() == text@,
            single_line(line@),
            !held ==> line@.len() == 0 || line@.last() != '\r',
            lines_of(text@) == lines_view(lines@) + lines_of(
                under_way(line@, held) + text@.skip(it.index()),
            ),
    {
        let ghost current = under_way(line@, held);
        let ghost rest = text@.skip(it.index());
        if c == '\n' {
            proof {
                lemma_line_end(current, rest);
                assert((current + rest).take(current.len() as int) =~= current);
                assert((current + rest).skip(current.len() as int + 1) =~= text@.skip(
                    it.index() + 1,
                ));
                assert(without_return(current) =~= line@);
            }
            lines.push(line);
            line = String::new();
            held = false;
        } else {
            if held {
                line.push('\r');
            }
            if c == '\r' {
                held = true;
            } else {
                held = false;
                line.push(c);
            }
            proof {
                assert(under_way(line@, held) + text@.skip(it.index() + 1) =~= current + rest);
            }
        }
    }
    let ghost current = under_way(line@, held);
    proof {
        lemma_line_end(current, Seq::empty());
    }
    if held {
        line.push('\r');
    }
    assert(line@ =~= current);
    if !line.as_str().is_empty() {
        lines.push(line);
    }
    lines
}

/// Adds the row of a parsed line to the rows, where the line had one.
pub fn keep_row<T>(rows: &mut Vec<T>, parsed: Option<T>)
    ensures
        final(rows)@ == old(rows)@ + kept(parsed),
{
    match parsed {
        Some(row) => {
            rows.push(row);
        },
        None => {},
    }
}

/// The rows where there is one, else `None`.
pub fn present_rows<T>(rows: Vec<T>) -> (found: Option<Vec<T>>)
    ensures
        rows@.len() == 0 ==> found is None,
        rows@.len() > 0 ==> found == Some(rows),
        optional_rows(found) == present(rows@),
{
    if rows.len() == 0 {
        None
    } else {
        Some(rows)
    }
}

/// Reads a reply as one row on each line. A line that is no JSON document is passed over
/// and the others are kept; where no line gives a row, the result is `None`.
pub fn decode_rows(text: &str) -> (rows: Option<Vec<Value>>)
    ensures
        optional_rows(rows) == present(kept_rows(lines_of(text@))),
{
    let lines = split_lines(text);
    let ghost all = lines_view(lines@);
    let mut rows: Vec<Value> = Vec::new();
    let mut i: usize = 0;
    while i < lines.len()
        invariant
            i <= lines.len(),
            all == lines_view(lines@),
            rows@ == kept_rows(all.take(i as int)),
        decreases lines.len() - i,
    {
        proof {
            let next = all.take(i + 1);
            assert(next.drop_last() == all.take(i as int));
        }
        let parsed = parse_document(lines[i].as_str());
        keep_row(&mut rows, parsed);
        i = i + 1;
    }
    assert(all.take(i as int) == all);
    present_rows(rows)
}

/// Reads a reply strictly, as a single row of a known shape. `shaped` is what the caller's
/// decoder made of the reply. An empty reply is a missing record; a reply that is not empty
/// and has not the shape is an error, which must not pass for a missing record.
pub fn strict_row<T>(text: &str, shaped: Option<T>) -> (row: Result<Option<T>, ShapeMismatch>)
    ensures
        row == strict(text@, shaped),
{
    if text.is_empty() {
        Ok(None)
    } else {
        match shaped {
            Some(record) => Ok(Some(record)),
            None => Err(ShapeMismatch {}),
        }
    }
}

/// The first line of a text ends within the text, has no line feed in it, and is followed
/// by a line feed where anything follows it.
pub proof fn lemma_line_end_is_first_line_feed(text: Seq<char>)
    ensures
        0 <= line_end(text) <= text.len(),
        forall|k: int| 0 <= k < line_end(text) ==> text[k] != '\n',
        line_end(text) < text.len() ==> text[line_end(text)] == '\n',
    decreases text.len(),
{
    if text.len() > 0 && text[0] != '\n' {
        lemma_line_end_is_first_line_feed(text.skip(1));
        assert forall|k: int| 0 <= k < line_end(text) implies text[k] != '\n' by {
            if k > 0 {
                assert(text[k] == text.skip(1)[k - 1]);
            }
        }
    }
}

/// No line has a line feed in it, and a text has no more lines than characters.
pub proof fn lemma_lines_are_single(text: Seq<char>)
    ensures
        lines_of(text).len() <= text.len(),
        forall|i: int| 0 <= i < lines_of(text).len() ==> single_line(#[trigger] lines_of(text)[i]),
    decreases text.len(),
{
    if text.len() > 0 {
        lemma_line_end_is_first_line_feed(text);
        let end = line_end(text);
        if end < text.len() {
            lemma_lines_are_single(text.skip(end + 1));
            assert forall|i: int| 0 <= i < lines_of(text).len() implies single_line(
                #[trigger] lines_of(text)[i],
            ) by {
                if i > 0 {
                    assert(lines_of(text)[i] == lines_of(text.skip(end + 1))[i - 1]);
                } else {
                    assert(lines_of(text)[0] == without_return(text.take(end)));
                }
            }
        }
    }
}

/// A text without a line feed is its own and only line, unless it is empty.
pub proof fn lemma_single_line_is_one_line(text: Seq<char>)
    requires
        single_line(text),
        text.len() > 0,
    ensures
        lines_of(text) == seq![text],
{
    lemma_line_end(text, Seq::empty());
}

/// As many rows are kept as lines are JSON documents: where every line is one, each line
/// gives a row.
pub proof fn lemma_kept_rows_count(lines: Seq<Seq<char>>)
    ensures
        kept_rows(lines).len() == count_documents(lines),
        count_documents(lines) <= lines.len(),
        every_line_is_a_document(lines) ==> kept_rows(lines).len() == lines.len(),
    decreases lines.len(),
{
    if lines.len() > 0 {
        lemma_kept_rows_count(lines.drop_last());
        if every_line_is_a_document(lines) {
            assert forall|i: int| 0 <= i < lines.drop_last().len() implies json_document(
                #[trigger] lines.drop_last()[i],
            ) is Some by {
                assert(lines.drop_last()[i] == lines[i]);
            }
            assert(json_document(lines.last()) is Some);
        }
    }
}

/// An empty reply is a missing record, however it is read: it is no single row, it has no
/// lines and gives no rows, and a strict reading asks for no shape.
pub proof fn lemma_empty_reply_has_no_rows<T>(shaped: Option<T>)
    ensures
        single_row(Seq::empty()) is None,
        lines_of(Seq::empty()) == Seq::<Seq<char>>::empty(),
        present(kept_rows(lines_of(Seq::empty()))) is None,
        strict(Seq::empty(), shaped) == Ok::<Option<T>, ShapeMismatch>(None),
{
}

} // verus!
