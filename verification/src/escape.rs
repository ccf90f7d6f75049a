//! Escaping of free text that is compared with a stored string.

use vstd::prelude::*;

verus! {

/// What one character becomes: a backslash goes in front of a backslash and of a single quote.
pub open spec fn escaped_char(c: char) -> Seq<char> {
    if c == '\\' {
        seq!['\\', '\\']
    } else if c == '\'' {
        seq!['\\', '\'']
    } else {
        seq![c]
    }
}

/// The escaped form of `text`: each character replaced by `escaped_char` of it, in order.
pub open spec fn escaped(text: Seq<char>) -> Seq<char>
    decreases text.len(),
{
    if text.len() == 0 {
        Seq::empty()
    } else {
        escaped(text.drop_last()) + escaped_char(text.last())
    }
}

/// Escapes `s` for a comparison with a stored text: a backslash goes in front of every
/// backslash and of every single quote, so that the store, which reads a backslash as the
/// start of an escape, compares character for character what the caller gave.
pub fn escape_string_for_clickhouse_comparison(s: &str) -> (out: String)
    ensures
        out@ == escaped(s@),
{
    let mut out = String::new();
    for c in it: s.chars()
        invariant
            it.seq() == s@,
            out@ == escaped(s@.take(it.index())),
    {
        proof {
            let next = s@.take(it.index() + 1);
            assert(next.drop_last() == s@.take(it.index()));
        }
        if c == '\\' || c == '\'' {
            out.push('\\');
        }
        out.push(c);
    }
    proof {
        assert(s@.take(s@.len() as int) == s@);
    }
    out
}

/// The text that an escaped form stands for: a backslash gives way to the character after it.
pub open spec fn unescaped(text: Seq<char>) -> Seq<char>
    decreases text.len(),
{
    if text.len() == 0 {
        Seq::empty()
    } else if text[0] == '\\' && text.len() >= 2 {
        seq![text[1]] + unescaped(text.skip(2))
    } else {
        seq![text[0]] + unescaped(text.skip(1))
    }
}

/// Whether `text` can stand between two single quotes: every quote in it follows a backslash
/// that escapes it, and no backslash is left open at the end.
pub open spec fn closed_literal(text: Seq<char>) -> bool
    decreases text.len(),
{
    if text.len() == 0 {
        true
    } else if text[0] == '\\' {
        text.len() >= 2 && closed_literal(text.skip(2))
    } else {
        text[0] != '\'' && closed_literal(text.skip(1))
    }
}

/// The escaped form of two texts joined is the two escaped forms joined.
pub proof fn lemma_escaped_concat(a: Seq<char>, b: Seq<char>)
    ensures
        escaped(a + b) == escaped(a) + escaped(b),
    decreases b.len(),
{
    if b.len() > 0 {
        lemma_escaped_concat(a, b.drop_last());
        assert((a + b).drop_last() == a + b.drop_last());
    }
}

/// The escaped form of a text starts with what its first character becomes.
pub proof fn lemma_escaped_front(text: Seq<char>)
    requires
        text.len() > 0,
    ensures
        escaped(text) == escaped_char(text[0]) + escaped(text.skip(1)),
{
    let head = text.take(1);
    assert(text == head + text.skip(1));
    lemma_escaped_concat(head, text.skip(1));
    assert(escaped(head.drop_last()) == Seq::<char>::empty());
}

/// Escaping loses nothing: reading the escaped form back gives the text that was escaped.
pub proof fn lemma_escape_round_trip(text: Seq<char>)
    ensures
        unescaped(escaped(text)) == text,
    decreases text.len(),
{
    if text.len() > 0 {
        lemma_escaped_front(text);
        lemma_escape_round_trip(text.skip(1));
        let whole = escaped(text);
        if text[0] == '\\' || text[0] == '\'' {
            assert(whole.skip(2) == escaped(text.skip(1)));
        } else {
            assert(whole.skip(1) == escaped(text.skip(1)));
        }
    }
}

/// Two texts with the same escaped form are the same text.
pub proof fn lemma_escape_injective(a: Seq<char>, b: Seq<char>)
    requires
        escaped(a) == escaped(b),
    ensures
        a == b,
{
    lemma_escape_round_trip(a);
    lemma_escape_round_trip(b);
}

/// An escaped form can stand between two single quotes.
pub proof fn lemma_escaped_is_closed(text: Seq<char>)
    ensures
        closed_literal(escaped(text)),
    decreases text.len(),
{
    if text.len() > 0 {
        lemma_escaped_front(text);
        lemma_escaped_is_closed(text.skip(1));
        let whole = escaped(text);
        if text[0] == '\\' || text[0] == '\'' {
            assert(whole.skip(2) == escaped(text.skip(1)));
        } else {
            assert(whole.skip(1) == escaped(text.skip(1)));
        }
    }
}

/// A text without quote and backslash can stand between two single quotes as it is,
/// and escaping leaves it unchanged.
pub proof fn lemma_plain_text(text: Seq<char>)
    requires
        forall|i: int| 0 <= i < text.len() ==> text[i] != '\'' && text[i] != '\\',
    ensures
        closed_literal(text),
        escaped(text) == text,
    decreases text.len(),
{
    if text.len() > 0 {
        lemma_plain_text(text.skip(1));
        lemma_escaped_front(text);
    }
}


} // verus!
