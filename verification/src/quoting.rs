//! Where a delimited text stands with respect to its quotes.
//!
//! A quote opens a quoted field only as the first character of a field.
//! Inside a quoted field separators are data, and a doubled quote is one
//! literal quote. A text that ends while a quoted field is still open has
//! an unterminated quote. A byte-order mark at the very start of a text
//! belongs to no field.

use vstd::prelude::*;
use vstd::std_specs::iter::IteratorSpec;

verus! {

/// The character that opens and closes a quoted field.
pub const QUOTE: char = '"';

/// The character between two fields.
pub const DELIMITER: char = ',';

/// Line feed, which ends a record.
pub const LINE_FEED: char = '\n';

/// Carriage return, which ends a record too.
pub const CARRIAGE_RETURN: char = '\r';

/// The byte-order mark, which may stand before the first field of a text.
pub const BYTE_ORDER_MARK: char = '\u{FEFF}';

/// Where a reader stands after some characters of a delimited text.
#[derive(Clone, Copy, Debug, PartialEq, Eq, Structural)]
pub enum QuoteState {
    /// At the first character of a field.
    FieldStart,
    /// Inside a field that no quote opened.
    Unquoted,
    /// Inside a quoted field.
    Quoted,
    /// Just after a quote inside a quoted field: the field has closed,
    /// unless the next character is a quote again.
    QuoteSeen,
}

/// Whether `c` ends a field outside quotes.
pub open spec fn is_separator(c: char) -> bool {
    c == DELIMITER || c == LINE_FEED || c == CARRIAGE_RETURN
}

/// The state after one more character.
pub open spec fn advance(state: QuoteState, c: char) -> QuoteState {
    match state {
        QuoteState::FieldStart => if c == QUOTE {
            QuoteState::Quoted
        } else if is_separator(c) {
            QuoteState::FieldStart
        } else {
            QuoteState::Unquoted
        },
        QuoteState::Unquoted => if is_separator(c) {
            QuoteState::FieldStart
        } else {
            QuoteState::Unquoted
        },
        QuoteState::Quoted => if c == QUOTE {
            QuoteState::QuoteSeen
        } else {
            QuoteState::Quoted
        },
        QuoteState::QuoteSeen => if c == QUOTE {
            QuoteState::Quoted
        } else if is_separator(c) {
            QuoteState::FieldStart
        } else {
            QuoteState::Unquoted
        },
    }
}

/// The state after all of `text`, read from the start of a field.
pub open spec fn scan(text: Seq<char>) -> QuoteState
    decreases text.len(),
{
    if text.len() == 0 {
        QuoteState::FieldStart
    } else {
        advance(scan(text.drop_last()), text.last())
    }
}

/// The fields and separators of `text`: all of it but a leading byte-order
/// mark.
pub open spec fn content(text: Seq<char>) -> Seq<char> {
    if text.len() > 0 && text[0] == BYTE_ORDER_MARK {
        text.drop_first()
    } else {
        text
    }
}

/// Whether `text` ends inside a quoted field that was never closed.
pub open spec fn ends_inside_quotes(text: Seq<char>) -> bool {
    scan(content(text)) == QuoteState::Quoted
}

/// The state after one more character.
pub fn step(state: QuoteState, c: char) -> (out: QuoteState)
    ensures
        out == advance(state, c),
{
    let separator = c == DELIMITER || c == LINE_FEED || c == CARRIAGE_RETURN;
    match state {
        QuoteState::FieldStart | QuoteState::QuoteSeen => {
            if c == QUOTE {
                QuoteState::Quoted
            } else if separator {
                QuoteState::FieldStart
            } else {
                QuoteState::Unquoted
            }
        },
        QuoteState::Unquoted => {
            if separator {
                QuoteState::FieldStart
            } else {
                QuoteState::Unquoted
            }
        },
        QuoteState::Quoted => {
            if c == QUOTE {
                QuoteState::QuoteSeen
            } else {
                QuoteState::Quoted
            }
        },
    }
}

/// Whether `text` ends inside a quoted field that was never closed.
pub fn has_unterminated_quote(text: &str) -> (out: bool)
    ensures
        out == ends_inside_quotes(text@),
{
    let mut rest = text.chars();
    let mut state = QuoteState::FieldStart;
    let ghost mut seen: Seq<char> = Seq::empty();
    match rest.next() {
        Some(first) => {
            if first != BYTE_ORDER_MARK {
                state = step(state, first);
                proof {
                    seen = seq![first];
                    assert(seen.drop_last() =~= Seq::<char>::empty());
                    assert(scan(seen.drop_last()) == QuoteState::FieldStart);
                    assert(scan(seen) == advance(scan(seen.drop_last()), seen.last()));
                }
            }
        },
        None => {},
    }
    proof {
        assert(seen + rest.remaining() =~= content(text@));
    }
    loop
        invariant
            rest.obeys_prophetic_iter_laws(),
            rest.decrease() is Some,
            seen + rest.remaining() == content(text@),
            state == scan(seen),
        ensures
            state == scan(content(text@)),
        decreases rest.decrease()->0,
    {
        let ghost before = rest.remaining();
        match rest.next() {
            Some(c) => {
                proof {
                    let longer = seen.push(c);
                    assert(longer.drop_last() =~= seen);
                    assert(longer + rest.remaining() =~= seen + before);
                    seen = longer;
                }
                state = step(state, c);
            },
            None => {
                proof {
                    assert(seen =~= content(text@));
                }
                break;
            },
        }
    }
    state == QuoteState::Quoted
}

/// A text without any quote is never inside a quoted field.
pub proof fn lemma_quote_free_scan(text: Seq<char>)
    requires
        forall|i: int| 0 <= i < text.len() ==> text[i] != QUOTE,
    ensures
        scan(text) == QuoteState::FieldStart || scan(text) == QuoteState::Unquoted,
    decreases text.len(),
{
    if text.len() > 0 {
        lemma_quote_free_scan(text.drop_last());
    }
}

/// A text without any quote has no unterminated quote.
pub proof fn lemma_quote_free_is_terminated(text: Seq<char>)
    requires
        forall|i: int| 0 <= i < text.len() ==> text[i] != QUOTE,
    ensures
        !ends_inside_quotes(text),
{
    lemma_quote_free_scan(content(text));
}

} // verus!
