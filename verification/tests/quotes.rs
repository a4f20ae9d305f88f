use csv_viewer::quoting::{has_unterminated_quote, step, QuoteState};

#[test]
fn quote_opens_a_field_only_at_its_start() {
    assert_eq!(step(QuoteState::FieldStart, '"'), QuoteState::Quoted);
    assert_eq!(step(QuoteState::Unquoted, '"'), QuoteState::Unquoted);
}

#[test]
fn separators_start_a_field_outside_quotes() {
    for c in [',', '\n', '\r'] {
        assert_eq!(step(QuoteState::FieldStart, c), QuoteState::FieldStart);
        assert_eq!(step(QuoteState::Unquoted, c), QuoteState::FieldStart);
        assert_eq!(step(QuoteState::QuoteSeen, c), QuoteState::FieldStart);
        assert_eq!(step(QuoteState::Quoted, c), QuoteState::Quoted);
    }
}

#[test]
fn quote_in_a_quoted_field_closes_or_doubles() {
    assert_eq!(step(QuoteState::Quoted, '"'), QuoteState::QuoteSeen);
    assert_eq!(step(QuoteState::QuoteSeen, '"'), QuoteState::Quoted);
    assert_eq!(step(QuoteState::QuoteSeen, 'x'), QuoteState::Unquoted);
}

#[test]
fn other_characters_are_data() {
    assert_eq!(step(QuoteState::FieldStart, 'x'), QuoteState::Unquoted);
    assert_eq!(step(QuoteState::Unquoted, 'x'), QuoteState::Unquoted);
    assert_eq!(step(QuoteState::Quoted, 'x'), QuoteState::Quoted);
    assert_eq!(step(QuoteState::Quoted, 'é'), QuoteState::Quoted);
}

#[test]
fn text_without_quotes_is_terminated() {
    assert!(!has_unterminated_quote(""));
    assert!(!has_unterminated_quote("a,b\n1,2\n"));
    assert!(!has_unterminated_quote("größe,名前\n"));
}

#[test]
fn open_quote_at_the_end_is_unterminated() {
    assert!(has_unterminated_quote("\""));
    assert!(has_unterminated_quote("a,\"b"));
    assert!(has_unterminated_quote("a\n\"b,c\nd,e\n"));
    assert!(has_unterminated_quote("\"a\"\""));
    assert!(has_unterminated_quote("\"ä"));
}

#[test]
fn closed_quote_is_terminated() {
    assert!(!has_unterminated_quote("\"\""));
    assert!(!has_unterminated_quote("\"a,b\"\n"));
    assert!(!has_unterminated_quote("\"a\"\"b\""));
    assert!(!has_unterminated_quote("a\"b"));
    assert!(!has_unterminated_quote("\"a\"b"));
}

#[test]
fn leading_byte_order_mark_belongs_to_no_field() {
    assert!(has_unterminated_quote("\u{FEFF}\"a"));
    assert!(!has_unterminated_quote("\u{FEFF}\"a\""));
    assert!(!has_unterminated_quote("\u{FEFF}"));
    assert!(!has_unterminated_quote("\u{FEFF}a,b\n"));
    assert!(!has_unterminated_quote("a\u{FEFF}\"b"));
    assert!(has_unterminated_quote("\u{FEFF}a,\"b"));
}
