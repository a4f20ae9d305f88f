//! From the text of a delimited file to a [`Table`].
//!
//! The records are read by the `csv` crate; this module decides what counts
//! as a failure and which record is the header.

use crate::quoting::{
    ends_inside_quotes, has_unterminated_quote, lemma_quote_free_is_terminated, QUOTE,
};
use crate::table::{Table, TableView};
use vstd::prelude::*;

verus! {

/// Why a text is no table.
#[derive(Clone, Copy, Debug, PartialEq, Eq, Structural)]
pub enum ParseError {
    /// The text holds no record at all, so no header row either.
    Empty,
    /// The text ends inside a quoted field.
    UnterminatedQuote,
    /// The reader gave up on the text.
    Rejected,
}

/// The error of the `csv` crate, carried from its reader to [`parse`].
#[verifier::external_type_specification]
#[verifier::external_body]
pub struct ExCsvError(csv::Error);

/// What a reader of the `csv` crate yields on a text, when it takes no row
/// for a header and accepts rows of any length: every record in file order,
/// the header row included, each as its fields; `None` where it reports an
/// error.
pub uninterp spec fn csv_records(text: Seq<char>) -> Option<Seq<Seq<Seq<char>>>>;

/// Reads all records of `text` with `csv::Reader::records`, on a reader
/// built by `csv::ReaderBuilder` that treats no row as a header and accepts
/// rows of any length. The outcome is the one that [`csv_records`] names.
#[verifier::external_body]
fn read_records(text: &str) -> (out: Result<Vec<Vec<String>>, csv::Error>)
    ensures
        match out {
            Ok(records) => csv_records(text@) == Some(records.deep_view()),
            Err(_) => csv_records(text@) is None,
        },
{
    let mut reader =
        csv::ReaderBuilder::new().has_headers(false).flexible(true).from_reader(text.as_bytes());
    let mut records = Vec::new();
    for record in reader.records() {
        records.push(record?.iter().map(String::from).collect());
    }
    Ok(records)
}

/// The table that a sequence of records stands for: the first record is the
/// header row, the others are the data rows, as they are. Without a first
/// record there is no table.
pub open spec fn table_of_records(records: Seq<Seq<Seq<char>>>) -> Result<TableView, ParseError> {
    if records.len() == 0 {
        Err(ParseError::Empty)
    } else {
        Ok(TableView { headers: records[0], rows: records.subrange(1, records.len() as int) })
    }
}

/// The records that a table stands for: its header row, then its rows.
pub open spec fn records_of_table(t: TableView) -> Seq<Seq<Seq<char>>> {
    seq![t.headers] + t.rows
}

/// What a reader's outcome means for the caller.
pub open spec fn table_of_outcome(outcome: Option<Seq<Seq<Seq<char>>>>) -> Result<
    TableView,
    ParseError,
> {
    match outcome {
        Some(records) => table_of_records(records),
        None => Err(ParseError::Rejected),
    }
}

/// What parsing `text` gives: an error for a text without content or with
/// an unterminated quote, else what the reader's records stand for.
pub open spec fn parse_outcome(text: Seq<char>) -> Result<TableView, ParseError> {
    if text.len() == 0 {
        Err(ParseError::Empty)
    } else if ends_inside_quotes(text) {
        Err(ParseError::UnterminatedQuote)
    } else {
        table_of_outcome(csv_records(text))
    }
}

/// A parse result with the table taken by its view.
pub open spec fn viewed(result: Result<Table, ParseError>) -> Result<TableView, ParseError> {
    match result {
        Ok(table) => Ok(table@),
        Err(e) => Err(e),
    }
}

/// Splits records into the header row and the data rows.
///
/// A row that is longer or shorter than the header row is kept as it is.
pub fn table_from_records(records: Vec<Vec<String>>) -> (out: Result<Table, ParseError>)
    ensures
        viewed(out) == table_of_records(records.deep_view()),
        out is Ok <==> records@.len() > 0,
{
    let mut rows = records;
    if rows.len() == 0 {
        return Err(ParseError::Empty);
    }
    let headers = rows.remove(0);
    let table = Table { headers, rows };
    proof {
        let all = records.deep_view();
        assert(table@.headers == all[0]);
        assert(table@.rows =~= all.subrange(1, all.len() as int));
    }
    Ok(table)
}

/// Parses the text of a delimited file: comma-separated fields, one record
/// per line, the first record being the header row.
pub fn parse(text: &str) -> (out: Result<Table, ParseError>)
    ensures
        viewed(out) == parse_outcome(text@),
        text@.len() == 0 ==> out == Err::<Table, ParseError>(ParseError::Empty),
{
    if text.is_empty() {
        return Err(ParseError::Empty);
    }
    if has_unterminated_quote(text) {
        return Err(ParseError::UnterminatedQuote);
    }
    match read_records(text) {
        Ok(records) => table_from_records(records),
        Err(_) => Err(ParseError::Rejected),
    }
}

/// Splitting the records of a table gives the table back: header row and
/// data rows, ragged ones too, in order.
pub proof fn lemma_records_round_trip(t: TableView)
    ensures
        table_of_records(records_of_table(t)) == Ok::<TableView, ParseError>(t),
{
    let records = records_of_table(t);
    assert(records.subrange(1, records.len() as int) =~= t.rows);
}

/// Parsing adds nothing to what the reader yields and takes nothing from
/// it: where the reader splits a text that has content and no quote into
/// the records of a table, parsing that text gives exactly that table.
pub proof fn lemma_plain_text_parses_to_its_records(text: Seq<char>, t: TableView)
    requires
        text.len() > 0,
        forall|i: int| 0 <= i < text.len() ==> text[i] != QUOTE,
    ensures
        csv_records(text) == Some(records_of_table(t)) ==> parse_outcome(text) == Ok::<
            TableView,
            ParseError,
        >(t),
{
    lemma_quote_free_is_terminated(text);
    lemma_records_round_trip(t);
}

} // verus!
