//! The table that a delimited file parses to.

use vstd::prelude::*;

verus! {

/// A header row and the data rows under it, each row a sequence of cells.
///
/// Columns are told apart by position. A row may be ragged, that is hold
/// more or fewer cells than there are headers; see [`Table::is_rectangular`].
#[derive(Clone, Debug, PartialEq, Eq)]
pub struct Table {
    /// The column names, in file order.
    pub headers: Vec<String>,
    /// The data rows, in file order.
    pub rows: Vec<Vec<String>>,
}

/// The mathematical content of a [`Table`]: its cells as sequences of
/// characters.
pub struct TableView {
    /// The column names.
    pub headers: Seq<Seq<char>>,
    /// The data rows.
    pub rows: Seq<Seq<Seq<char>>>,
}

impl View for Table {
    type V = TableView;

    open spec fn view(&self) -> TableView {
        TableView { headers: self.headers.deep_view(), rows: self.rows.deep_view() }
    }
}

/// The table without headers and without rows.
pub open spec fn empty_table() -> TableView {
    TableView { headers: Seq::empty(), rows: Seq::empty() }
}

/// Whether every row has as many cells as there are headers.
pub open spec fn rectangular(t: TableView) -> bool {
    forall|i: int| 0 <= i < t.rows.len() ==> (#[trigger] t.rows[i]).len() == t.headers.len()
}

impl Table {
    /// The table before any file is opened: no headers, no rows.
    pub fn new() -> (out: Self)
        ensures
            out@ == empty_table(),
    {
        let out = Table { headers: Vec::new(), rows: Vec::new() };
        proof {
            assert(out@.headers =~= Seq::empty());
            assert(out@.rows =~= Seq::empty());
        }
        out
    }

    /// The number of data rows.
    pub fn row_count(&self) -> (out: usize)
        ensures
            out == self@.rows.len(),
    {
        self.rows.len()
    }

    /// Whether every row has as many cells as there are headers.
    pub fn is_rectangular(&self) -> (out: bool)
        ensures
            out == rectangular(self@),
    {
        let width = self.headers.len();
        let mut i: usize = 0;
        while i < self.rows.len()
            invariant
                i <= self.rows.len(),
                width == self@.headers.len(),
                forall|j: int| 0 <= j < i ==> (#[trigger] self@.rows[j]).len() == width,
            decreases self.rows.len() - i,
        {
            if self.rows[i].len() != width {
                assert(self@.rows[i as int].len() != self@.headers.len());
                return false;
            }
            i = i + 1;
        }
        true
    }
}

} // verus!
