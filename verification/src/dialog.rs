//! What the file picker is asked for.

use vstd::prelude::*;

verus! {

/// One entry of the picker's file-type list.
#[derive(Clone, Debug, PartialEq, Eq)]
pub struct Filter {
    /// The name shown for the file type.
    pub name: String,
    /// The file extensions that belong to it, without dots.
    pub extensions: Vec<String>,
}

/// The mathematical content of a [`Filter`].
pub struct FilterView {
    /// The name shown for the file type.
    pub name: Seq<char>,
    /// The file extensions that belong to it.
    pub extensions: Seq<Seq<char>>,
}

impl View for Filter {
    type V = FilterView;

    open spec fn view(&self) -> FilterView {
        FilterView { name: self.name@, extensions: self.extensions.deep_view() }
    }
}

/// The options handed to the file picker.
#[derive(Clone, Debug, PartialEq, Eq)]
pub struct OpenFileOptions {
    /// The file types the picker offers.
    pub filters: Vec<Filter>,
}

impl View for OpenFileOptions {
    type V = Seq<FilterView>;

    open spec fn view(&self) -> Seq<FilterView> {
        Seq::new(self.filters@.len(), |i: int| self.filters@[i]@)
    }
}

/// The one filter of the viewer: files with the extension `csv`.
pub open spec fn csv_only() -> Seq<FilterView> {
    seq![FilterView { name: "CSV"@, extensions: seq!["csv"@] }]
}

impl Default for OpenFileOptions {
    /// Options that restrict the picker to `csv` files.
    fn default() -> (out: Self)
        ensures
            out@ == csv_only(),
    {
        let mut extensions: Vec<String> = Vec::new();
        extensions.push("csv".to_owned());
        let mut filters: Vec<Filter> = Vec::new();
        filters.push(Filter { name: "CSV".to_owned(), extensions });
        let out = OpenFileOptions { filters };
        proof {
            assert(out.filters@[0].extensions.deep_view() =~= seq!["csv"@]);
            assert(out@ =~= csv_only());
        }
        out
    }
}

} // verus!
