//! What the view shows of a table and a paging state.
//!
//! A screen is a function of the two and of nothing else. Rows are shown as
//! they are: a ragged row is neither padded nor cut.

use crate::pagination::{
    needs_paging, page_count_of, page_index_of, row_label_of, window, PaginationState, PagingView,
};
use crate::table::{Table, TableView};
use vstd::prelude::*;

verus! {

/// The paging controls, shown while the table has more rows than the limit.
/// The controls for the next page, for loading more and for loading all
/// come with them; the one for the previous page only where `show_prev`.
#[derive(Clone, Copy, Debug, PartialEq, Eq, Structural)]
pub struct Navigation {
    /// The current page, counted from 1.
    pub page_index: usize,
    /// The number of pages.
    pub page_count: usize,
    /// Whether paging back is offered.
    pub show_prev: bool,
}

/// The mathematical content of a [`Navigation`].
pub struct NavigationView {
    /// The current page, counted from 1.
    pub page_index: nat,
    /// The number of pages.
    pub page_count: nat,
    /// Whether paging back is offered.
    pub show_prev: bool,
}

impl View for Navigation {
    type V = NavigationView;

    open spec fn view(&self) -> NavigationView {
        NavigationView {
            page_index: self.page_index as nat,
            page_count: self.page_count as nat,
            show_prev: self.show_prev,
        }
    }
}

/// The line under the table.
#[derive(Clone, Debug, PartialEq, Eq)]
pub struct Footer {
    /// The paging controls, where paging is needed.
    pub navigation: Option<Navigation>,
    /// The text of the row-count label.
    pub row_label: String,
}

/// The mathematical content of a [`Footer`].
pub struct FooterView {
    /// The paging controls, where paging is needed.
    pub navigation: Option<NavigationView>,
    /// The text of the row-count label.
    pub row_label: Seq<char>,
}

impl View for Footer {
    type V = FooterView;

    open spec fn view(&self) -> FooterView {
        FooterView {
            navigation: match self.navigation {
                Some(n) => Some(n@),
                None => None,
            },
            row_label: self.row_label@,
        }
    }
}

/// Everything the view shows.
#[derive(Debug, PartialEq, Eq)]
pub struct Screen<'a> {
    /// The column names.
    pub headers: &'a [String],
    /// The visible rows.
    pub rows: &'a [Vec<String>],
    /// The line under the table; absent while no table is loaded.
    pub footer: Option<Footer>,
}

/// The mathematical content of a [`Screen`].
pub struct ScreenView {
    /// The column names.
    pub headers: Seq<Seq<char>>,
    /// The visible rows.
    pub rows: Seq<Seq<Seq<char>>>,
    /// The line under the table.
    pub footer: Option<FooterView>,
}

impl<'a> View for Screen<'a> {
    type V = ScreenView;

    open spec fn view(&self) -> ScreenView {
        ScreenView {
            headers: self.headers.deep_view(),
            rows: self.rows.deep_view(),
            footer: match self.footer {
                Some(f) => Some(f@),
                None => None,
            },
        }
    }
}

/// The paging controls for a table of `row_count` rows: present exactly
/// where the table has more rows than the limit.
pub open spec fn navigation_of(v: PagingView, row_count: nat) -> Option<NavigationView> {
    match page_count_of(v, row_count) {
        Some(count) => Some(
            NavigationView {
                page_index: page_index_of(v),
                page_count: count,
                show_prev: v.skip != 0,
            },
        ),
        None => None,
    }
}

/// The line under the table: present once a table with headers is loaded.
pub open spec fn footer_of(t: TableView, v: PagingView) -> Option<FooterView> {
    if t.headers.len() == 0 {
        None
    } else {
        Some(
            FooterView {
                navigation: navigation_of(v, t.rows.len()),
                row_label: row_label_of(v, t.rows.len()),
            },
        )
    }
}

/// What the view shows of table `t` under paging state `v`.
pub open spec fn screen_of(t: TableView, v: PagingView) -> ScreenView {
    ScreenView { headers: t.headers, rows: window(t.rows, v.skip, v.limit), footer: footer_of(t, v) }
}

/// The paging controls for a table of `row_count` rows.
pub fn navigation(paging: &PaginationState, row_count: usize) -> (out: Option<Navigation>)
    ensures
        out is Some <==> needs_paging(paging@, row_count as nat),
        (match out {
            Some(n) => Some(n@),
            None => None,
        }) == navigation_of(paging@, row_count as nat),
{
    match paging.page_count(row_count) {
        Some(page_count) => Some(
            Navigation {
                page_index: paging.page_index(),
                page_count,
                show_prev: paging.shows_prev(),
            },
        ),
        None => None,
    }
}

/// What the view shows of `table` under `paging`.
pub fn render<'a>(table: &'a Table, paging: &PaginationState) -> (out: Screen<'a>)
    ensures
        out@ == screen_of(table@, paging@),
{
    let rows = paging.visible(table.rows.as_slice());
    let footer = if table.headers.len() == 0 {
        None
    } else {
        let row_count = table.rows.len();
        Some(
            Footer {
                navigation: navigation(paging, row_count),
                row_label: paging.row_count_label(row_count),
            },
        )
    };
    let out = Screen { headers: table.headers.as_slice(), rows, footer };
    proof {
        assert(out@.headers =~= table@.headers);
        assert(out@.rows =~= window(table@.rows, paging@.skip, paging@.limit));
    }
    out
}

} // verus!
