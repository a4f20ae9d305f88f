//! The paging state of a table view: how many rows to skip and how many to
//! show, the window of rows that follows from it, and what the view displays
//! about it.

use crate::decimal::{decimal, push_char, push_decimal};
use vstd::prelude::*;

verus! {

/// The page size used when no other is chosen.
pub const PAGE_STEP: usize = 50;

/// The largest number of rows a window may hold.
#[derive(Clone, Copy, Debug, PartialEq, Eq, Structural)]
pub enum Limit {
    /// At most this many rows.
    Rows(usize),
    /// Every row there is.
    Unbounded,
}

impl View for Limit {
    type V = Option<nat>;

    open spec fn view(&self) -> Option<nat> {
        match *self {
            Limit::Rows(n) => Some(n as nat),
            Limit::Unbounded => None,
        }
    }
}

/// The mathematical content of a [`PaginationState`].
pub struct PagingView {
    /// Rows left out before the window.
    pub skip: nat,
    /// Rows the window may hold; `None` when unbounded.
    pub limit: Option<nat>,
    /// The granularity of paging.
    pub step: nat,
}

/// What holds of every paging state: the step is positive, `skip` is a whole
/// number of steps, a bounded limit is positive, and everything fits a
/// machine word (`skip` strictly, so that a page number fits too).
pub open spec fn valid(v: PagingView) -> bool {
    &&& 1 <= v.step <= usize::MAX
    &&& v.skip % v.step == 0
    &&& v.skip < usize::MAX
    &&& v.limit matches Some(n) ==> 1 <= n <= usize::MAX
}

/// The state a freshly loaded table starts with.
pub open spec fn fresh(step: nat) -> PagingView {
    PagingView { skip: 0, limit: Some(step), step }
}

/// Back to the first page of one step.
pub open spec fn after_reset(v: PagingView) -> PagingView {
    fresh(v.step)
}

/// One page forward. No bound taken from a table applies; only at the end
/// of the machine range, where no further page can be addressed, the state
/// stays as it is.
pub open spec fn after_next(v: PagingView) -> PagingView {
    if v.skip + v.step < usize::MAX {
        PagingView { skip: v.skip + v.step, ..v }
    } else {
        v
    }
}

/// One page back, never below zero.
pub open spec fn after_prev(v: PagingView) -> PagingView {
    PagingView { skip: if v.skip >= v.step { (v.skip - v.step) as nat } else { 0 }, ..v }
}

/// The window widened by one step. A limit too large for a machine word is
/// larger than any table and becomes unbounded.
pub open spec fn after_load_more(v: PagingView) -> PagingView {
    PagingView {
        limit: match v.limit {
            Some(n) => if n + v.step <= usize::MAX { Some(n + v.step) } else { None },
            None => None,
        },
        ..v
    }
}

/// Everything visible from the first row on.
pub open spec fn after_load_all(v: PagingView) -> PagingView {
    PagingView { skip: 0, limit: None, ..v }
}

/// Where the window starts in a table of `len` rows.
pub open spec fn window_start(len: nat, skip: nat) -> nat {
    if skip <= len { skip } else { len }
}

/// How many rows the window holds in a table of `len` rows.
pub open spec fn window_len(len: nat, skip: nat, limit: Option<nat>) -> nat {
    let rest = (len - window_start(len, skip)) as nat;
    match limit {
        Some(n) => if n < rest { n } else { rest },
        None => rest,
    }
}

/// The visible rows: those from `skip` on, at most `limit` of them.
pub open spec fn window<T>(rows: Seq<T>, skip: nat, limit: Option<nat>) -> Seq<T> {
    let start = window_start(rows.len(), skip);
    rows.subrange(start as int, (start + window_len(rows.len(), skip, limit)) as int)
}

/// `rows` without its first `n` elements; empty when it has no more than `n`.
pub open spec fn drop_rows<T>(rows: Seq<T>, n: nat) -> Seq<T> {
    if n <= rows.len() { rows.subrange(n as int, rows.len() as int) } else { Seq::empty() }
}

/// The first `n` elements of `rows`; all of it when it has no more than `n`.
pub open spec fn take_rows<T>(rows: Seq<T>, n: nat) -> Seq<T> {
    if n <= rows.len() { rows.subrange(0, n as int) } else { rows }
}

/// The page number (from 1) that `skip` stands on.
pub open spec fn page_index_of(v: PagingView) -> nat {
    v.skip / v.step + 1
}

/// Whether a table of `row_count` rows has more rows than one window shows.
pub open spec fn needs_paging(v: PagingView, row_count: nat) -> bool {
    v.limit matches Some(n) && row_count > n
}

/// The number of pages on display, where paging is needed.
pub open spec fn page_count_of(v: PagingView, row_count: nat) -> Option<nat> {
    match v.limit {
        Some(n) => if row_count > n { Some(row_count / n) } else { None },
        None => None,
    }
}

/// How many rows to skip and how many to show, in steps of a fixed page size.
///
/// The state holds no reference to a table: it is read against a row count
/// whenever a window or a label is wanted.
#[derive(Clone, Copy, Debug, PartialEq, Eq)]
pub struct PaginationState {
    skip: usize,
    limit: Limit,
    page_step: usize,
}

impl View for PaginationState {
    type V = PagingView;

    closed spec fn view(&self) -> PagingView {
        PagingView { skip: self.skip as nat, limit: self.limit@, step: self.page_step as nat }
    }
}

impl PaginationState {
    /// Every state that executable code can hold is valid.
    #[verifier::type_invariant]
    pub open spec fn wf(&self) -> bool {
        valid(self@)
    }

    /// The state for a new table: nothing skipped, one page shown.
    pub fn new(page_step: usize) -> (out: Self)
        requires
            page_step >= 1,
        ensures
            out@ == fresh(page_step as nat),
            out.wf(),
    {
        proof {
            lemma_step_multiples(0, page_step as int);
        }
        PaginationState { skip: 0, limit: Limit::Rows(page_step), page_step }
    }

    /// The number of rows left out before the window.
    pub fn skip(&self) -> (out: usize)
        ensures
            out == self@.skip,
    {
        self.skip
    }

    /// The number of rows the window may hold.
    pub fn limit(&self) -> (out: Limit)
        ensures
            out@ == self@.limit,
    {
        self.limit
    }

    /// The page size that paging moves by.
    pub fn page_step(&self) -> (out: usize)
        ensures
            out == self@.step,
            out >= 1,
    {
        proof {
            use_type_invariant(self);
        }
        self.page_step
    }

    /// Moves the window one page forward.
    pub fn next_page(&mut self)
        ensures
            final(self)@ == after_next(old(self)@),
            final(self).wf(),
    {
        proof {
            use_type_invariant(&*self);
        }
        if self.page_step < usize::MAX - self.skip {
            proof {
                lemma_step_multiples(self.skip as int, self.page_step as int);
            }
            self.skip = self.skip + self.page_step;
        }
    }

    /// Moves the window one page back; at the first page it stays there.
    pub fn prev_page(&mut self)
        ensures
            final(self)@ == after_prev(old(self)@),
            old(self)@.skip == 0 ==> final(self)@.skip == 0,
            final(self).wf(),
    {
        proof {
            use_type_invariant(&*self);
        }
        if self.skip >= self.page_step {
            proof {
                lemma_step_multiples(self.skip as int, self.page_step as int);
            }
            self.skip = self.skip - self.page_step;
        } else {
            proof {
                lemma_step_multiples(self.skip as int, self.page_step as int);
            }
            self.skip = 0;
        }
    }

    /// Widens the window by one page and leaves its start where it is.
    pub fn load_more(&mut self)
        ensures
            final(self)@ == after_load_more(old(self)@),
            final(self)@.skip == old(self)@.skip,
            final(self).wf(),
    {
        proof {
            use_type_invariant(&*self);
        }
        self.limit = match self.limit {
            Limit::Rows(n) => match n.checked_add(self.page_step) {
                Some(wider) => Limit::Rows(wider),
                None => Limit::Unbounded,
            },
            Limit::Unbounded => Limit::Unbounded,
        };
    }

    /// Shows every row from the first one on.
    pub fn load_all(&mut self)
        ensures
            final(self)@ == after_load_all(old(self)@),
            final(self).wf(),
    {
        proof {
            use_type_invariant(&*self);
            lemma_step_multiples(self.skip as int, self.page_step as int);
        }
        self.skip = 0;
        self.limit = Limit::Unbounded;
    }

    /// Returns to the first page of one step, whatever the state was.
    pub fn reset_for_new_table(&mut self)
        ensures
            final(self)@ == after_reset(old(self)@),
            final(self)@.skip == 0,
            final(self)@.limit == Some(old(self)@.step),
            final(self).wf(),
    {
        proof {
            use_type_invariant(&*self);
            lemma_step_multiples(self.skip as int, self.page_step as int);
        }
        self.skip = 0;
        self.limit = Limit::Rows(self.page_step);
    }

    /// The rows of `rows` that this state makes visible.
    pub fn visible<'a, T>(&self, rows: &'a [T]) -> (out: &'a [T])
        ensures
            out@ == window(rows@, self@.skip, self@.limit),
    {
        visible_rows(rows, self.skip, self.limit)
    }

    /// The page number, from 1, that the window starts on.
    pub fn page_index(&self) -> (out: usize)
        ensures
            out == page_index_of(self@),
            out >= 1,
    {
        proof {
            use_type_invariant(self);
            lemma_quotient_bounded(self.skip as int, self.page_step as int);
        }
        self.skip / self.page_step + 1
    }

    /// Whether a table of `row_count` rows needs the paging controls.
    pub fn needs_pagination(&self, row_count: usize) -> (out: bool)
        ensures
            out == needs_paging(self@, row_count as nat),
    {
        match self.limit {
            Limit::Rows(n) => row_count > n,
            Limit::Unbounded => false,
        }
    }

    /// The page count to display for a table of `row_count` rows: the whole
    /// number of windows that fit, given where paging is needed only.
    pub fn page_count(&self, row_count: usize) -> (out: Option<usize>)
        ensures
            out is Some <==> needs_paging(self@, row_count as nat),
            match out {
                Some(n) => page_count_of(self@, row_count as nat) == Some(n as nat),
                None => page_count_of(self@, row_count as nat) is None,
            },
    {
        proof {
            use_type_invariant(self);
        }
        match self.limit {
            Limit::Rows(n) => if row_count > n {
                Some(row_count / n)
            } else {
                None
            },
            Limit::Unbounded => None,
        }
    }

    /// The row-count label for a table of `row_count` rows.
    pub fn row_count_label(&self, row_count: usize) -> (out: String)
        ensures
            out@ == row_label_of(self@, row_count as nat),
    {
        let mut out = String::new();
        match self.limit {
            Limit::Rows(n) => {
                if row_count >= n {
                    push_decimal(&mut out, n);
                    push_char(&mut out, '/');
                }
            },
            Limit::Unbounded => {},
        }
        push_decimal(&mut out, row_count);
        assert(out@ =~= row_label_of(self@, row_count as nat));
        out
    }

    /// Whether the control that pages back is offered.
    pub fn shows_prev(&self) -> (out: bool)
        ensures
            out == (self@.skip != 0),
    {
        self.skip != 0
    }
}

impl Default for PaginationState {
    /// The state for a new table with the standard page size.
    fn default() -> (out: Self)
        ensures
            out@ == fresh(PAGE_STEP as nat),
    {
        PaginationState::new(PAGE_STEP)
    }
}

/// Zero is a whole number of steps, and adding a step to, or taking one
/// from, a whole number of steps leaves a whole number of steps.
proof fn lemma_step_multiples(skip: int, step: int)
    requires
        step >= 1,
        skip >= 0,
        skip % step == 0,
    ensures
        0int % step == 0,
        (skip + step) % step == 0,
        (skip - step) % step == 0,
{
    vstd::arithmetic::div_mod::lemma_small_mod(0, step as nat);
    vstd::arithmetic::div_mod::lemma_mod_add_multiples_vanish(skip, step);
    vstd::arithmetic::div_mod::lemma_mod_sub_multiples_vanish(skip, step);
}

/// A quotient by a positive step is no larger than what was divided.
proof fn lemma_quotient_bounded(skip: int, step: int)
    requires
        step >= 1,
        skip >= 0,
    ensures
        0 <= skip / step <= skip,
{
    vstd::arithmetic::div_mod::lemma_div_pos_is_pos(skip, step);
    vstd::arithmetic::div_mod::lemma_div_is_ordered_by_denominator(skip, 1, step);
}

/// The text of the row-count label: the row count alone while it is below
/// the limit, else the limit, a stroke and the row count.
pub open spec fn row_label_of(v: PagingView, row_count: nat) -> Seq<char> {
    match v.limit {
        Some(n) => if row_count < n {
            decimal(row_count)
        } else {
            decimal(n) + seq!['/'] + decimal(row_count)
        },
        None => decimal(row_count),
    }
}

/// The rows from `skip` on, at most `limit` of them, borrowed from `rows`.
pub fn visible_rows<T>(rows: &[T], skip: usize, limit: Limit) -> (out: &[T])
    ensures
        out@ == window(rows@, skip as nat, limit@),
        out@ == take_rows(drop_rows(rows@, skip as nat), match limit@ {
            Some(n) => n,
            None => rows@.len(),
        }),
        skip <= rows@.len() ==> out@.len() == match limit@ {
            Some(n) => if n < rows@.len() - skip { n as int } else { rows@.len() - skip },
            None => rows@.len() - skip,
        },
        skip > rows@.len() ==> out@.len() == 0,
        forall|i: int| 0 <= i < out@.len() ==> out@[i] == rows@[skip + i],
{
    let len = rows.len();
    let start = if skip <= len { skip } else { len };
    let rest = len - start;
    let count = match limit {
        Limit::Rows(n) => if n < rest { n } else { rest },
        Limit::Unbounded => rest,
    };
    proof {
        lemma_window_is_drop_then_take(rows@, skip as nat, limit@);
    }
    &rows[start..start + count]
}

/// The window over `rows` is what remains after dropping the first `skip`
/// rows and then taking at most `limit` of the rest.
pub proof fn lemma_window_is_drop_then_take<T>(rows: Seq<T>, skip: nat, limit: Option<nat>)
    ensures
        window(rows, skip, limit) == take_rows(drop_rows(rows, skip), match limit {
            Some(n) => n,
            None => rows.len(),
        }),
{
    let dropped = drop_rows(rows, skip);
    let n = match limit {
        Some(n) => n,
        None => rows.len(),
    };
    assert(window(rows, skip, limit) =~= take_rows(dropped, n));
}

/// For a `skip` inside the table and a positive limit, the window holds
/// exactly `min(limit, row count - skip)` rows, and its `i`-th row is the
/// table's row `skip + i`: no row outside the table is ever addressed.
pub proof fn lemma_window_exact<T>(rows: Seq<T>, skip: nat, limit: nat)
    requires
        skip <= rows.len(),
        limit >= 1,
    ensures
        window(rows, skip, Some(limit)).len() == if limit < rows.len() - skip {
            limit as int
        } else {
            rows.len() - skip
        },
        forall|i: int|
            0 <= i < window(rows, skip, Some(limit)).len() ==> 0 <= skip + i < rows.len()
                && window(rows, skip, Some(limit))[i] == rows[skip + i],
{
}

/// Every paging action leads from a valid state to a valid state; in
/// particular `skip` stays a whole number of steps and never wraps.
pub proof fn lemma_actions_keep_valid(v: PagingView)
    requires
        valid(v),
    ensures
        valid(after_next(v)),
        valid(after_prev(v)),
        valid(after_load_more(v)),
        valid(after_load_all(v)),
        valid(after_reset(v)),
{
    lemma_step_multiples(v.skip as int, v.step as int);
}

/// Paging back from the first page stays on the first page.
pub proof fn lemma_prev_page_floor(v: PagingView)
    requires
        valid(v),
        v.skip == 0,
    ensures
        after_prev(v).skip == 0,
{
}

/// A reset gives the same state whatever the state before, so a second
/// reset changes nothing.
pub proof fn lemma_reset_idempotent(v: PagingView, w: PagingView)
    requires
        v.step == w.step,
    ensures
        after_reset(v) == after_reset(w),
        after_reset(after_reset(v)) == after_reset(v),
        after_reset(v).skip == 0,
        after_reset(v).limit == Some(v.step),
{
}

/// After loading all, the window is the whole table, however long it is.
pub proof fn lemma_load_all_shows_every_row<T>(v: PagingView, rows: Seq<T>)
    ensures
        window(rows, after_load_all(v).skip, after_load_all(v).limit) == rows,
{
    assert(window(rows, 0, None) =~= rows);
}

/// A limit that no machine word can hold shows the same rows of any table
/// as no limit at all, which is why widening past that size gives up the
/// bound.
pub proof fn lemma_huge_limit_is_unbounded<T>(rows: Seq<T>, skip: nat, limit: nat)
    requires
        rows.len() <= usize::MAX,
        limit > usize::MAX,
    ensures
        window(rows, skip, Some(limit)) == window(rows, skip, None),
{
}

} // verus!
