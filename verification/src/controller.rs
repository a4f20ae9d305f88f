//! The open-file flow and the paging actions, as one state machine.
//!
//! The controller owns the table and the paging state. It performs no
//! input or output: each transition says what the host is to do next, and
//! the host reports back what came of it. Every report carries the ticket
//! of the flow it belongs to, so that a report of a superseded flow is
//! recognised and dropped.

use crate::dialog::{csv_only, FilterView, OpenFileOptions};
use crate::pagination::{
    after_load_all, after_load_more, after_next, after_prev, after_reset, fresh, valid,
    PaginationState, PagingView,
};
use crate::parser::{parse, parse_outcome, viewed, ParseError};
use crate::screen::{render, screen_of, Screen};
use crate::table::{empty_table, Table, TableView};
use vstd::prelude::*;

verus! {

/// Where the open-file flow stands.
#[derive(Clone, Copy, Debug, PartialEq, Eq, Structural)]
pub enum Flow {
    /// No open is in progress: none was started yet, or the last one was
    /// cancelled or failed.
    Idle,
    /// The file picker has been asked and has not answered.
    AwaitingPick,
    /// The file reader has been asked and has not answered.
    AwaitingRead,
    /// No open is in progress, and the last one loaded the current table.
    Ready,
}

/// What the user is told when an open fails.
#[derive(Clone, Copy, Debug, PartialEq, Eq, Structural)]
pub enum Notice {
    /// The picked file could not be read.
    ReadFailure,
    /// The file was read and is no delimited text.
    ParseFailure(ParseError),
}

/// The four paging actions.
#[derive(Clone, Copy, Debug, PartialEq, Eq, Structural)]
pub enum PageAction {
    /// One page forward.
    Next,
    /// One page back.
    Prev,
    /// One page more in the window.
    LoadMore,
    /// All rows in the window.
    LoadAll,
}

/// What the host is to do after a transition.
#[derive(Clone, Debug, PartialEq, Eq)]
pub enum Effect {
    /// Nothing.
    Nothing,
    /// Ask the file picker, and report its answer under `ticket`.
    PickFile { ticket: u64, options: OpenFileOptions },
    /// Ask the file reader for the text at `path`, and report it under
    /// `ticket`.
    ReadFile { ticket: u64, path: String },
    /// Draw the screen again.
    Render,
    /// Tell the user of a failure.
    Notify(Notice),
}

/// The mathematical content of an [`Effect`].
pub enum EffectView {
    /// Nothing.
    Nothing,
    /// Ask the file picker.
    PickFile { ticket: nat, options: Seq<FilterView> },
    /// Ask the file reader.
    ReadFile { ticket: nat, path: Seq<char> },
    /// Draw the screen again.
    Render,
    /// Tell the user of a failure.
    Notify(Notice),
}

impl View for Effect {
    type V = EffectView;

    open spec fn view(&self) -> EffectView {
        match *self {
            Effect::Nothing => EffectView::Nothing,
            Effect::PickFile { ticket, options } => EffectView::PickFile {
                ticket: ticket as nat,
                options: options@,
            },
            Effect::ReadFile { ticket, path } => EffectView::ReadFile {
                ticket: ticket as nat,
                path: path@,
            },
            Effect::Render => EffectView::Render,
            Effect::Notify(notice) => EffectView::Notify(notice),
        }
    }
}

/// What can happen to the controller.
#[derive(Clone, Debug, PartialEq, Eq)]
pub enum Event {
    /// The user asks to open a file.
    Open,
    /// The file picker answers: a path, or nothing when the user cancelled.
    Picked { ticket: u64, selection: Option<String> },
    /// The file reader answers: the text, or nothing when reading failed.
    ReadDone { ticket: u64, text: Option<String> },
    /// The user asks for a paging action.
    Page(PageAction),
}

/// The mathematical content of an [`Event`].
pub enum EventView {
    /// The user asks to open a file.
    Open,
    /// The file picker answers.
    Picked { ticket: nat, selection: Option<Seq<char>> },
    /// The file reader answers.
    ReadDone { ticket: nat, text: Option<Seq<char>> },
    /// The user asks for a paging action.
    Page(PageAction),
}

/// An optional string by its characters.
pub open spec fn chars_of(text: Option<String>) -> Option<Seq<char>> {
    match text {
        Some(s) => Some(s@),
        None => None,
    }
}

impl View for Event {
    type V = EventView;

    open spec fn view(&self) -> EventView {
        match *self {
            Event::Open => EventView::Open,
            Event::Picked { ticket, selection } => EventView::Picked {
                ticket: ticket as nat,
                selection: chars_of(selection),
            },
            Event::ReadDone { ticket, text } => EventView::ReadDone {
                ticket: ticket as nat,
                text: chars_of(text),
            },
            Event::Page(action) => EventView::Page(action),
        }
    }
}

/// The mathematical content of a [`Controller`].
pub struct ControllerView {
    /// Where the open-file flow stands.
    pub flow: Flow,
    /// The ticket of the flow started last; zero before the first.
    pub ticket: nat,
    /// The current table.
    pub table: TableView,
    /// The current paging state.
    pub paging: PagingView,
}

/// The controller before anything has happened.
pub open spec fn initial(step: nat) -> ControllerView {
    ControllerView {
        flow: Flow::Idle,
        ticket: 0,
        table: empty_table(),
        paging: fresh(step),
    }
}

/// A pair of the next state and nothing to do.
pub open spec fn ignored(c: ControllerView) -> (ControllerView, EffectView) {
    (c, EffectView::Nothing)
}

/// The user asks to open a file: a new flow starts, whatever flow was under
/// way, and the picker is asked for a `csv` file. Once the tickets are used
/// up no flow can be told from an older one, and the request is dropped.
pub open spec fn on_open(c: ControllerView) -> (ControllerView, EffectView) {
    if c.ticket < u64::MAX {
        (
            ControllerView { flow: Flow::AwaitingPick, ticket: c.ticket + 1, ..c },
            EffectView::PickFile { ticket: c.ticket + 1, options: csv_only() },
        )
    } else {
        ignored(c)
    }
}

/// The picker answers. An answer for another flow than the current one, or
/// one that is not awaited, is dropped. A cancelled pick ends the flow and
/// touches neither table nor paging; a path goes to the file reader.
pub open spec fn on_picked(c: ControllerView, ticket: nat, selection: Option<Seq<char>>) -> (
    ControllerView,
    EffectView,
) {
    if c.flow == Flow::AwaitingPick && ticket == c.ticket {
        match selection {
            Some(path) => (
                ControllerView { flow: Flow::AwaitingRead, ..c },
                EffectView::ReadFile { ticket, path },
            ),
            None => (ControllerView { flow: Flow::Idle, ..c }, EffectView::Nothing),
        }
    } else {
        ignored(c)
    }
}

/// The text of the picked file has been parsed. A result for another flow
/// than the current one, or one that is not awaited, is dropped. A table
/// replaces the current one and paging starts over; a failure ends the flow
/// and touches neither.
pub open spec fn on_parsed(
    c: ControllerView,
    ticket: nat,
    parsed: Result<TableView, ParseError>,
) -> (ControllerView, EffectView) {
    if c.flow == Flow::AwaitingRead && ticket == c.ticket {
        match parsed {
            Ok(table) => (
                ControllerView { flow: Flow::Ready, table, paging: after_reset(c.paging), ..c },
                EffectView::Render,
            ),
            Err(e) => (
                ControllerView { flow: Flow::Idle, ..c },
                EffectView::Notify(Notice::ParseFailure(e)),
            ),
        }
    } else {
        ignored(c)
    }
}

/// The file reader answers. An answer for another flow than the current
/// one, or one that is not awaited, is dropped. A failed read ends the flow
/// and touches neither table nor paging; a text is parsed.
pub open spec fn on_read(c: ControllerView, ticket: nat, text: Option<Seq<char>>) -> (
    ControllerView,
    EffectView,
) {
    if c.flow == Flow::AwaitingRead && ticket == c.ticket {
        match text {
            Some(content) => on_parsed(c, ticket, parse_outcome(content)),
            None => (
                ControllerView { flow: Flow::Idle, ..c },
                EffectView::Notify(Notice::ReadFailure),
            ),
        }
    } else {
        ignored(c)
    }
}

/// What a paging action makes of a paging state.
pub open spec fn paged(v: PagingView, action: PageAction) -> PagingView {
    match action {
        PageAction::Next => after_next(v),
        PageAction::Prev => after_prev(v),
        PageAction::LoadMore => after_load_more(v),
        PageAction::LoadAll => after_load_all(v),
    }
}

/// The user asks for a paging action. It applies to the paging state in
/// every state of the flow: the table on display can be paged while an open
/// is under way, and after one that was cancelled or failed. The table is
/// not touched, and nothing is read or parsed.
pub open spec fn on_page(c: ControllerView, action: PageAction) -> (ControllerView, EffectView) {
    (ControllerView { paging: paged(c.paging, action), ..c }, EffectView::Render)
}

/// The transition for any event.
pub open spec fn on_event(c: ControllerView, event: EventView) -> (ControllerView, EffectView) {
    match event {
        EventView::Open => on_open(c),
        EventView::Picked { ticket, selection } => on_picked(c, ticket, selection),
        EventView::ReadDone { ticket, text } => on_read(c, ticket, text),
        EventView::Page(action) => on_page(c, action),
    }
}

/// The state of the viewer: the open-file flow, the table and its paging.
#[derive(Debug)]
pub struct Controller {
    flow: Flow,
    ticket: u64,
    table: Table,
    pagination: PaginationState,
}

impl View for Controller {
    type V = ControllerView;

    closed spec fn view(&self) -> ControllerView {
        ControllerView {
            flow: self.flow,
            ticket: self.ticket as nat,
            table: self.table@,
            paging: self.pagination@,
        }
    }
}

impl Controller {
    /// A controller with no table, paging by `page_step` rows.
    pub fn new(page_step: usize) -> (out: Self)
        requires
            page_step >= 1,
        ensures
            out@ == initial(page_step as nat),
    {
        Controller {
            flow: Flow::Idle,
            ticket: 0,
            table: Table::new(),
            pagination: PaginationState::new(page_step),
        }
    }

    /// Where the open-file flow stands.
    pub fn flow(&self) -> (out: Flow)
        ensures
            out == self@.flow,
    {
        self.flow
    }

    /// The ticket of the flow started last.
    pub fn ticket(&self) -> (out: u64)
        ensures
            out == self@.ticket,
    {
        self.ticket
    }

    /// The current table.
    pub fn table(&self) -> (out: &Table)
        ensures
            out@ == self@.table,
    {
        &self.table
    }

    /// The current paging state.
    pub fn pagination(&self) -> (out: &PaginationState)
        ensures
            out@ == self@.paging,
            valid(self@.paging),
    {
        proof {
            use_type_invariant(&self.pagination);
        }
        &self.pagination
    }

    /// What the view shows in this state.
    pub fn screen(&self) -> (out: Screen<'_>)
        ensures
            out@ == screen_of(self@.table, self@.paging),
    {
        render(&self.table, &self.pagination)
    }

    /// The user asks to open a file.
    pub fn open(&mut self) -> (out: Effect)
        ensures
            (final(self)@, out@) == on_open(old(self)@),
    {
        if self.ticket < u64::MAX {
            self.ticket = self.ticket + 1;
            self.flow = Flow::AwaitingPick;
            Effect::PickFile { ticket: self.ticket, options: OpenFileOptions::default() }
        } else {
            Effect::Nothing
        }
    }

    /// The file picker answers under `ticket`: a path, or nothing when the
    /// user cancelled.
    pub fn picked(&mut self, ticket: u64, selection: Option<String>) -> (out: Effect)
        ensures
            (final(self)@, out@) == on_picked(old(self)@, ticket as nat, chars_of(selection)),
            selection is None ==> final(self)@.table == old(self)@.table && final(self)@.paging
                == old(self)@.paging,
    {
        if self.flow != Flow::AwaitingPick || ticket != self.ticket {
            return Effect::Nothing;
        }
        match selection {
            Some(path) => {
                self.flow = Flow::AwaitingRead;
                Effect::ReadFile { ticket, path }
            },
            None => {
                self.flow = Flow::Idle;
                Effect::Nothing
            },
        }
    }

    /// The text of the picked file has been parsed, with result `parsed`,
    /// for the flow of `ticket`.
    pub fn commit(&mut self, ticket: u64, parsed: Result<Table, ParseError>) -> (out: Effect)
        ensures
            (final(self)@, out@) == on_parsed(old(self)@, ticket as nat, viewed(parsed)),
            parsed is Err ==> final(self)@.table == old(self)@.table && final(self)@.paging
                == old(self)@.paging,
    {
        if self.flow != Flow::AwaitingRead || ticket != self.ticket {
            return Effect::Nothing;
        }
        match parsed {
            Ok(table) => {
                self.table = table;
                self.pagination.reset_for_new_table();
                self.flow = Flow::Ready;
                Effect::Render
            },
            Err(e) => {
                self.flow = Flow::Idle;
                Effect::Notify(Notice::ParseFailure(e))
            },
        }
    }

    /// The file reader answers under `ticket`: the text of the file, or
    /// nothing when it could not be read.
    pub fn read_completed(&mut self, ticket: u64, text: Option<String>) -> (out: Effect)
        ensures
            (final(self)@, out@) == on_read(old(self)@, ticket as nat, chars_of(text)),
            text is None ==> final(self)@.table == old(self)@.table && final(self)@.paging
                == old(self)@.paging,
    {
        if self.flow != Flow::AwaitingRead || ticket != self.ticket {
            return Effect::Nothing;
        }
        match text {
            Some(content) => {
                let parsed = parse(content.as_str());
                self.commit(ticket, parsed)
            },
            None => {
                self.flow = Flow::Idle;
                Effect::Notify(Notice::ReadFailure)
            },
        }
    }

    /// The user asks for a paging action.
    pub fn paginate(&mut self, action: PageAction) -> (out: Effect)
        ensures
            (final(self)@, out@) == on_page(old(self)@, action),
            final(self)@.table == old(self)@.table,
            final(self)@.flow == old(self)@.flow,
    {
        match action {
            PageAction::Next => self.pagination.next_page(),
            PageAction::Prev => self.pagination.prev_page(),
            PageAction::LoadMore => self.pagination.load_more(),
            PageAction::LoadAll => self.pagination.load_all(),
        }
        Effect::Render
    }

    /// Takes one event and says what the host is to do next.
    pub fn step(&mut self, event: Event) -> (out: Effect)
        ensures
            (final(self)@, out@) == on_event(old(self)@, event@),
    {
        match event {
            Event::Open => self.open(),
            Event::Picked { ticket, selection } => self.picked(ticket, selection),
            Event::ReadDone { ticket, text } => self.read_completed(ticket, text),
            Event::Page(action) => self.paginate(action),
        }
    }
}

impl Default for Controller {
    /// A controller with no table and the standard page size.
    fn default() -> (out: Self)
        ensures
            out@ == initial(crate::pagination::PAGE_STEP as nat),
    {
        Controller::new(crate::pagination::PAGE_STEP)
    }
}

/// The table is replaced on success only: an event either leaves table and
/// paging state as they were, or is a paging action and leaves the table,
/// or is a text that parsed, whose table replaces the current one while
/// paging starts over.
pub proof fn lemma_replace_on_success_only(c: ControllerView, event: EventView)
    ensures
        ({
            let next = on_event(c, event).0;
            ||| (next.table == c.table && next.paging == c.paging)
            ||| (event matches EventView::Page(action) && next.table == c.table && next.paging
                == paged(c.paging, action))
            ||| (event matches EventView::ReadDone { ticket, text: Some(content) }
                && parse_outcome(content) matches Ok(table) && c.flow == Flow::AwaitingRead
                && ticket == c.ticket && next.table == table && next.paging == after_reset(
                c.paging,
            ) && next.flow == Flow::Ready)
        }),
{
}

/// A cancelled pick leaves the table and the paging state fully intact,
/// whatever was loaded before and whichever flow the answer belongs to.
pub proof fn lemma_cancel_keeps_table(c: ControllerView, ticket: nat)
    ensures
        on_picked(c, ticket, None).0.table == c.table,
        on_picked(c, ticket, None).0.paging == c.paging,
        on_picked(c, ticket, None).1 == EffectView::Nothing,
{
}

/// A report under another ticket than that of the flow started last changes
/// nothing and asks for nothing, so only the latest flow is ever committed.
pub proof fn lemma_stale_report_is_dropped(
    c: ControllerView,
    ticket: nat,
    selection: Option<Seq<char>>,
    text: Option<Seq<char>>,
    parsed: Result<TableView, ParseError>,
)
    requires
        ticket != c.ticket,
    ensures
        on_picked(c, ticket, selection) == ignored(c),
        on_read(c, ticket, text) == ignored(c),
        on_parsed(c, ticket, parsed) == ignored(c),
{
}

/// Every open starts a flow with a ticket that no earlier flow had.
pub proof fn lemma_open_takes_new_ticket(c: ControllerView)
    requires
        c.ticket < u64::MAX,
    ensures
        on_open(c).0.ticket > c.ticket,
        on_open(c).0.flow == Flow::AwaitingPick,
        on_open(c).0.table == c.table,
        on_open(c).0.paging == c.paging,
{
}

/// No event leads out of the valid paging states.
pub proof fn lemma_paging_stays_valid(c: ControllerView, event: EventView)
    requires
        valid(c.paging),
    ensures
        valid(on_event(c, event).0.paging),
{
    crate::pagination::lemma_actions_keep_valid(c.paging);
}

} // verus!
