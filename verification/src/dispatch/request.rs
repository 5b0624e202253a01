//! What a keystroke asks the host for, besides what it does to the application.
use crate::app::io;
use crate::app::io::{Io, IoRequest};
use crate::app::types::{DialogInputMode, View as Screen};
use crate::app::AppView;
use crate::keys::EditAction;
use vstd::prelude::*;

verus! {

/// Work that the host does without being handed a text.
#[derive(Debug, Clone, Copy, PartialEq, Eq, Structural)]
pub enum Op {
    // The line being edited.
    Edit(EditAction),
    WordEnd,
    ClearDraft,
    SetInputMode(DialogInputMode),
    /// Save the line over the task at this place.
    SaveEdit(usize),
    /// Add a task from the line; the host then reports how that went.
    AddFromDraft,
    // Completions.
    AutocompleteAccept,
    AutocompleteStep { forward: bool },
    SuppressAutocomplete,
    // Pickers over the line.
    /// Open the slash menu if the edit just made lengthened the line.
    OpenSlashMenuIfGrown,
    /// Open the picker for the key before the colon, if the edit just made
    /// lengthened the line.
    OpenKvOverlayIfGrown,
    SlashStep { forward: bool },
    SlashAccept,
    SlashCancel,
    SlashRevalidate,
    OpenDueCalendar,
    CalendarDay { forward: bool },
    CalendarWeek { forward: bool },
    CalendarMonth { forward: bool },
    /// Go to the day that is this many days from today.
    CalendarSetRelative { days: u32 },
    CalendarClear,
    CalendarAccept,
    CalendarCancel,
    CalendarSyncFromDraft,
    RecurrenceFocus { forward: bool },
    RecurrenceAdjust { forward: bool },
    RecurrenceAccept,
    RecurrenceCancel,
    PriorityStep { forward: bool },
    PriorityAccept,
    PriorityCancel,
    // Tasks.
    ToggleComplete(usize),
    CompleteSelected,
    Delete(usize),
    DeleteSelected,
    CyclePriority(usize),
    MoveTasks { down: bool },
    Undo,
    ArchiveCompleted,
    Unarchive(usize),
    ArchiveDelete(usize),
    // What is on screen.
    SetView(Screen),
    ClampCursor,
    RecomputeVisible,
    CycleSort,
    ClearSearch,
    /// Search for the text of the line.
    SearchDraft,
    ClearProjectFilter,
    ClearContextFilter,
    // Pickers of their own.
    EnterPickProject,
    EnterPickContext,
    EnterPickSaved,
    EnterPickTheme,
    PickStep { forward: bool },
    PickAccept,
    PickCancel,
    BeginRenameProject,
    BeginRenameContext,
    PickThemeStep { forward: bool },
    PickThemeAccept,
    PickThemeCancel,
    /// Filter the command palette by the text of the line.
    RefreshPalette,
    // Preferences.
    ToggleLeftPane,
    ToggleRightPane,
    ToggleLineNum,
    ToggleShowDone,
    ToggleShowFuture,
    SavePrefs,
    CycleTheme,
    CycleDensity,
    ToggleWeekStart,
    // Outside the application; the host reports how it went.
    OpenNotes,
    StartShare,
    CreateFile,
    OpenSample,
}

/// What a text is handed to the host for.
#[derive(Debug, Clone, Copy, PartialEq, Eq, Structural)]
pub enum TextOp {
    /// Edit this line, taking keys as commands.
    SetDraft,
    /// Edit this line, taking keys as text.
    SetDraftInsert,
    AddProject,
    ToggleContext,
    SaveFilter,
    RenameProject,
    RenameContext,
    /// Put this on the clipboard; the host then reports how that went.
    Copy { body_only: bool, count: usize },
}

/// One thing that a keystroke asks for.
#[derive(Debug, Clone, PartialEq, Eq)]
pub enum Request {
    Do(Op),
    Text(TextOp, String),
    Io(IoRequest),
}

/// One thing that a keystroke asks for, as values.
pub enum RequestView {
    Do(Op),
    Text(TextOp, Seq<char>),
    Io(Io<Seq<char>>),
}

impl View for Request {
    type V = RequestView;

    open spec fn view(&self) -> RequestView {
        match self {
            Request::Do(op) => RequestView::Do(*op),
            Request::Text(op, s) => RequestView::Text(*op, s@),
            Request::Io(io) => RequestView::Io(io::io_view(*io)),
        }
    }
}

/// What is asked for, in order, as values.
pub open spec fn request_views(requests: Seq<Request>) -> Seq<RequestView> {
    requests.map_values(|r: Request| r@)
}

/// What a keystroke comes to: the application after it, and what the host is
/// asked for, in order.
pub struct Reaction {
    pub app: AppView,
    pub requests: Seq<RequestView>,
}

impl AppView {
    /// Nothing is asked for.
    pub open spec fn done(self) -> Reaction {
        Reaction { app: self, requests: Seq::empty() }
    }

    /// One thing is asked for.
    pub open spec fn doing(self, a: Op) -> Reaction {
        Reaction { app: self, requests: seq![RequestView::Do(a)] }
    }

    /// Two things are asked for.
    pub open spec fn doing2(self, a: Op, b: Op) -> Reaction {
        Reaction { app: self, requests: seq![RequestView::Do(a), RequestView::Do(b)] }
    }

    /// Three things are asked for.
    pub open spec fn doing3(self, a: Op, b: Op, c: Op) -> Reaction {
        Reaction {
            app: self,
            requests: seq![RequestView::Do(a), RequestView::Do(b), RequestView::Do(c)],
        }
    }

    /// A text is handed over.
    pub open spec fn handing(self, op: TextOp, s: Seq<char>) -> Reaction {
        Reaction { app: self, requests: seq![RequestView::Text(op, s)] }
    }
}

/// What a step of the notes popup asks for.
pub open spec fn io_requests(io: Option<Io<Seq<char>>>) -> Seq<RequestView> {
    match io {
        Some(io) => seq![RequestView::Io(io)],
        None => Seq::empty(),
    }
}

/// Nothing.
pub fn none() -> (r: Vec<Request>)
    ensures
        request_views(r@) == Seq::<RequestView>::empty(),
{
    let r: Vec<Request> = Vec::new();
    assert(request_views(r@) =~= Seq::empty());
    r
}

/// One thing.
pub fn one(a: Request) -> (r: Vec<Request>)
    ensures
        request_views(r@) == seq![a@],
{
    let mut r: Vec<Request> = Vec::new();
    r.push(a);
    assert(request_views(r@) =~= seq![a@]);
    r
}

/// One piece of work.
pub fn op(a: Op) -> (r: Vec<Request>)
    ensures
        request_views(r@) == seq![RequestView::Do(a)],
{
    one(Request::Do(a))
}

/// Two pieces of work.
pub fn op2(a: Op, b: Op) -> (r: Vec<Request>)
    ensures
        request_views(r@) == seq![RequestView::Do(a), RequestView::Do(b)],
{
    let r = and_then_do(op(a), b);
    assert(request_views(r@) =~= seq![RequestView::Do(a), RequestView::Do(b)]);
    r
}

/// Three pieces of work.
pub fn op3(a: Op, b: Op, c: Op) -> (r: Vec<Request>)
    ensures
        request_views(r@) == seq![RequestView::Do(a), RequestView::Do(b), RequestView::Do(c)],
{
    let r = and_then_do(op2(a, b), c);
    assert(request_views(r@) =~= seq![
        RequestView::Do(a),
        RequestView::Do(b),
        RequestView::Do(c),
    ]);
    r
}

/// A text handed over.
pub fn hand(op: TextOp, s: String) -> (r: Vec<Request>)
    ensures
        request_views(r@) == seq![RequestView::Text(op, s@)],
{
    one(Request::Text(op, s))
}

/// What a step of the notes popup asks for.
pub fn from_io(io: Option<IoRequest>) -> (r: Vec<Request>)
    ensures
        request_views(r@) == io_requests(io::opt_io_view(io)),
{
    match io {
        Some(io) => one(Request::Io(io)),
        None => none(),
    }
}

/// `requests`, and then `op`.
pub fn and_then_do(requests: Vec<Request>, op: Op) -> (r: Vec<Request>)
    ensures
        request_views(r@) == request_views(requests@).push(RequestView::Do(op)),
{
    let mut r = requests;
    r.push(Request::Do(op));
    assert(request_views(r@) =~= request_views(requests@).push(RequestView::Do(op)));
    r
}

/// `op`, and then `requests`.
pub fn do_first(op: Op, requests: Vec<Request>) -> (r: Vec<Request>)
    ensures
        request_views(r@) == seq![RequestView::Do(op)] + request_views(requests@),
{
    let mut r = requests;
    r.insert(0, Request::Do(op));
    assert(request_views(r@) =~= seq![RequestView::Do(op)] + request_views(requests@));
    r
}

} // verus!
