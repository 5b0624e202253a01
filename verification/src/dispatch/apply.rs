//! What the commands of the main list do.
use crate::action::Action;
use crate::app;
use crate::app::palette;
use crate::app::palette::PaletteView;
use crate::app::types::{Mode, View as Screen};
use crate::app::{App, AppView};
use crate::dispatch::actions;
use crate::dispatch::actions::ResolvedKey;
use crate::dispatch::request;
use crate::dispatch::request::{Op, Reaction, Request, RequestView, TextOp};
use crate::keys::KeyEvent;
use crate::text;
use crate::todo::Task;
use vstd::prelude::*;

verus! {

/// Whether a command is refused while the archive is on screen.
pub open spec fn refused_in_archive(action: Action) -> bool {
    match action {
        Action::BeginAdd
        | Action::BeginEdit
        | Action::BeginEditInsert
        | Action::Reschedule
        | Action::CyclePriority
        | Action::MoveTaskDown
        | Action::MoveTaskUp
        | Action::ToggleVisual
        | Action::ToggleSelected
        | Action::BeginSearch
        | Action::BeginPromptProject
        | Action::BeginPromptContext
        | Action::PickProject
        | Action::PickContext
        | Action::PickSavedFilter
        | Action::SaveCurrentFilter
        | Action::CycleSort
        | Action::ToggleShowDone
        | Action::ToggleShowFuture
        | Action::Undo => true,
        _ => false,
    }
}

fn is_refused_in_archive(action: Action) -> (r: bool)
    ensures
        r == refused_in_archive(action),
{
    match action {
        Action::BeginAdd
        | Action::BeginEdit
        | Action::BeginEditInsert
        | Action::Reschedule
        | Action::CyclePriority
        | Action::MoveTaskDown
        | Action::MoveTaskUp
        | Action::ToggleVisual
        | Action::ToggleSelected
        | Action::BeginSearch
        | Action::BeginPromptProject
        | Action::BeginPromptContext
        | Action::PickProject
        | Action::PickContext
        | Action::PickSavedFilter
        | Action::SaveCurrentFilter
        | Action::CycleSort
        | Action::ToggleShowDone
        | Action::ToggleShowFuture
        | Action::Undo => true,
        _ => false,
    }
}

/// Whether a request has a task of the list or of the archive changed, or its
/// line edited.
pub open spec fn changes_a_task(request: RequestView) -> bool {
    match request {
        RequestView::Do(op) => match op {
            Op::SaveEdit(_)
            | Op::AddFromDraft
            | Op::OpenDueCalendar
            | Op::ToggleComplete(_)
            | Op::CompleteSelected
            | Op::Delete(_)
            | Op::DeleteSelected
            | Op::CyclePriority(_)
            | Op::MoveTasks { .. }
            | Op::Undo
            | Op::ArchiveCompleted
            | Op::Unarchive(_)
            | Op::ArchiveDelete(_) => true,
            _ => false,
        },
        RequestView::Text(op, _) => !(op is Copy),
        RequestView::Io(_) => true,
    }
}

/// Whether some task of a list is done.
pub open spec fn any_done(tasks: Seq<Task>) -> bool {
    exists|i: int| 0 <= i < tasks.len() && (#[trigger] tasks[i]).done
}

impl AppView {
    /// Whether commands go to the selected tasks rather than the highlighted one.
    pub open spec fn on_selection(self) -> bool {
        self.mode == Mode::Visual && self.selected.len() > 0
    }

    pub open spec fn in_mode(self, mode: Mode) -> Self {
        AppView { mode, ..self }
    }

    pub open spec fn at(self, cursor: int) -> Self {
        AppView { cursor, ..self }
    }

    /// The last visible row, or the first where there are none.
    pub open spec fn last_row(self) -> int {
        if self.visible.len() == 0 {
            0
        } else {
            self.visible.len() - 1
        }
    }

    /// The cursor `rows` further down, held at the last row.
    pub open spec fn down(self, rows: int) -> Self {
        if self.cursor + rows < self.last_row() {
            self.at(self.cursor + rows)
        } else {
            self.at(self.last_row())
        }
    }

    /// The cursor `rows` further up, held at the first row.
    pub open spec fn up(self, rows: int) -> Self {
        if self.cursor > rows {
            self.at(self.cursor - rows)
        } else {
            self.at(0)
        }
    }

    /// A command for the highlighted row, if there is one.
    pub open spec fn on_row(self, what: spec_fn(usize) -> Op) -> Reaction {
        match self.cur_abs() {
            Some(abs) => self.doing(what(abs)),
            None => self.done(),
        }
    }

    /// The highlighted task's line goes to the line editor.
    pub open spec fn editing_line(self, op: TextOp) -> Reaction {
        match self.cur_abs() {
            Some(abs) if abs < self.tasks.len() => AppView {
                editing: Some(abs),
                mode: Mode::Insert,
                ..self
            }.handing(op, self.tasks[abs as int].raw@),
            _ => self.done(),
        }
    }

    /// The highlighted task's line goes to the line editor with its due date's
    /// calendar open.
    pub open spec fn rescheduling(self) -> Reaction {
        let r = self.editing_line(TextOp::SetDraftInsert);
        if r.requests.len() > 0 {
            Reaction { requests: r.requests.push(RequestView::Do(Op::OpenDueCalendar)), ..r }
        } else {
            r
        }
    }

    pub open spec fn opening_palette(self) -> Reaction {
        AppView {
            palette: PaletteView {
                prior: Some(self.mode),
                needle: Seq::empty(),
                hits: palette::palette_hits(Seq::empty(), self.mode),
            },
            palette_cursor: 0,
            mode: Mode::CommandPalette,
            ..self
        }.doing(Op::ClearDraft)
    }

    /// One layer left behind: the filter, else the search, else the selection,
    /// else Visual mode, else the archive.
    pub open spec fn escaping(self) -> Reaction {
        if self.filter.project is Some || self.filter.context is Some {
            self.doing2(Op::ClearProjectFilter, Op::ClearContextFilter)
        } else if self.filter.search.len() > 0 {
            self.doing2(Op::ClearDraft, Op::ClearSearch)
        } else if self.selected.len() > 0 {
            AppView { selected: Seq::empty(), ..self }.done()
        } else if self.mode == Mode::Visual {
            self.in_mode(Mode::Normal).done()
        } else if self.view != Screen::List {
            self.doing(Op::SetView(Screen::List))
        } else {
            self.done()
        }
    }

    /// Whether a copy takes the selected tasks.
    pub open spec fn copies_selection(self) -> bool {
        self.view == Screen::List && self.on_selection()
    }

    /// What is copied: the selected tasks in the order on screen, where all of
    /// them are on screen; or the highlighted task.
    pub open spec fn copy_payload(self, body_only: bool) -> Option<Seq<char>> {
        if self.copies_selection() {
            let lines = picked(self.visible, self.selected, self.tasks, body_only);
            if lines.len() == self.selected.len() {
                Some(text::joined(lines, '\n'))
            } else {
                None
            }
        } else {
            match self.cur_task() {
                Some(task) => Some(copied_text(task, body_only)),
                None => None,
            }
        }
    }

    pub open spec fn copying(self, body_only: bool) -> Reaction {
        match self.copy_payload(body_only) {
            Some(payload) => self.handing(
                TextOp::Copy {
                    body_only,
                    count: (if self.copies_selection() {
                        self.selected.len()
                    } else {
                        1
                    }) as usize,
                },
                payload,
            ),
            None => if self.copies_selection() {
                self.flashing("selection includes hidden tasks"@).done()
            } else {
                self.done()
            },
        }
    }

    /// What a command does. While the archive is on screen only two change it:
    /// one puts the highlighted task back, the other deletes it for good. The
    /// other commands that change anything are refused there.
    pub open spec fn applied(self, action: Action) -> Reaction {
        if self.view == Screen::Archive && action == Action::ToggleComplete {
            self.on_row(|abs: usize| Op::Unarchive(abs))
        } else if self.view == Screen::Archive && action == Action::Delete {
            self.on_row(|abs: usize| Op::ArchiveDelete(abs))
        } else if self.view == Screen::Archive && refused_in_archive(action) {
            self.flashing("read-only in archive"@).done()
        } else {
            self.performed(action)
        }
    }

    /// Quitting, and moving the cursor.
    #[verifier::opaque]
    pub open spec fn moved(self, action: Action) -> Reaction {
        match action {
            Action::Quit => AppView { should_quit: true, ..self }.done(),
            Action::CursorDown => if self.visible.len() > 0 {
                self.down(1).done()
            } else {
                self.done()
            },
            Action::CursorUp => self.up(1).done(),
            Action::CursorTop => self.at(0).done(),
            Action::CursorBottom => if self.visible.len() > 0 {
                self.at(self.last_row()).done()
            } else {
                self.done()
            },
            Action::HalfPageDown => self.down(10).done(),
            Action::HalfPageUp => self.up(10).done(),
            _ => self.done(),
        }
    }

    /// Modes, the selection, chords and the pinned note.
    #[verifier::opaque]
    pub open spec fn switched(self, action: Action) -> Reaction {
        match action {
            Action::OpenHelp => self.in_mode(Mode::Help).done(),
            Action::OpenSettings => self.in_mode(Mode::Settings).done(),
            Action::ToggleVisual => self.in_mode(
                if self.mode == Mode::Visual {
                    Mode::Normal
                } else {
                    Mode::Visual
                },
            ).done(),
            Action::ToggleSelected => match self.cur_abs() {
                Some(abs) if self.mode == Mode::Visual => AppView {
                    selected: app::toggled(self.selected, abs),
                    ..self
                }.done(),
                _ => self.done(),
            },
            Action::ArmF => AppView { leader: Some('f'), ..self }.done(),
            Action::TogglePinFocus => self.toggle_pin_focus().done(),
            Action::ClosePinnedNote => self.close_pinned_note().done(),
            Action::OpenCommandPalette => self.opening_palette(),
            Action::EscapeStack => self.escaping(),
            _ => self.done(),
        }
    }

    /// What goes on in the line editor.
    #[verifier::opaque]
    pub open spec fn typing(self, action: Action) -> Reaction {
        match action {
            Action::BeginAdd => AppView { mode: Mode::Insert, editing: None, ..self }.handing(
                TextOp::SetDraftInsert,
                self.filter.tag_seed(),
            ),
            Action::BeginEdit => self.editing_line(TextOp::SetDraft),
            Action::BeginEditInsert => self.editing_line(TextOp::SetDraftInsert),
            Action::Reschedule => self.rescheduling(),
            Action::BeginSearch => self.in_mode(Mode::Search).doing2(
                Op::ClearDraft,
                Op::ClearSearch,
            ),
            Action::BeginPromptProject => self.in_mode(Mode::PromptProject).doing(Op::ClearDraft),
            Action::BeginPromptContext => self.in_mode(Mode::PromptContext).doing(Op::ClearDraft),
            Action::SaveCurrentFilter => if self.filter.search.len() == 0 {
                self.flashing("no active search to save"@).done()
            } else {
                self.in_mode(Mode::PromptSaveFilter).doing(Op::ClearDraft)
            },
            _ => self.done(),
        }
    }

    /// What happens to tasks.
    #[verifier::opaque]
    pub open spec fn changing(self, action: Action) -> Reaction {
        match action {
            Action::ToggleComplete => if self.on_selection() {
                self.doing(Op::CompleteSelected)
            } else {
                self.on_row(|abs: usize| Op::ToggleComplete(abs))
            },
            Action::Delete => if self.on_selection() {
                self.doing(Op::DeleteSelected)
            } else {
                self.on_row(|abs: usize| Op::Delete(abs))
            },
            Action::CyclePriority => self.on_row(|abs: usize| Op::CyclePriority(abs)),
            Action::MoveTaskDown => self.doing(Op::MoveTasks { down: true }),
            Action::MoveTaskUp => self.doing(Op::MoveTasks { down: false }),
            Action::Undo => self.doing(Op::Undo),
            Action::ArchiveCompleted => if self.view == Screen::Archive {
                self.flashing("already in archive"@).done()
            } else if any_done(self.tasks) {
                self.doing(Op::ArchiveCompleted)
            } else {
                self.flashing("no completed tasks to archive"@).done()
            },
            Action::CopyLine => self.copying(false),
            Action::CopyBody => self.copying(true),
            _ => self.done(),
        }
    }

    /// What is on screen.
    #[verifier::opaque]
    pub open spec fn showing(self, action: Action) -> Reaction {
        match action {
            Action::GoList => self.doing(Op::SetView(Screen::List)),
            Action::ToggleArchiveView => self.doing(
                Op::SetView(
                    if self.view == Screen::Archive {
                        Screen::List
                    } else {
                        Screen::Archive
                    },
                ),
            ),
            Action::PickProject => self.doing(Op::EnterPickProject),
            Action::PickContext => self.doing(Op::EnterPickContext),
            Action::PickSavedFilter => self.doing(Op::EnterPickSaved),
            Action::CycleSort => self.doing(Op::CycleSort),
            Action::ToggleShowDone => self.at(0).doing3(
                Op::ToggleShowDone,
                Op::RecomputeVisible,
                Op::SavePrefs,
            ),
            Action::ToggleShowFuture => self.at(0).doing3(
                Op::ToggleShowFuture,
                Op::RecomputeVisible,
                Op::SavePrefs,
            ),
            Action::OpenNotes => self.doing(Op::OpenNotes),
            Action::OpenShare => self.doing(Op::StartShare),
            Action::OpenThemePicker => if self.theme_count <= 1 {
                self.flashing("only one theme"@).done()
            } else {
                self.doing(Op::EnterPickTheme)
            },
            _ => self.done(),
        }
    }

    /// Preferences.
    #[verifier::opaque]
    pub open spec fn preferring(self, action: Action) -> Reaction {
        match action {
            Action::ToggleLeftPane => self.doing2(Op::ToggleLeftPane, Op::SavePrefs),
            Action::ToggleRightPane => self.doing2(Op::ToggleRightPane, Op::SavePrefs),
            Action::ToggleLineNum => self.doing2(Op::ToggleLineNum, Op::SavePrefs),
            Action::CycleTheme => self.doing(Op::CycleTheme),
            Action::CycleDensity => self.doing(Op::CycleDensity),
            Action::ChangeWeekStart => self.doing2(Op::ToggleWeekStart, Op::RecomputeVisible),
            _ => self.done(),
        }
    }

    /// What a command does where it is not refused.
    pub open spec fn performed(self, action: Action) -> Reaction {
        match action {
            Action::Quit
            | Action::CursorDown
            | Action::CursorUp
            | Action::CursorTop
            | Action::CursorBottom
            | Action::HalfPageDown
            | Action::HalfPageUp => self.moved(action),
            Action::OpenHelp
            | Action::OpenSettings
            | Action::ToggleVisual
            | Action::ToggleSelected
            | Action::ArmF
            | Action::TogglePinFocus
            | Action::ClosePinnedNote
            | Action::OpenCommandPalette
            | Action::EscapeStack => self.switched(action),
            Action::BeginAdd
            | Action::BeginEdit
            | Action::BeginEditInsert
            | Action::Reschedule
            | Action::BeginSearch
            | Action::BeginPromptProject
            | Action::BeginPromptContext
            | Action::SaveCurrentFilter => self.typing(action),
            Action::ToggleComplete
            | Action::Delete
            | Action::CyclePriority
            | Action::MoveTaskDown
            | Action::MoveTaskUp
            | Action::Undo
            | Action::ArchiveCompleted
            | Action::CopyLine
            | Action::CopyBody => self.changing(action),
            Action::GoList
            | Action::ToggleArchiveView
            | Action::PickProject
            | Action::PickContext
            | Action::PickSavedFilter
            | Action::CycleSort
            | Action::ToggleShowDone
            | Action::ToggleShowFuture
            | Action::OpenNotes
            | Action::OpenShare
            | Action::OpenThemePicker => self.showing(action),
            Action::ToggleLeftPane
            | Action::ToggleRightPane
            | Action::ToggleLineNum
            | Action::CycleTheme
            | Action::CycleDensity
            | Action::ChangeWeekStart => self.preferring(action),
        }
    }

    /// A keystroke in the main list. Whatever it did, the cursor is brought back
    /// onto the list.
    pub open spec fn normal_handled(self, key: KeyEvent, custom: Option<ResolvedKey>) -> Reaction {
        let resolved = actions::normal_key(self.leader, key, custom);
        let read = AppView { leader: resolved.leader, ..self };
        let r = match resolved.action {
            Some(action) => read.applied(action),
            None => read.done(),
        };
        Reaction { requests: r.requests.push(RequestView::Do(Op::ClampCursor)), ..r }
    }
}

/// What is copied of a task: its line, or only its body.
pub open spec fn copied_text(task: Task, body_only: bool) -> Seq<char> {
    if body_only {
        task.body@
    } else {
        task.raw@
    }
}

/// What is copied of the visible tasks that are selected, in the order on
/// screen.
pub open spec fn picked(
    visible: Seq<usize>,
    selected: Seq<usize>,
    tasks: Seq<Task>,
    body_only: bool,
) -> Seq<Seq<char>>
    decreases visible.len(),
{
    if visible.len() == 0 {
        Seq::empty()
    } else {
        let before = picked(visible.drop_last(), selected, tasks, body_only);
        if selected.contains(visible.last()) {
            before.push(copied_text(tasks[visible.last() as int], body_only))
        } else {
            before
        }
    }
}

fn text_to_copy(task: &Task, body_only: bool) -> (r: String)
    ensures
        r@ == copied_text(*task, body_only),
{
    if body_only {
        task.body.clone()
    } else {
        task.raw.clone()
    }
}

fn on_selection(app: &App) -> (r: bool)
    ensures
        r == app@.on_selection(),
{
    app.mode == Mode::Visual && app.selection.selected.len() > 0
}

/// What a copy would put on the clipboard: the selected tasks, one per line, in
/// the order on screen; or the highlighted task. Nothing where a selected task
/// is not on screen.
pub fn copy_payload(app: &App, body_only: bool) -> (r: Option<String>)
    requires
        app@.wf(),
    ensures
        text::opt_text(r) == app@.copy_payload(body_only),
{
    if app.view == Screen::List && on_selection(app) {
        let mut lines: Vec<String> = Vec::new();
        let mut i: usize = 0;
        assert(app.visible@.take(0) =~= Seq::empty());
        assert(text::texts(lines@) =~= Seq::empty());
        while i < app.visible.len()
            invariant
                i <= app.visible@.len(),
                app@.wf(),
                app.view == Screen::List,
                text::texts(lines@) == picked(
                    app.visible@.take(i as int),
                    app.selection.selected@,
                    app.tasks@,
                    body_only,
                ),
            decreases app.visible.len() - i,
        {
            let abs: usize = app.visible[i];
            assert(app@.visible[i as int] == abs);
            assert(app.visible@.take(i + 1).drop_last() =~= app.visible@.take(i as int));
            assert(app.visible@.take(i + 1).last() == abs);
            if app.selection.is_selected(abs) {
                let line = text_to_copy(&app.tasks[abs], body_only);
                let ghost before = text::texts(lines@);
                lines.push(line);
                assert(text::texts(lines@) =~= before.push(line@));
            }
            i += 1;
        }
        assert(app.visible@.take(i as int) =~= app.visible@);
        assert(text::texts(lines@).len() == lines@.len());
        return if lines.len() == app.selection.selected.len() {
            Some(text::join_with(&lines, '\n'))
        } else {
            None
        };
    }
    match app.cur_task() {
        Some(task) => Some(text_to_copy(task, body_only)),
        None => None,
    }
}

/// Copy the selected tasks, or the highlighted one.
pub fn copy_current_task(app: &mut App, body_only: bool) -> (r: Vec<Request>)
    requires
        old(app)@.wf(),
    ensures
        final(app)@ == old(app)@.copying(body_only).app,
        request::request_views(r@) == old(app)@.copying(body_only).requests,
        final(app)@.wf(),
{
    let multi = app.view == Screen::List && on_selection(app);
    let count: usize = if multi {
        app.selection.selected.len()
    } else {
        1
    };
    match copy_payload(app, body_only) {
        Some(payload) => request::hand(TextOp::Copy { body_only, count }, payload),
        None => {
            if multi {
                app.flash("selection includes hidden tasks".to_owned());
            }
            request::none()
        },
    }
}

/// What is said once something was copied.
pub open spec fn copied_message(
    body_only: bool,
    count: usize,
    copied: Result<(), Seq<char>>,
) -> Seq<char> {
    match copied {
        Ok(_) => {
            let what = if count == 1 {
                "copied"@
            } else {
                "copied "@ + text::number(count as nat, 10)
            };
            if body_only {
                what + " (body)"@
            } else {
                what
            }
        },
        Err(e) => "copy failed: "@ + e,
    }
}

/// Say that a copy worked, and how many tasks it took; or that it failed.
pub fn copied(app: &mut App, body_only: bool, count: usize, result: Result<(), String>)
    ensures
        final(app)@ == old(app)@.flashing(
            copied_message(body_only, count, crate::app::notes_flow::said(result)),
        ),
{
    let message = match result {
        Ok(()) => {
            let what = if count == 1 {
                "copied".to_owned()
            } else {
                text::concat("copied ", text::decimal(count).as_str())
            };
            if body_only {
                text::concat(what.as_str(), " (body)")
            } else {
                what
            }
        },
        Err(e) => text::concat("copy failed: ", e.as_str()),
    };
    app.flash(message);
}

fn go_down(app: &mut App, rows: usize)
    ensures
        final(app)@ == old(app)@.down(rows as int),
{
    let last: usize = app.visible.len().saturating_sub(1);
    app.cursor = if app.cursor < last && rows < last - app.cursor {
        app.cursor + rows
    } else {
        last
    };
}

fn edit_line(app: &mut App, op: TextOp) -> (r: Vec<Request>)
    ensures
        final(app)@ == old(app)@.editing_line(op).app,
        request::request_views(r@) == old(app)@.editing_line(op).requests,
{
    match app.cur_abs() {
        Some(abs) => if abs < app.tasks.len() {
            app.selection.editing = Some(abs);
            app.mode = Mode::Insert;
            request::hand(op, app.tasks[abs].raw.clone())
        } else {
            request::none()
        },
        None => request::none(),
    }
}

fn escape(app: &mut App) -> (r: Vec<Request>)
    ensures
        final(app)@ == old(app)@.escaping().app,
        request::request_views(r@) == old(app)@.escaping().requests,
{
    if app.filter.project.is_some() || app.filter.context.is_some() {
        request::op2(Op::ClearProjectFilter, Op::ClearContextFilter)
    } else if !app.filter.search.as_str().is_empty() {
        request::op2(Op::ClearDraft, Op::ClearSearch)
    } else if app.selection.selected.len() > 0 {
        app.selection.selected = Vec::new();
        request::none()
    } else if app.mode == Mode::Visual {
        app.mode = Mode::Normal;
        request::none()
    } else if app.view != Screen::List {
        request::op(Op::SetView(Screen::List))
    } else {
        request::none()
    }
}

fn open_palette(app: &mut App) -> (r: Vec<Request>)
    ensures
        final(app)@ == old(app)@.opening_palette().app,
        request::request_views(r@) == old(app)@.opening_palette().requests,
{
    let prior = app.mode;
    app.command_palette.open(prior);
    app.mode = Mode::CommandPalette;
    request::op(Op::ClearDraft)
}

fn reschedule(app: &mut App) -> (r: Vec<Request>)
    ensures
        final(app)@ == old(app)@.rescheduling().app,
        request::request_views(r@) == old(app)@.rescheduling().requests,
{
    let r = edit_line(app, TextOp::SetDraftInsert);
    assert(request::request_views(r@).len() == r@.len());
    if r.len() > 0 {
        request::and_then_do(r, Op::OpenDueCalendar)
    } else {
        r
    }
}

/// Quitting, and moving the cursor.
fn move_cursor(app: &mut App, action: Action) -> (r: Vec<Request>)
    ensures
        final(app)@ == old(app)@.moved(action).app,
        request::request_views(r@) == old(app)@.moved(action).requests,
{
    reveal(AppView::moved);
    match action {
        Action::Quit => app.should_quit = true,
        Action::CursorDown => if app.visible.len() > 0 {
            go_down(app, 1);
        },
        Action::CursorUp => app.cursor = app.cursor.saturating_sub(1),
        Action::CursorTop => app.cursor = 0,
        Action::CursorBottom => if app.visible.len() > 0 {
            app.cursor = app.visible.len() - 1;
        },
        Action::HalfPageDown => go_down(app, 10),
        Action::HalfPageUp => app.cursor = app.cursor.saturating_sub(10),
        _ => {},
    }
    request::none()
}

/// Modes, the selection, chords and the pinned note.
fn switch(app: &mut App, action: Action) -> (r: Vec<Request>)
    ensures
        final(app)@ == old(app)@.switched(action).app,
        request::request_views(r@) == old(app)@.switched(action).requests,
{
    reveal(AppView::switched);
    match action {
        Action::OpenHelp => app.mode = Mode::Help,
        Action::OpenSettings => app.mode = Mode::Settings,
        Action::ToggleVisual => {
            app.mode = if app.mode == Mode::Visual {
                Mode::Normal
            } else {
                Mode::Visual
            };
        },
        Action::ToggleSelected => if app.mode == Mode::Visual {
            if let Some(abs) = app.cur_abs() {
                app.selection.toggle(abs);
            }
        },
        Action::ArmF => app.chord.arm('f'),
        Action::TogglePinFocus => app.toggle_pin_focus(),
        Action::ClosePinnedNote => app.close_pinned_note(),
        Action::OpenCommandPalette => return open_palette(app),
        Action::EscapeStack => return escape(app),
        _ => {},
    }
    request::none()
}

/// What goes on in the line editor.
fn start_typing(app: &mut App, action: Action) -> (r: Vec<Request>)
    ensures
        final(app)@ == old(app)@.typing(action).app,
        request::request_views(r@) == old(app)@.typing(action).requests,
{
    reveal(AppView::typing);
    match action {
        Action::BeginAdd => {
            let seed = app.filter.tag_seed();
            app.mode = Mode::Insert;
            app.selection.editing = None;
            request::hand(TextOp::SetDraftInsert, seed)
        },
        Action::BeginEdit => edit_line(app, TextOp::SetDraft),
        Action::BeginEditInsert => edit_line(app, TextOp::SetDraftInsert),
        Action::Reschedule => reschedule(app),
        Action::BeginSearch => {
            app.mode = Mode::Search;
            request::op2(Op::ClearDraft, Op::ClearSearch)
        },
        Action::BeginPromptProject => {
            app.mode = Mode::PromptProject;
            request::op(Op::ClearDraft)
        },
        Action::BeginPromptContext => {
            app.mode = Mode::PromptContext;
            request::op(Op::ClearDraft)
        },
        Action::SaveCurrentFilter => if app.filter.search.as_str().is_empty() {
            app.flash("no active search to save".to_owned());
            request::none()
        } else {
            app.mode = Mode::PromptSaveFilter;
            request::op(Op::ClearDraft)
        },
        _ => request::none(),
    }
}

/// What happens to tasks.
fn change_tasks(app: &mut App, action: Action) -> (r: Vec<Request>)
    requires
        old(app)@.wf(),
    ensures
        final(app)@ == old(app)@.changing(action).app,
        request::request_views(r@) == old(app)@.changing(action).requests,
{
    reveal(AppView::changing);
    match action {
        Action::ToggleComplete => if on_selection(app) {
            request::op(Op::CompleteSelected)
        } else {
            match app.cur_abs() {
                Some(abs) => request::op(Op::ToggleComplete(abs)),
                None => request::none(),
            }
        },
        Action::Delete => if on_selection(app) {
            request::op(Op::DeleteSelected)
        } else {
            match app.cur_abs() {
                Some(abs) => request::op(Op::Delete(abs)),
                None => request::none(),
            }
        },
        Action::CyclePriority => match app.cur_abs() {
            Some(abs) => request::op(Op::CyclePriority(abs)),
            None => request::none(),
        },
        Action::MoveTaskDown => request::op(Op::MoveTasks { down: true }),
        Action::MoveTaskUp => request::op(Op::MoveTasks { down: false }),
        Action::Undo => request::op(Op::Undo),
        Action::ArchiveCompleted => if app.view == Screen::Archive {
            app.flash("already in archive".to_owned());
            request::none()
        } else if app.has_completed_tasks() {
            request::op(Op::ArchiveCompleted)
        } else {
            app.flash("no completed tasks to archive".to_owned());
            request::none()
        },
        Action::CopyLine => copy_current_task(app, false),
        Action::CopyBody => copy_current_task(app, true),
        _ => request::none(),
    }
}

/// What is on screen.
fn show(app: &mut App, action: Action) -> (r: Vec<Request>)
    ensures
        final(app)@ == old(app)@.showing(action).app,
        request::request_views(r@) == old(app)@.showing(action).requests,
{
    reveal(AppView::showing);
    match action {
        Action::GoList => request::op(Op::SetView(Screen::List)),
        Action::ToggleArchiveView => if app.view == Screen::Archive {
            request::op(Op::SetView(Screen::List))
        } else {
            request::op(Op::SetView(Screen::Archive))
        },
        Action::PickProject => request::op(Op::EnterPickProject),
        Action::PickContext => request::op(Op::EnterPickContext),
        Action::PickSavedFilter => request::op(Op::EnterPickSaved),
        Action::CycleSort => request::op(Op::CycleSort),
        Action::ToggleShowDone => {
            app.cursor = 0;
            request::op3(Op::ToggleShowDone, Op::RecomputeVisible, Op::SavePrefs)
        },
        Action::ToggleShowFuture => {
            app.cursor = 0;
            request::op3(Op::ToggleShowFuture, Op::RecomputeVisible, Op::SavePrefs)
        },
        Action::OpenNotes => request::op(Op::OpenNotes),
        Action::OpenShare => request::op(Op::StartShare),
        Action::OpenThemePicker => if app.theme_count <= 1 {
            app.flash("only one theme".to_owned());
            request::none()
        } else {
            request::op(Op::EnterPickTheme)
        },
        _ => request::none(),
    }
}

/// Preferences.
fn prefer(app: &mut App, action: Action) -> (r: Vec<Request>)
    ensures
        final(app)@ == old(app)@.preferring(action).app,
        request::request_views(r@) == old(app)@.preferring(action).requests,
{
    reveal(AppView::preferring);
    match action {
        Action::ToggleLeftPane => request::op2(Op::ToggleLeftPane, Op::SavePrefs),
        Action::ToggleRightPane => request::op2(Op::ToggleRightPane, Op::SavePrefs),
        Action::ToggleLineNum => request::op2(Op::ToggleLineNum, Op::SavePrefs),
        Action::CycleTheme => request::op(Op::CycleTheme),
        Action::CycleDensity => request::op(Op::CycleDensity),
        Action::ChangeWeekStart => request::op2(Op::ToggleWeekStart, Op::RecomputeVisible),
        _ => request::none(),
    }
}

/// Perform a command that is not refused.
fn perform(app: &mut App, action: Action) -> (r: Vec<Request>)
    requires
        old(app)@.wf(),
    ensures
        final(app)@ == old(app)@.performed(action).app,
        request::request_views(r@) == old(app)@.performed(action).requests,
{
    match action {
        Action::Quit
        | Action::CursorDown
        | Action::CursorUp
        | Action::CursorTop
        | Action::CursorBottom
        | Action::HalfPageDown
        | Action::HalfPageUp => move_cursor(app, action),
        Action::OpenHelp
        | Action::OpenSettings
        | Action::ToggleVisual
        | Action::ToggleSelected
        | Action::ArmF
        | Action::TogglePinFocus
        | Action::ClosePinnedNote
        | Action::OpenCommandPalette
        | Action::EscapeStack => switch(app, action),
        Action::BeginAdd
        | Action::BeginEdit
        | Action::BeginEditInsert
        | Action::Reschedule
        | Action::BeginSearch
        | Action::BeginPromptProject
        | Action::BeginPromptContext
        | Action::SaveCurrentFilter => start_typing(app, action),
        Action::ToggleComplete
        | Action::Delete
        | Action::CyclePriority
        | Action::MoveTaskDown
        | Action::MoveTaskUp
        | Action::Undo
        | Action::ArchiveCompleted
        | Action::CopyLine
        | Action::CopyBody => change_tasks(app, action),
        Action::GoList
        | Action::ToggleArchiveView
        | Action::PickProject
        | Action::PickContext
        | Action::PickSavedFilter
        | Action::CycleSort
        | Action::ToggleShowDone
        | Action::ToggleShowFuture
        | Action::OpenNotes
        | Action::OpenShare
        | Action::OpenThemePicker => show(app, action),
        Action::ToggleLeftPane
        | Action::ToggleRightPane
        | Action::ToggleLineNum
        | Action::CycleTheme
        | Action::CycleDensity
        | Action::ChangeWeekStart => prefer(app, action),
    }
}

/// No command puts the application out of order.
pub proof fn law_actions_keep_order(v: AppView, action: Action)
    requires
        v.wf(),
    ensures
        v.applied(action).app.wf(),
{
    reveal(AppView::moved);
    reveal(AppView::switched);
    reveal(AppView::typing);
    reveal(AppView::changing);
    reveal(AppView::showing);
    reveal(AppView::preferring);
    if let Some(abs) = v.cur_abs() {
        app::law_toggling_selects_once(v.selected, abs);
    }
}

/// The visible rows that are selected.
pub open spec fn selected_rows(visible: Seq<usize>, selected: Seq<usize>) -> Seq<usize> {
    visible.filter(|abs: usize| selected.contains(abs))
}

proof fn lemma_selected_rows(
    visible: Seq<usize>,
    selected: Seq<usize>,
    tasks: Seq<Task>,
    body_only: bool,
)
    requires
        visible.no_duplicates(),
    ensures
        picked(visible, selected, tasks, body_only).len() == selected_rows(visible, selected).len(),
        selected_rows(visible, selected).no_duplicates(),
        forall|abs: usize| #[trigger]
            selected_rows(visible, selected).contains(abs) <==> visible.contains(abs)
                && selected.contains(abs),
    decreases visible.len(),
{
    reveal(Seq::filter);
    let rows = selected_rows(visible, selected);
    if visible.len() > 0 {
        let d = visible.drop_last();
        let x = visible.last();
        let before = selected_rows(d, selected);
        lemma_selected_rows(d, selected, tasks, body_only);
        assert(!d.contains(x)) by {
            if d.contains(x) {
                let i = choose|i: int| 0 <= i < d.len() && d[i] == x;
                assert(visible[i] == visible[visible.len() - 1]);
            }
        }
        assert(d.push(x) =~= visible);
        assert forall|abs: usize| #[trigger] rows.contains(abs) <==> visible.contains(abs)
            && selected.contains(abs) by {
            lemma_in_push(d, x, abs);
            lemma_in_push(before, x, abs);
        }
        assert(before.contains(x) ==> d.contains(x));
        assert forall|i: int, j: int| 0 <= i < rows.len() && 0 <= j < rows.len() && i
            != j implies rows[i] != rows[j] by {
            assert(i < before.len() ==> before.contains(before[i]));
            assert(j < before.len() ==> before.contains(before[j]));
        }
    }
}

proof fn lemma_in_push(s: Seq<usize>, x: usize, abs: usize)
    ensures
        s.push(x).contains(abs) <==> s.contains(abs) || abs == x,
{
    if s.contains(abs) {
        let i = choose|i: int| 0 <= i < s.len() && s[i] == abs;
        assert(s.push(x)[i] == abs);
    }
    assert(s.push(x)[s.len() as int] == x);
    if s.push(x).contains(abs) && abs != x {
        let i = choose|i: int| 0 <= i < s.push(x).len() && s.push(x)[i] == abs;
        assert(s[i] == abs);
    }
}

/// A copy takes the selected tasks exactly where all of them are on screen, and
/// then as many lines as there are selected tasks; otherwise it only says that
/// some are hidden.
pub proof fn law_copies_take_the_whole_selection(v: AppView, body_only: bool)
    requires
        v.wf(),
        v.visible.no_duplicates(),
        v.copies_selection(),
    ensures
        v.copy_payload(body_only) is Some <==> forall|abs: usize| #[trigger]
            v.selected.contains(abs) ==> v.visible.contains(abs),
        v.copy_payload(body_only) is None ==> v.copying(body_only) == v.flashing(
            "selection includes hidden tasks"@,
        ).done(),
{
    let rows = selected_rows(v.visible, v.selected);
    lemma_selected_rows(v.visible, v.selected, v.tasks, body_only);
    rows.unique_seq_to_set();
    v.selected.unique_seq_to_set();
    let r = rows.to_set();
    let s = v.selected.to_set();
    assert(r.subset_of(s)) by {
        assert forall|abs: usize| r.contains(abs) implies s.contains(abs) by {
            assert(rows.contains(abs));
        }
    }
    if rows.len() == v.selected.len() {
        vstd::set_lib::lemma_subset_equality(r, s);
        assert forall|abs: usize| #[trigger] v.selected.contains(abs) implies v.visible.contains(
            abs,
        ) by {
            assert(s.contains(abs));
            assert(rows.contains(abs));
        }
    }
    if forall|abs: usize| #[trigger] v.selected.contains(abs) ==> v.visible.contains(abs) {
        assert(s =~= r) by {
            assert forall|abs: usize| s.contains(abs) implies r.contains(abs) by {
                assert(v.selected.contains(abs));
                assert(rows.contains(abs));
            }
        }
    }
}

/// Perform a command, or refuse it while the archive is on screen.
pub fn apply_action(app: &mut App, action: Action) -> (r: Vec<Request>)
    requires
        old(app)@.wf(),
    ensures
        final(app)@ == old(app)@.applied(action).app,
        request::request_views(r@) == old(app)@.applied(action).requests,
        final(app)@.wf(),
{
    proof {
        law_actions_keep_order(app@, action);
    }
    if app.view == Screen::Archive {
        if action == Action::ToggleComplete {
            return match app.cur_abs() {
                Some(abs) => request::op(Op::Unarchive(abs)),
                None => request::none(),
            };
        }
        if action == Action::Delete {
            return match app.cur_abs() {
                Some(abs) => request::op(Op::ArchiveDelete(abs)),
                None => request::none(),
            };
        }
        if is_refused_in_archive(action) {
            app.flash("read-only in archive".to_owned());
            return request::none();
        }
    }
    perform(app, action)
}

/// Handle a keystroke in the main list. `custom` is what the user's own bindings
/// say of it.
pub fn handle_normal(app: &mut App, key: KeyEvent, custom: Option<ResolvedKey>) -> (r: Vec<Request>)
    requires
        old(app)@.wf(),
    ensures
        final(app)@ == old(app)@.normal_handled(key, custom).app,
        request::request_views(r@) == old(app)@.normal_handled(key, custom).requests,
        final(app)@.wf(),
{
    let r = match actions::resolve_normal_key(app, key, custom) {
        Some(action) => apply_action(app, action),
        None => request::none(),
    };
    request::and_then_do(r, Op::ClampCursor)
}

} // verus!
