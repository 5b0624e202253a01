//! The keys of the line editor and of the pickers that open over it.
use crate::action::RecAction;
use crate::app::types::{DialogInputMode, Mode, OverlayKind};
use crate::app::{App, AppView};
use crate::dispatch::request;
use crate::dispatch::request::{Op, Reaction, Request, RequestView};
use crate::keys;
use crate::keys::{DraftEffect, EditAction, KeyCode, KeyEvent};
use vstd::prelude::*;

verus! {

/// How adding a task from the line went.
#[derive(Debug, Clone, Copy, PartialEq, Eq, Structural)]
pub enum AddOutcome {
    Saved,
    /// The line was read as plain language and rewritten; it waits to be
    /// confirmed.
    Parsed,
    Refused,
}

/// The way that a key steps through a list while text is typed: the arrows, and
/// Ctrl-N and Ctrl-P. `true` is down.
pub open spec fn list_step(key: KeyEvent) -> Option<bool> {
    match key.code {
        KeyCode::Up => Some(false),
        KeyCode::Down => Some(true),
        KeyCode::Char('n') => if key.modifiers.control {
            Some(true)
        } else {
            None
        },
        KeyCode::Char('p') => if key.modifiers.control {
            Some(false)
        } else {
            None
        },
        _ => None,
    }
}

/// The way that a key steps through a list while text is typed. `true` is down.
pub fn step_of(key: KeyEvent) -> (r: Option<bool>)
    ensures
        r == list_step(key),
{
    match key.code {
        KeyCode::Up => Some(false),
        KeyCode::Down => Some(true),
        KeyCode::Char('n') => if key.modifiers.control {
            Some(true)
        } else {
            None
        },
        KeyCode::Char('p') => if key.modifiers.control {
            Some(false)
        } else {
            None
        },
        _ => None,
    }
}

/// What a key does in the calendar.
pub open spec fn calendar_op(code: KeyCode) -> Option<Op> {
    match code {
        KeyCode::Char('h') | KeyCode::Left => Some(Op::CalendarDay { forward: false }),
        KeyCode::Char('l') | KeyCode::Right => Some(Op::CalendarDay { forward: true }),
        KeyCode::Char('k') | KeyCode::Up => Some(Op::CalendarWeek { forward: false }),
        KeyCode::Char('j') | KeyCode::Down => Some(Op::CalendarWeek { forward: true }),
        KeyCode::Char('t') => Some(Op::CalendarSetRelative { days: 0 }),
        KeyCode::Char('T') => Some(Op::CalendarSetRelative { days: 1 }),
        KeyCode::Char('w') => Some(Op::CalendarSetRelative { days: 7 }),
        KeyCode::Char('m') => Some(Op::CalendarMonth { forward: true }),
        KeyCode::Char('M') => Some(Op::CalendarMonth { forward: false }),
        KeyCode::Char('x') => Some(Op::CalendarClear),
        KeyCode::Enter => Some(Op::CalendarAccept),
        KeyCode::Esc => Some(Op::CalendarCancel),
        _ => None,
    }
}

/// What a key does in the calendar.
fn calendar_key(code: KeyCode) -> (r: Option<Op>)
    ensures
        r == calendar_op(code),
{
    match code {
        KeyCode::Char('h') | KeyCode::Left => Some(Op::CalendarDay { forward: false }),
        KeyCode::Char('l') | KeyCode::Right => Some(Op::CalendarDay { forward: true }),
        KeyCode::Char('k') | KeyCode::Up => Some(Op::CalendarWeek { forward: false }),
        KeyCode::Char('j') | KeyCode::Down => Some(Op::CalendarWeek { forward: true }),
        KeyCode::Char('t') => Some(Op::CalendarSetRelative { days: 0 }),
        KeyCode::Char('T') => Some(Op::CalendarSetRelative { days: 1 }),
        KeyCode::Char('w') => Some(Op::CalendarSetRelative { days: 7 }),
        KeyCode::Char('m') => Some(Op::CalendarMonth { forward: true }),
        KeyCode::Char('M') => Some(Op::CalendarMonth { forward: false }),
        KeyCode::Char('x') => Some(Op::CalendarClear),
        KeyCode::Enter => Some(Op::CalendarAccept),
        KeyCode::Esc => Some(Op::CalendarCancel),
        _ => None,
    }
}

/// The command of a key in the recurrence builder: the horizontal keys change the
/// value of a field, the vertical ones go from field to field.
pub open spec fn rec_key(code: KeyCode) -> Option<RecAction> {
    match code {
        KeyCode::Char('h') | KeyCode::Left => Some(RecAction::ValuePrev),
        KeyCode::Char('l') | KeyCode::Right => Some(RecAction::ValueNext),
        KeyCode::Char('j') | KeyCode::Down | KeyCode::Tab => Some(RecAction::FocusNext),
        KeyCode::Char('k') | KeyCode::Up | KeyCode::BackTab => Some(RecAction::FocusPrev),
        KeyCode::Char('+') | KeyCode::Char('=') => Some(RecAction::ValueNext),
        KeyCode::Char('-') | KeyCode::Char('_') => Some(RecAction::ValuePrev),
        KeyCode::Enter => Some(RecAction::Accept),
        KeyCode::Esc => Some(RecAction::Cancel),
        _ => None,
    }
}

/// The command of a key in the recurrence builder.
fn rec_action(code: KeyCode) -> (r: Option<RecAction>)
    ensures
        r == rec_key(code),
{
    match code {
        KeyCode::Char('h') | KeyCode::Left => Some(RecAction::ValuePrev),
        KeyCode::Char('l') | KeyCode::Right => Some(RecAction::ValueNext),
        KeyCode::Char('j') | KeyCode::Down | KeyCode::Tab => Some(RecAction::FocusNext),
        KeyCode::Char('k') | KeyCode::Up | KeyCode::BackTab => Some(RecAction::FocusPrev),
        KeyCode::Char('+') | KeyCode::Char('=') => Some(RecAction::ValueNext),
        KeyCode::Char('-') | KeyCode::Char('_') => Some(RecAction::ValuePrev),
        KeyCode::Enter => Some(RecAction::Accept),
        KeyCode::Esc => Some(RecAction::Cancel),
        _ => None,
    }
}

/// What a command of the recurrence builder does.
pub open spec fn rec_op(action: RecAction) -> Op {
    match action {
        RecAction::FocusNext => Op::RecurrenceFocus { forward: true },
        RecAction::FocusPrev => Op::RecurrenceFocus { forward: false },
        RecAction::ValueNext => Op::RecurrenceAdjust { forward: true },
        RecAction::ValuePrev => Op::RecurrenceAdjust { forward: false },
        RecAction::Accept => Op::RecurrenceAccept,
        RecAction::Cancel => Op::RecurrenceCancel,
    }
}

/// What a command of the recurrence builder does.
pub fn apply_rec_action(action: RecAction) -> (r: Op)
    ensures
        r == rec_op(action),
{
    match action {
        RecAction::FocusNext => Op::RecurrenceFocus { forward: true },
        RecAction::FocusPrev => Op::RecurrenceFocus { forward: false },
        RecAction::ValueNext => Op::RecurrenceAdjust { forward: true },
        RecAction::ValuePrev => Op::RecurrenceAdjust { forward: false },
        RecAction::Accept => Op::RecurrenceAccept,
        RecAction::Cancel => Op::RecurrenceCancel,
    }
}

/// What a key does in the priority chooser.
pub open spec fn priority_op(code: KeyCode) -> Option<Op> {
    match code {
        KeyCode::Char('j') | KeyCode::Down => Some(Op::PriorityStep { forward: true }),
        KeyCode::Char('k') | KeyCode::Up => Some(Op::PriorityStep { forward: false }),
        KeyCode::Enter => Some(Op::PriorityAccept),
        KeyCode::Esc => Some(Op::PriorityCancel),
        _ => None,
    }
}

/// What a key does in the priority chooser.
fn priority_key(code: KeyCode) -> (r: Option<Op>)
    ensures
        r == priority_op(code),
{
    match code {
        KeyCode::Char('j') | KeyCode::Down => Some(Op::PriorityStep { forward: true }),
        KeyCode::Char('k') | KeyCode::Up => Some(Op::PriorityStep { forward: false }),
        KeyCode::Enter => Some(Op::PriorityAccept),
        KeyCode::Esc => Some(Op::PriorityCancel),
        _ => None,
    }
}

/// What a key does in the slash menu; none where it is typed into the line
/// instead.
pub open spec fn slash_op(key: KeyEvent) -> Option<Op> {
    match list_step(key) {
        Some(forward) => Some(Op::SlashStep { forward }),
        None => match key.code {
            KeyCode::Tab | KeyCode::Enter => Some(Op::SlashAccept),
            KeyCode::Esc => Some(Op::SlashCancel),
            _ => None,
        },
    }
}

fn slash_key(key: KeyEvent) -> (r: Option<Op>)
    ensures
        r == slash_op(key),
{
    match step_of(key) {
        Some(forward) => Some(Op::SlashStep { forward }),
        None => match key.code {
            KeyCode::Tab | KeyCode::Enter => Some(Op::SlashAccept),
            KeyCode::Esc => Some(Op::SlashCancel),
            _ => None,
        },
    }
}

/// What a key does to the completions on offer; none where it goes to the line.
pub open spec fn autocomplete_op(key: KeyEvent) -> Option<Op> {
    match list_step(key) {
        Some(forward) => Some(Op::AutocompleteStep { forward }),
        None => match key.code {
            KeyCode::Esc => Some(Op::SuppressAutocomplete),
            _ => None,
        },
    }
}

/// What a key does to the completions on offer, if anything.
pub fn handle_autocomplete_keys(key: KeyEvent) -> (r: Option<Op>)
    ensures
        r == autocomplete_op(key),
{
    match step_of(key) {
        Some(forward) => Some(Op::AutocompleteStep { forward }),
        None => match key.code {
            KeyCode::Esc => Some(Op::SuppressAutocomplete),
            _ => None,
        },
    }
}

/// Whether a key types part of a date.
pub open spec fn date_key(code: KeyCode) -> bool {
    match code {
        KeyCode::Char(c) => '0' <= c && c <= '9' || c == '-',
        KeyCode::Backspace => true,
        _ => false,
    }
}

fn is_date_key(code: KeyCode) -> (r: bool)
    ensures
        r == date_key(code),
{
    match code {
        KeyCode::Char(c) => '0' <= c && c <= '9' || c == '-',
        KeyCode::Backspace => true,
        _ => false,
    }
}

/// The edit that a key asks for, if any.
pub open spec fn edit_request(key: KeyEvent) -> Seq<RequestView> {
    match keys::edit_key(key) {
        Some(a) => seq![RequestView::Do(Op::Edit(a))],
        None => Seq::empty(),
    }
}

/// Edit the line as a key asks for, if it does.
pub fn apply_to_draft(key: KeyEvent) -> (r: Vec<Request>)
    ensures
        request::request_views(r@) == edit_request(key),
{
    match keys::resolve_edit_key(key) {
        Some(a) => request::op(Op::Edit(a)),
        None => request::none(),
    }
}

/// Whether a key changes the text of the line.
pub open spec fn changes_text(key: KeyEvent) -> bool {
    keys::edit_key(key) matches Some(a) && !a.is_motion()
}

/// Edit the line as a key asks for, and then do `follow` if that changed the
/// text.
pub open spec fn edit_then(key: KeyEvent, follow: Op) -> Seq<RequestView> {
    if changes_text(key) {
        edit_request(key).push(RequestView::Do(follow))
    } else {
        edit_request(key)
    }
}

/// Edit the line as a key asks for, and then do `follow` if that changed the
/// text.
pub fn edit_and_follow(key: KeyEvent, follow: Op) -> (r: Vec<Request>)
    ensures
        request::request_views(r@) == edit_then(key, follow),
{
    match keys::resolve_edit_key(key) {
        Some(a) => match a.effect() {
            DraftEffect::TextChanged => {
                let r = request::op2(Op::Edit(a), follow);
                assert(request::request_views(r@) =~= edit_then(key, follow));
                r
            },
            _ => request::op(Op::Edit(a)),
        },
        None => request::none(),
    }
}

/// A key typed into the line. A slash may open the slash menu and a colon the
/// picker of the key before it.
pub open spec fn typed(key: KeyEvent) -> Seq<RequestView> {
    match key.code {
        KeyCode::Char('/') => edit_then(key, Op::OpenSlashMenuIfGrown),
        KeyCode::Char(':') => edit_then(key, Op::OpenKvOverlayIfGrown),
        _ => edit_request(key),
    }
}

fn type_key(key: KeyEvent) -> (r: Vec<Request>)
    ensures
        request::request_views(r@) == typed(key),
{
    match key.code {
        KeyCode::Char('/') => edit_and_follow(key, Op::OpenSlashMenuIfGrown),
        KeyCode::Char(':') => edit_and_follow(key, Op::OpenKvOverlayIfGrown),
        _ => apply_to_draft(key),
    }
}

impl AppView {
    /// Some work, or none, and the application as it is.
    pub open spec fn doing_maybe(self, op: Option<Op>) -> Reaction {
        match op {
            Some(a) => self.doing(a),
            None => self.done(),
        }
    }

    /// The line editor closes.
    pub open spec fn leaving_line(self) -> Self {
        AppView { mode: Mode::Normal, editing: None, ..self }
    }

    /// The line is submitted: over the task it came from, or as a new task, for
    /// which the editor waits to hear how that went.
    pub open spec fn submitting(self) -> Reaction {
        match self.editing {
            Some(abs) => self.leaving_line().doing2(Op::SaveEdit(abs), Op::ClearDraft),
            None => self.doing(Op::AddFromDraft),
        }
    }

    /// Adding a task went well, or not: the editor closes, unless what was typed
    /// was only rewritten and waits to be confirmed.
    pub open spec fn added(self, outcome: AddOutcome) -> Reaction {
        if outcome == AddOutcome::Parsed {
            self.done()
        } else {
            self.leaving_line().doing(Op::ClearDraft)
        }
    }

    /// `w` where keys are commands: behind `d` it deletes a word, behind `c` it
    /// replaces one, and alone it moves over one.
    pub open spec fn word_key(self) -> Reaction {
        let over = AppView { leader: None, ..self };
        if self.leader == Some('d') {
            over.doing(Op::Edit(EditAction::DeleteWordForward))
        } else if self.leader == Some('c') {
            over.doing2(
                Op::Edit(EditAction::DeleteWordForward),
                Op::SetInputMode(DialogInputMode::Insert),
            )
        } else {
            self.doing(Op::Edit(EditAction::MoveWordForward))
        }
    }

    /// A key in the line editor where keys are commands.
    #[verifier::opaque]
    pub open spec fn line_commanded(self, code: KeyCode) -> Reaction {
        match code {
            KeyCode::Enter => self.submitting(),
            KeyCode::Esc => self.leaving_line().doing(Op::ClearDraft),
            KeyCode::Char('h') | KeyCode::Left => self.doing(Op::Edit(EditAction::MoveLeft)),
            KeyCode::Char('l') | KeyCode::Right => self.doing(Op::Edit(EditAction::MoveRight)),
            KeyCode::Char('w') => self.word_key(),
            KeyCode::Char('b') => self.doing(Op::Edit(EditAction::MoveWordBackward)),
            KeyCode::Char('e') => self.doing(Op::WordEnd),
            KeyCode::Char('d') => AppView { leader: Some('d'), ..self }.done(),
            KeyCode::Char('c') => AppView { leader: Some('c'), ..self }.done(),
            KeyCode::Char('x') => self.doing(Op::Edit(EditAction::DeleteForward)),
            KeyCode::Char('i') => self.doing(Op::SetInputMode(DialogInputMode::Insert)),
            KeyCode::Char('a') => self.doing2(
                Op::Edit(EditAction::MoveRight),
                Op::SetInputMode(DialogInputMode::Insert),
            ),
            KeyCode::Char('A') => self.doing2(
                Op::Edit(EditAction::MoveEnd),
                Op::SetInputMode(DialogInputMode::Insert),
            ),
            _ => self.done(),
        }
    }

    /// A key while a picker is open over the line. A calendar that follows the
    /// line lets a date be typed, and the slash menu lets anything be typed that
    /// it does not take itself.
    #[verifier::opaque]
    pub open spec fn overlay_keyed(
        self,
        overlay: OverlayKind,
        key: KeyEvent,
        custom: Option<RecAction>,
    ) -> Reaction {
        match overlay {
            OverlayKind::Calendar => if self.draft.calendar_anchored && date_key(key.code) {
                Reaction {
                    app: self,
                    requests: edit_request(key).push(RequestView::Do(Op::CalendarSyncFromDraft)),
                }
            } else {
                self.doing_maybe(calendar_op(key.code))
            },
            OverlayKind::RecurrenceBuilder => {
                let action = if custom is Some {
                    custom
                } else {
                    rec_key(key.code)
                };
                match action {
                    Some(a) => self.doing(rec_op(a)),
                    None => self.done(),
                }
            },
            OverlayKind::PriorityChooser => self.doing_maybe(priority_op(key.code)),
            OverlayKind::SlashMenu => match slash_op(key) {
                Some(a) => self.doing(a),
                None => Reaction {
                    app: self,
                    requests: edit_request(key).push(RequestView::Do(Op::SlashRevalidate)),
                },
            },
        }
    }

    /// A key in the line editor where keys are text and no picker is open. Tab
    /// accepts a completion; Enter submits the line whether completions are
    /// offered or not.
    #[verifier::opaque]
    pub open spec fn line_typed(self, key: KeyEvent) -> Reaction {
        if self.draft.autocomplete && key.code == KeyCode::Tab {
            self.doing2(Op::AutocompleteAccept, Op::SuppressAutocomplete)
        } else if self.draft.autocomplete && autocomplete_op(key) is Some {
            self.doing_maybe(autocomplete_op(key))
        } else {
            match key.code {
                KeyCode::Esc => self.doing(Op::SetInputMode(DialogInputMode::Normal)),
                KeyCode::Enter => self.submitting(),
                _ => Reaction { app: self, requests: typed(key) },
            }
        }
    }

    /// A key in the line editor. `custom` is what the user's own bindings for the
    /// recurrence builder say of it.
    pub open spec fn line_keyed(self, key: KeyEvent, custom: Option<RecAction>) -> Reaction {
        if self.draft.input_mode == DialogInputMode::Normal {
            self.line_commanded(key.code)
        } else {
            match self.draft.overlay {
                Some(overlay) => self.overlay_keyed(overlay, key, custom),
                None => self.line_typed(key),
            }
        }
    }
}

/// Do some work, or none.
pub fn op_or_none(op: Option<Op>) -> (r: Vec<Request>)
    ensures
        request::request_views(r@) == (match op {
            Some(a) => seq![RequestView::Do(a)],
            None => Seq::empty(),
        }),
{
    match op {
        Some(a) => request::op(a),
        None => request::none(),
    }
}

fn submit(app: &mut App) -> (r: Vec<Request>)
    ensures
        final(app)@ == old(app)@.submitting().app,
        request::request_views(r@) == old(app)@.submitting().requests,
{
    match app.selection.editing {
        Some(abs) => {
            app.mode = Mode::Normal;
            app.selection.editing = None;
            request::op2(Op::SaveEdit(abs), Op::ClearDraft)
        },
        None => request::op(Op::AddFromDraft),
    }
}

/// Take how adding a task from the line went.
pub fn finish_add(app: &mut App, outcome: AddOutcome) -> (r: Vec<Request>)
    ensures
        final(app)@ == old(app)@.added(outcome).app,
        request::request_views(r@) == old(app)@.added(outcome).requests,
{
    if outcome == AddOutcome::Parsed {
        return request::none();
    }
    app.mode = Mode::Normal;
    app.selection.editing = None;
    request::op(Op::ClearDraft)
}

fn word_key(app: &mut App) -> (r: Vec<Request>)
    ensures
        final(app)@ == old(app)@.word_key().app,
        request::request_views(r@) == old(app)@.word_key().requests,
{
    if app.chord.consume('d') {
        request::op(Op::Edit(EditAction::DeleteWordForward))
    } else if app.chord.consume('c') {
        request::op2(
            Op::Edit(EditAction::DeleteWordForward),
            Op::SetInputMode(DialogInputMode::Insert),
        )
    } else {
        request::op(Op::Edit(EditAction::MoveWordForward))
    }
}

/// Handle a key in the line editor where keys are commands.
pub fn handle_insert_normal(app: &mut App, code: KeyCode) -> (r: Vec<Request>)
    ensures
        final(app)@ == old(app)@.line_commanded(code).app,
        request::request_views(r@) == old(app)@.line_commanded(code).requests,
{
    reveal(AppView::line_commanded);
    match code {
        KeyCode::Enter => submit(app),
        KeyCode::Esc => {
            app.mode = Mode::Normal;
            app.selection.editing = None;
            request::op(Op::ClearDraft)
        },
        KeyCode::Char('h') | KeyCode::Left => request::op(Op::Edit(EditAction::MoveLeft)),
        KeyCode::Char('l') | KeyCode::Right => request::op(Op::Edit(EditAction::MoveRight)),
        KeyCode::Char('w') => word_key(app),
        KeyCode::Char('b') => request::op(Op::Edit(EditAction::MoveWordBackward)),
        KeyCode::Char('e') => request::op(Op::WordEnd),
        KeyCode::Char('d') => {
            app.chord.arm('d');
            request::none()
        },
        KeyCode::Char('c') => {
            app.chord.arm('c');
            request::none()
        },
        KeyCode::Char('x') => request::op(Op::Edit(EditAction::DeleteForward)),
        KeyCode::Char('i') => request::op(Op::SetInputMode(DialogInputMode::Insert)),
        KeyCode::Char('a') => request::op2(
            Op::Edit(EditAction::MoveRight),
            Op::SetInputMode(DialogInputMode::Insert),
        ),
        KeyCode::Char('A') => request::op2(
            Op::Edit(EditAction::MoveEnd),
            Op::SetInputMode(DialogInputMode::Insert),
        ),
        _ => request::none(),
    }
}

fn handle_insert_calendar(app: &App, key: KeyEvent) -> (r: Vec<Request>)
    ensures
        request::request_views(r@) == app@.overlay_keyed(
            OverlayKind::Calendar,
            key,
            None,
        ).requests,
{
    reveal(AppView::overlay_keyed);
    if app.draft.calendar_anchored && is_date_key(key.code) {
        return request::and_then_do(apply_to_draft(key), Op::CalendarSyncFromDraft);
    }
    op_or_none(calendar_key(key.code))
}

fn handle_insert_rec_builder(key: KeyEvent, custom: Option<RecAction>) -> (r: Vec<Request>)
    ensures
        forall|v: AppView| #[trigger]
            v.overlay_keyed(OverlayKind::RecurrenceBuilder, key, custom).requests
                == request::request_views(r@),
{
    reveal(AppView::overlay_keyed);
    if let Some(action) = custom {
        return request::op(apply_rec_action(action));
    }
    match rec_action(key.code) {
        Some(action) => request::op(apply_rec_action(action)),
        None => request::none(),
    }
}

fn handle_insert_slash_menu(key: KeyEvent) -> (r: Vec<Request>)
    ensures
        request::request_views(r@) == (match slash_op(key) {
            Some(a) => seq![RequestView::Do(a)],
            None => edit_request(key).push(RequestView::Do(Op::SlashRevalidate)),
        }),
{
    match slash_key(key) {
        Some(a) => request::op(a),
        None => request::and_then_do(apply_to_draft(key), Op::SlashRevalidate),
    }
}

fn handle_insert_overlay(
    app: &App,
    overlay: OverlayKind,
    key: KeyEvent,
    custom: Option<RecAction>,
) -> (r: Vec<Request>)
    ensures
        app@.overlay_keyed(overlay, key, custom).app == app@,
        request::request_views(r@) == app@.overlay_keyed(overlay, key, custom).requests,
{
    reveal(AppView::overlay_keyed);
    match overlay {
        OverlayKind::Calendar => handle_insert_calendar(app, key),
        OverlayKind::RecurrenceBuilder => {
            let r = handle_insert_rec_builder(key, custom);
            assert(app@.overlay_keyed(OverlayKind::RecurrenceBuilder, key, custom).requests
                == request::request_views(r@));
            r
        },
        OverlayKind::PriorityChooser => op_or_none(priority_key(key.code)),
        OverlayKind::SlashMenu => handle_insert_slash_menu(key),
    }
}

fn handle_insert_text(app: &mut App, key: KeyEvent) -> (r: Vec<Request>)
    ensures
        final(app)@ == old(app)@.line_typed(key).app,
        request::request_views(r@) == old(app)@.line_typed(key).requests,
{
    reveal(AppView::line_typed);
    if app.draft.autocomplete {
        if key.code == KeyCode::Tab {
            return request::op2(Op::AutocompleteAccept, Op::SuppressAutocomplete);
        }
        if let Some(a) = handle_autocomplete_keys(key) {
            return request::op(a);
        }
    }
    match key.code {
        KeyCode::Esc => request::op(Op::SetInputMode(DialogInputMode::Normal)),
        KeyCode::Enter => submit(app),
        _ => type_key(key),
    }
}

/// Handle a key in the line editor.
pub fn handle_insert(app: &mut App, key: KeyEvent, custom: Option<RecAction>) -> (r: Vec<Request>)
    ensures
        final(app)@ == old(app)@.line_keyed(key, custom).app,
        request::request_views(r@) == old(app)@.line_keyed(key, custom).requests,
{
    if app.draft.input_mode == DialogInputMode::Normal {
        return handle_insert_normal(app, key.code);
    }
    match app.draft.overlay {
        Some(overlay) => handle_insert_overlay(app, overlay, key, custom),
        None => handle_insert_text(app, key),
    }
}

} // verus!
