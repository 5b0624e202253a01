//! The keys of the screens and pickers of their own.
use crate::action::Action;
use crate::app::notes_flow;
use crate::app::notes_popup::NotePromptKind;
use crate::app::palette;
use crate::app::palette::{NotesEntryAction, PaletteDispatch, PaletteView};
use crate::app::note_editor::NoteEditorMode;
use crate::app::types::Mode;
use crate::app::{App, AppView};
use crate::dispatch::apply;
use crate::dispatch::line;
use crate::dispatch::notes;
use crate::dispatch::request;
use crate::dispatch::request::{Op, Reaction, Request, RequestView, TextOp};
use crate::keys;
use crate::keys::{KeyCode, KeyEvent};
use crate::text;
use vstd::prelude::*;

verus! {

/// The command of a key in the settings.
pub open spec fn settings_action(code: KeyCode) -> Option<Action> {
    match code {
        KeyCode::Char('T') => Some(Action::CycleTheme),
        KeyCode::Char('D') => Some(Action::CycleDensity),
        KeyCode::Char('L') => Some(Action::ToggleLineNum),
        KeyCode::Char('[') => Some(Action::ToggleLeftPane),
        KeyCode::Char(']') => Some(Action::ToggleRightPane),
        KeyCode::Char('H') => Some(Action::ToggleShowDone),
        KeyCode::Char('F') => Some(Action::ToggleShowFuture),
        KeyCode::Char('S') => Some(Action::CycleSort),
        _ => None,
    }
}

/// The command of a key in the settings.
fn settings_key(code: KeyCode) -> (r: Option<Action>)
    ensures
        r == settings_action(code),
{
    match code {
        KeyCode::Char('T') => Some(Action::CycleTheme),
        KeyCode::Char('D') => Some(Action::CycleDensity),
        KeyCode::Char('L') => Some(Action::ToggleLineNum),
        KeyCode::Char('[') => Some(Action::ToggleLeftPane),
        KeyCode::Char(']') => Some(Action::ToggleRightPane),
        KeyCode::Char('H') => Some(Action::ToggleShowDone),
        KeyCode::Char('F') => Some(Action::ToggleShowFuture),
        KeyCode::Char('S') => Some(Action::CycleSort),
        _ => None,
    }
}

/// What a key does in a picker. Projects and contexts can be renamed there.
pub open spec fn pick_op(code: KeyCode, mode: Mode) -> Option<Op> {
    match code {
        KeyCode::Char('j') | KeyCode::Down => Some(Op::PickStep { forward: true }),
        KeyCode::Char('k') | KeyCode::Up => Some(Op::PickStep { forward: false }),
        KeyCode::Char('r') => match mode {
            Mode::PickProject => Some(Op::BeginRenameProject),
            Mode::PickContext => Some(Op::BeginRenameContext),
            _ => None,
        },
        KeyCode::Enter => Some(Op::PickAccept),
        KeyCode::Esc => Some(Op::PickCancel),
        _ => None,
    }
}

/// What a key does in a picker.
fn pick_key(code: KeyCode, mode: Mode) -> (r: Option<Op>)
    ensures
        r == pick_op(code, mode),
{
    match code {
        KeyCode::Char('j') | KeyCode::Down => Some(Op::PickStep { forward: true }),
        KeyCode::Char('k') | KeyCode::Up => Some(Op::PickStep { forward: false }),
        KeyCode::Char('r') => match mode {
            Mode::PickProject => Some(Op::BeginRenameProject),
            Mode::PickContext => Some(Op::BeginRenameContext),
            _ => None,
        },
        KeyCode::Enter => Some(Op::PickAccept),
        KeyCode::Esc => Some(Op::PickCancel),
        _ => None,
    }
}

/// What a key does in the theme picker.
pub open spec fn pick_theme_op(code: KeyCode) -> Option<Op> {
    match code {
        KeyCode::Char('j') | KeyCode::Down | KeyCode::Char('T') => Some(
            Op::PickThemeStep { forward: true },
        ),
        KeyCode::Char('k') | KeyCode::Up => Some(Op::PickThemeStep { forward: false }),
        KeyCode::Enter => Some(Op::PickThemeAccept),
        KeyCode::Esc => Some(Op::PickThemeCancel),
        _ => None,
    }
}

/// What a key does in the theme picker.
fn pick_theme_key(code: KeyCode) -> (r: Option<Op>)
    ensures
        r == pick_theme_op(code),
{
    match code {
        KeyCode::Char('j') | KeyCode::Down | KeyCode::Char('T') => Some(
            Op::PickThemeStep { forward: true },
        ),
        KeyCode::Char('k') | KeyCode::Up => Some(Op::PickThemeStep { forward: false }),
        KeyCode::Enter => Some(Op::PickThemeAccept),
        KeyCode::Esc => Some(Op::PickThemeCancel),
        _ => None,
    }
}

/// What the text of a prompt is for.
pub open spec fn prompt_op(mode: Mode) -> Option<TextOp> {
    match mode {
        Mode::PromptProject => Some(TextOp::AddProject),
        Mode::PromptContext => Some(TextOp::ToggleContext),
        Mode::PromptSaveFilter => Some(TextOp::SaveFilter),
        Mode::PromptRenameProject => Some(TextOp::RenameProject),
        Mode::PromptRenameContext => Some(TextOp::RenameContext),
        _ => None,
    }
}

/// What the text of a prompt is for.
fn prompt_text_op(mode: Mode) -> (r: Option<TextOp>)
    ensures
        r == prompt_op(mode),
{
    match mode {
        Mode::PromptProject => Some(TextOp::AddProject),
        Mode::PromptContext => Some(TextOp::ToggleContext),
        Mode::PromptSaveFilter => Some(TextOp::SaveFilter),
        Mode::PromptRenameProject => Some(TextOp::RenameProject),
        Mode::PromptRenameContext => Some(TextOp::RenameContext),
        _ => None,
    }
}

impl AppView {
    /// A key on the welcome screen: only the keys it names do anything.
    #[verifier::opaque]
    pub open spec fn welcome_keyed(self, key: KeyEvent) -> Reaction {
        if keys::exit_key(key) || key.code == KeyCode::Esc {
            AppView { should_quit: true, ..self }.done()
        } else {
            match key.code {
                KeyCode::Char('c') => self.doing(Op::CreateFile),
                KeyCode::Char('s') => self.doing(Op::OpenSample),
                _ => self.done(),
            }
        }
    }

    /// A key in the search box. What is typed is searched for at once.
    #[verifier::opaque]
    pub open spec fn search_keyed(self, key: KeyEvent) -> Reaction {
        match key.code {
            KeyCode::Esc => self.in_mode(Mode::Normal).doing2(Op::ClearDraft, Op::ClearSearch),
            KeyCode::Enter => self.in_mode(Mode::Normal).at(0).done(),
            _ => Reaction { app: self, requests: line::edit_then(key, Op::SearchDraft) },
        }
    }

    #[verifier::opaque]
    pub open spec fn help_keyed(self, key: KeyEvent) -> Reaction {
        if keys::exit_key(key) || key.code == KeyCode::Esc || key.code == KeyCode::Char('?') {
            self.in_mode(Mode::Normal).done()
        } else {
            self.done()
        }
    }

    /// A key in the settings, which stay open while they are changed.
    #[verifier::opaque]
    pub open spec fn settings_keyed(self, key: KeyEvent) -> Reaction {
        if keys::exit_key(key) || key.code == KeyCode::Esc || key.code == KeyCode::Char(',') {
            self.in_mode(Mode::Normal).done()
        } else {
            match settings_action(key.code) {
                Some(action) => self.applied(action),
                None => self.done(),
            }
        }
    }

    /// What the palette's highlighted hit invokes.
    pub open spec fn palette_chosen(self) -> Option<PaletteDispatch> {
        if self.palette_cursor < self.palette.hits.len()
            && self.palette.hits[self.palette_cursor].entry < palette::catalogue().len() {
            Some(palette::catalogue()[self.palette.hits[self.palette_cursor].entry].dispatch)
        } else {
            None
        }
    }

    /// The palette closed, back in the mode that it was opened from.
    pub open spec fn palette_closed(self) -> Self {
        AppView {
            mode: palette::mode_or_normal(self.palette.prior),
            palette: PaletteView { prior: None, ..self.palette },
            ..self
        }
    }

    /// An operation of the notes popup, chosen from the palette.
    #[verifier::opaque]
    pub open spec fn notes_chosen(self, action: NotesEntryAction) -> Reaction {
        match action {
            NotesEntryAction::Create => self.with_popup(
                self.popup.begin_prompt(NotePromptKind::Create, Seq::empty()),
            ).done(),
            NotesEntryAction::Rename => self.begin_rename_prompt().done(),
            NotesEntryAction::Delete => self.with_popup(self.popup.begin_delete_confirm()).done(),
            NotesEntryAction::Unlink => notes::stepping(self.unlink_selected_note()),
            NotesEntryAction::OpenEditorNormal => notes::stepping(
                self.open_note_editor(NoteEditorMode::Normal),
            ),
            NotesEntryAction::OpenEditorInsert => notes::stepping(
                self.open_note_editor(NoteEditorMode::Insert),
            ),
        }
    }

    /// What choosing an entry of the palette does.
    pub open spec fn chosen(self, dispatch: Option<PaletteDispatch>) -> Reaction {
        match dispatch {
            Some(PaletteDispatch::Global(action)) => self.applied(action),
            Some(PaletteDispatch::NotesAction(action)) => self.notes_chosen(action),
            None => self.done(),
        }
    }

    /// The highlighted entry invoked, after the palette has closed.
    pub open spec fn palette_run(self) -> Reaction {
        let r = self.palette_closed().chosen(self.palette_chosen());
        Reaction { requests: seq![RequestView::Do(Op::ClearDraft)] + r.requests, ..r }
    }

    /// A key in the command palette. Letters are typed into the search box, so
    /// the list is gone through with the arrows, or Ctrl-N and Ctrl-P.
    pub open spec fn palette_keyed(self, key: KeyEvent) -> Reaction {
        if key.code == KeyCode::Esc {
            self.palette_closed().doing(Op::ClearDraft)
        } else if key.code == KeyCode::Enter {
            self.palette_run()
        } else {
            match line::list_step(key) {
                Some(forward) => AppView {
                    palette_cursor: palette::stepped(
                        self.palette_cursor,
                        self.palette.hits.len() as int,
                        if forward {
                            1
                        } else {
                            -1
                        },
                    ),
                    ..self
                }.done(),
                None => Reaction {
                    app: self,
                    requests: line::edit_then(key, Op::RefreshPalette),
                },
            }
        }
    }

    /// A prompt confirmed: its text is handed over.
    pub open spec fn prompt_confirmed(self) -> Reaction {
        let after = self.in_mode(Mode::Normal);
        match prompt_op(self.mode) {
            Some(op) => Reaction {
                app: after,
                requests: seq![
                    RequestView::Do(Op::ClearDraft),
                    RequestView::Text(op, self.draft.line),
                ],
            },
            None => after.doing(Op::ClearDraft),
        }
    }

    /// A key in a prompt.
    #[verifier::opaque]
    pub open spec fn prompt_keyed(self, key: KeyEvent) -> Reaction {
        if self.draft.autocomplete && key.code == KeyCode::Tab {
            self.doing(Op::AutocompleteAccept)
        } else if self.draft.autocomplete && line::autocomplete_op(key) is Some {
            self.doing_maybe(line::autocomplete_op(key))
        } else {
            match key.code {
                KeyCode::Esc => self.in_mode(Mode::Normal).doing(Op::ClearDraft),
                KeyCode::Enter => self.prompt_confirmed(),
                _ => Reaction { app: self, requests: line::edit_request(key) },
            }
        }
    }

    /// Creating the file worked, or not.
    pub open spec fn file_created(self, result: Result<(), Seq<char>>) -> Self {
        match result {
            Ok(_) => self.in_mode(Mode::Normal),
            Err(e) => self.flashing("could not create "@ + self.file_path + ": "@ + e),
        }
    }

    /// Opening the sample worked, or not.
    pub open spec fn sample_opened(self, result: Result<(), Seq<char>>) -> Self {
        match result {
            Ok(_) => self.in_mode(Mode::Normal),
            Err(e) => self.flashing("could not open sample: "@ + e),
        }
    }

    /// Sharing could be started, or not.
    pub open spec fn share_started(self, result: Result<(), Seq<char>>) -> Self {
        match result {
            Ok(_) => self.in_mode(Mode::Share),
            Err(e) => self.flashing("share unavailable: "@ + e),
        }
    }
}

/// Handle a key on the welcome screen.
pub fn handle_welcome(app: &mut App, key: KeyEvent) -> (r: Vec<Request>)
    ensures
        final(app)@ == old(app)@.welcome_keyed(key).app,
        request::request_views(r@) == old(app)@.welcome_keyed(key).requests,
{
    reveal(AppView::welcome_keyed);
    if keys::is_exit_key(key) {
        app.should_quit = true;
        return request::none();
    }
    match key.code {
        KeyCode::Char('c') => request::op(Op::CreateFile),
        KeyCode::Char('s') => request::op(Op::OpenSample),
        KeyCode::Esc => {
            app.should_quit = true;
            request::none()
        },
        _ => request::none(),
    }
}

/// Take how creating the file went.
pub fn finish_create(app: &mut App, result: Result<(), String>)
    ensures
        final(app)@ == old(app)@.file_created(notes_flow::said(result)),
{
    match result {
        Ok(()) => app.mode = Mode::Normal,
        Err(e) => {
            let mut message = text::concat("could not create ", app.file_path.as_str());
            message.append(": ");
            message.append(e.as_str());
            app.flash(message);
        },
    }
}

/// Take how opening the sample went.
pub fn finish_sample(app: &mut App, result: Result<(), String>)
    ensures
        final(app)@ == old(app)@.sample_opened(notes_flow::said(result)),
{
    match result {
        Ok(()) => app.mode = Mode::Normal,
        Err(e) => app.flash(text::concat("could not open sample: ", e.as_str())),
    }
}

/// Take whether sharing could be started.
pub fn finish_share(app: &mut App, result: Result<(), String>)
    ensures
        final(app)@ == old(app)@.share_started(notes_flow::said(result)),
{
    match result {
        Ok(()) => app.mode = Mode::Share,
        Err(e) => app.flash(text::concat("share unavailable: ", e.as_str())),
    }
}

/// Handle a key while the capture code is shown: any key dismisses it.
pub fn handle_share(app: &mut App) -> (r: Vec<Request>)
    ensures
        final(app)@ == old(app)@.in_mode(Mode::Normal),
        request::request_views(r@) == Seq::<RequestView>::empty(),
{
    app.mode = Mode::Normal;
    request::none()
}

/// Handle a key in the search box.
pub fn handle_search(app: &mut App, key: KeyEvent) -> (r: Vec<Request>)
    ensures
        final(app)@ == old(app)@.search_keyed(key).app,
        request::request_views(r@) == old(app)@.search_keyed(key).requests,
{
    reveal(AppView::search_keyed);
    match key.code {
        KeyCode::Esc => {
            app.mode = Mode::Normal;
            request::op2(Op::ClearDraft, Op::ClearSearch)
        },
        KeyCode::Enter => {
            app.mode = Mode::Normal;
            app.cursor = 0;
            request::none()
        },
        _ => line::edit_and_follow(key, Op::SearchDraft),
    }
}

/// Handle a key while the help is shown.
pub fn handle_help(app: &mut App, key: KeyEvent) -> (r: Vec<Request>)
    ensures
        final(app)@ == old(app)@.help_keyed(key).app,
        request::request_views(r@) == old(app)@.help_keyed(key).requests,
{
    reveal(AppView::help_keyed);
    if keys::is_exit_key(key) || key.code == KeyCode::Esc || key.code == KeyCode::Char('?') {
        app.mode = Mode::Normal;
    }
    request::none()
}

/// Handle a key in the settings.
pub fn handle_settings(app: &mut App, key: KeyEvent) -> (r: Vec<Request>)
    requires
        old(app)@.wf(),
    ensures
        final(app)@ == old(app)@.settings_keyed(key).app,
        request::request_views(r@) == old(app)@.settings_keyed(key).requests,
        final(app)@.wf(),
{
    proof {
        lemma_screens_in_order(app@, key);
    }
    reveal(AppView::settings_keyed);
    if keys::is_exit_key(key) || key.code == KeyCode::Esc || key.code == KeyCode::Char(',') {
        app.mode = Mode::Normal;
        return request::none();
    }
    match settings_key(key.code) {
        Some(action) => apply::apply_action(app, action),
        None => request::none(),
    }
}

/// Handle a key in a picker of projects, contexts or saved filters.
pub fn handle_pick(app: &App, key: KeyEvent) -> (r: Vec<Request>)
    ensures
        request::request_views(r@) == app@.doing_maybe(pick_op(key.code, app@.mode)).requests,
{
    line::op_or_none(pick_key(key.code, app.mode))
}

/// Handle a key in the theme picker.
pub fn handle_pick_theme(app: &App, key: KeyEvent) -> (r: Vec<Request>)
    ensures
        request::request_views(r@) == app@.doing_maybe(pick_theme_op(key.code)).requests,
{
    line::op_or_none(pick_theme_key(key.code))
}

fn notes_chosen(app: &mut App, action: NotesEntryAction) -> (r: Vec<Request>)
    ensures
        final(app)@ == old(app)@.notes_chosen(action).app,
        request::request_views(r@) == old(app)@.notes_chosen(action).requests,
{
    reveal(AppView::notes_chosen);
    match action {
        NotesEntryAction::Create => app.begin_new_note_prompt(),
        NotesEntryAction::Rename => app.begin_rename_prompt(),
        NotesEntryAction::Delete => app.begin_delete_note_confirm(),
        NotesEntryAction::Unlink => return request::from_io(app.unlink_selected_note()),
        NotesEntryAction::OpenEditorNormal => return request::from_io(
            app.open_note_editor_normal(),
        ),
        NotesEntryAction::OpenEditorInsert => return request::from_io(
            app.open_note_editor_insert(),
        ),
    }
    request::none()
}

fn close_palette(app: &mut App)
    ensures
        final(app)@ == old(app)@.palette_closed(),
{
    app.mode = app.command_palette.take_prior();
}

fn run_palette(app: &mut App) -> (r: Vec<Request>)
    requires
        old(app)@.wf(),
    ensures
        final(app)@ == old(app)@.palette_run().app,
        request::request_views(r@) == old(app)@.palette_run().requests,
{
    let chosen = app.command_palette.current_dispatch();
    assert(chosen == old(app)@.palette_chosen());
    close_palette(app);
    let r = match chosen {
        Some(PaletteDispatch::Global(action)) => apply::apply_action(app, action),
        Some(PaletteDispatch::NotesAction(action)) => notes_chosen(app, action),
        None => request::none(),
    };
    request::do_first(Op::ClearDraft, r)
}

/// Handle a key in the command palette.
pub fn handle_command_palette(app: &mut App, key: KeyEvent) -> (r: Vec<Request>)
    requires
        old(app)@.wf(),
    ensures
        final(app)@ == old(app)@.palette_keyed(key).app,
        request::request_views(r@) == old(app)@.palette_keyed(key).requests,
        final(app)@.wf(),
{
    proof {
        lemma_screens_in_order(app@, key);
    }
    if key.code == KeyCode::Esc {
        close_palette(app);
        return request::op(Op::ClearDraft);
    }
    if key.code == KeyCode::Enter {
        return run_palette(app);
    }
    match line::step_of(key) {
        Some(forward) => {
            if forward {
                app.command_palette.step(1);
            } else {
                app.command_palette.step(-1);
            }
            request::none()
        },
        None => line::edit_and_follow(key, Op::RefreshPalette),
    }
}

fn confirm_prompt(app: &mut App) -> (r: Vec<Request>)
    ensures
        final(app)@ == old(app)@.prompt_confirmed().app,
        request::request_views(r@) == old(app)@.prompt_confirmed().requests,
{
    let wanted = prompt_text_op(app.mode);
    app.mode = Mode::Normal;
    match wanted {
        Some(op) => {
            let r = request::do_first(
                Op::ClearDraft,
                request::hand(op, app.draft.line.clone()),
            );
            assert(request::request_views(r@) =~= old(app)@.prompt_confirmed().requests);
            r
        },
        None => request::op(Op::ClearDraft),
    }
}

/// Handle a key in a prompt for a project, a context or the name of a filter.
pub fn handle_prompt(app: &mut App, key: KeyEvent) -> (r: Vec<Request>)
    ensures
        final(app)@ == old(app)@.prompt_keyed(key).app,
        request::request_views(r@) == old(app)@.prompt_keyed(key).requests,
{
    reveal(AppView::prompt_keyed);
    if app.draft.autocomplete {
        if key.code == KeyCode::Tab {
            return request::op(Op::AutocompleteAccept);
        }
        if let Some(a) = line::handle_autocomplete_keys(key) {
            return request::op(a);
        }
    }
    match key.code {
        KeyCode::Esc => {
            app.mode = Mode::Normal;
            request::op(Op::ClearDraft)
        },
        KeyCode::Enter => confirm_prompt(app),
        _ => line::apply_to_draft(key),
    }
}

/// No key in a screen of its own puts the application out of order.
pub proof fn lemma_screens_in_order(v: AppView, key: KeyEvent)
    requires
        v.wf(),
    ensures
        v.search_keyed(key).app.wf(),
        v.help_keyed(key).app.wf(),
        v.settings_keyed(key).app.wf(),
        v.prompt_keyed(key).app.wf(),
        v.palette_keyed(key).app.wf(),
        v.welcome_keyed(key).app.wf(),
{
    reveal(AppView::search_keyed);
    reveal(AppView::help_keyed);
    reveal(AppView::prompt_keyed);
    reveal(AppView::welcome_keyed);
    if let Some(action) = settings_action(key.code) {
        apply::law_actions_keep_order(v, action);
    }
    reveal(AppView::settings_keyed);
    let closed = v.palette_closed();
    assert(closed.wf());
    match v.palette_chosen() {
        Some(PaletteDispatch::Global(action)) => apply::law_actions_keep_order(closed, action),
        Some(PaletteDispatch::NotesAction(_)) => {
            reveal(AppView::notes_chosen);
        },
        None => {},
    }
}

} // verus!
