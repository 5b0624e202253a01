//! What keystrokes do.
pub mod actions;
pub mod apply;
pub mod line;
pub mod notes;
pub mod request;
pub mod screens;

use crate::action::{Action, RecAction};
use crate::app::io::{EditorTarget, Io};
use crate::app::note_editor;
use crate::app::note_editor::NoteEditorMode;
use crate::app::palette;
use crate::app::types::{DialogInputMode, Mode, View as Screen};
use crate::app::{App, AppView};
use crate::dispatch::actions::ResolvedKey;
use crate::dispatch::request::{Op, Reaction, Request, RequestView};
use crate::keys::{KeyCode, KeyEvent, KeyModifiers};
use vstd::prelude::*;

verus! {

/// What the host knows of a keystroke beyond the key.
#[derive(Debug, Clone, Copy, PartialEq, Eq, Structural)]
pub struct KeyContext {
    /// Whether the files were found changed from outside, and read again. The
    /// key then goes nowhere.
    pub reloaded: bool,
    /// What the user's own bindings for the main list say of the key.
    pub custom: Option<ResolvedKey>,
    /// What the user's own bindings for the recurrence builder say of it.
    pub custom_recurrence: Option<RecAction>,
}

impl AppView {
    /// A key, by the mode that it is pressed in.
    pub open spec fn mode_keyed(self, key: KeyEvent, context: KeyContext) -> Reaction {
        match self.mode {
            Mode::Insert => self.line_keyed(key, context.custom_recurrence),
            Mode::Search => self.search_keyed(key),
            Mode::Help => self.help_keyed(key),
            Mode::Settings => self.settings_keyed(key),
            Mode::PromptProject
            | Mode::PromptContext
            | Mode::PromptRenameProject
            | Mode::PromptRenameContext
            | Mode::PromptSaveFilter => self.prompt_keyed(key),
            Mode::PickProject | Mode::PickContext | Mode::PickSavedFilter => self.doing_maybe(
                screens::pick_op(key.code, self.mode),
            ),
            Mode::PickTheme => self.doing_maybe(screens::pick_theme_op(key.code)),
            Mode::CommandPalette => self.palette_keyed(key),
            Mode::Share => self.in_mode(Mode::Normal).done(),
            Mode::Notes => self.notes_keyed(key),
            Mode::Welcome => self.welcome_keyed(key),
            Mode::Normal | Mode::Visual => self.normal_handled(key, context.custom),
        }
    }

    /// A key. One pressed on files that changed from outside goes nowhere. A
    /// pinned note that has the keyboard comes before the mode.
    pub open spec fn keyed(self, key: KeyEvent, context: KeyContext) -> Reaction {
        if context.reloaded {
            self.done()
        } else if self.pinned_focus {
            self.pinned_keyed(key)
        } else {
            self.mode_keyed(key, context)
        }
    }
}

fn handle_mode_key(app: &mut App, key: KeyEvent, context: KeyContext) -> (r: Vec<Request>)
    requires
        old(app)@.wf(),
    ensures
        final(app)@ == old(app)@.mode_keyed(key, context).app,
        request::request_views(r@) == old(app)@.mode_keyed(key, context).requests,
{
    match app.mode {
        Mode::Insert => line::handle_insert(app, key, context.custom_recurrence),
        Mode::Search => screens::handle_search(app, key),
        Mode::Help => screens::handle_help(app, key),
        Mode::Settings => screens::handle_settings(app, key),
        Mode::PromptProject
        | Mode::PromptContext
        | Mode::PromptRenameProject
        | Mode::PromptRenameContext
        | Mode::PromptSaveFilter => screens::handle_prompt(app, key),
        Mode::PickProject | Mode::PickContext | Mode::PickSavedFilter => screens::handle_pick(
            app,
            key,
        ),
        Mode::PickTheme => screens::handle_pick_theme(app, key),
        Mode::CommandPalette => screens::handle_command_palette(app, key),
        Mode::Share => screens::handle_share(app),
        Mode::Notes => notes::handle_notes(app, key),
        Mode::Welcome => screens::handle_welcome(app, key),
        Mode::Normal | Mode::Visual => apply::handle_normal(app, key, context.custom),
    }
}

/// Handle a keystroke: do to the application what it does, and say what the host
/// is asked for, in order.
pub fn handle_key(app: &mut App, key: KeyEvent, context: KeyContext) -> (r: Vec<Request>)
    requires
        old(app)@.wf(),
    ensures
        final(app)@ == old(app)@.keyed(key, context).app,
        request::request_views(r@) == old(app)@.keyed(key, context).requests,
        final(app)@.wf(),
{
    proof {
        law_keys_keep_order(app@, key, context);
    }
    if context.reloaded {
        return request::none();
    }
    if app.pinned_focus {
        return notes::handle_pinned(app, key);
    }
    handle_mode_key(app, key, context)
}

// ---- laws ----------------------------------------------------------------------------

proof fn lemma_line_in_order(v: AppView, key: KeyEvent, context: KeyContext)
    requires
        v.wf(),
    ensures
        v.line_keyed(key, context.custom_recurrence).app.wf(),
{
    reveal(AppView::line_commanded);
    reveal(AppView::overlay_keyed);
    reveal(AppView::line_typed);
}

/// No keystroke, in any mode, puts the popup, the editor in it or the pinned
/// note out of order.
pub proof fn law_keys_keep_order(v: AppView, key: KeyEvent, context: KeyContext)
    requires
        v.wf(),
    ensures
        v.keyed(key, context).app.wf(),
{
    notes::lemma_editor_in_order(v, EditorTarget::Pinned, key);
    notes::lemma_notes_in_order(v, key);
    lemma_line_in_order(v, key, context);
    screens::lemma_screens_in_order(v, key);
    let resolved = actions::normal_key(v.leader, key, context.custom);
    let read = AppView { leader: resolved.leader, ..v };
    if let Some(action) = resolved.action {
        apply::law_actions_keep_order(read, action);
    }
}

/// A key pressed on files that changed from outside does nothing.
pub proof fn law_reload_consumes_the_key(v: AppView, key: KeyEvent, context: KeyContext)
    requires
        context.reloaded,
    ensures
        v.keyed(key, context) == v.done(),
{
}

/// While the pinned note has the keyboard no key reaches the list or the popup:
/// only the note, who has the keyboard, the message and what is being written
/// can change, and all that can be asked for is that the note be written.
pub proof fn law_pinned_note_takes_the_keys(v: AppView, key: KeyEvent, context: KeyContext)
    requires
        !context.reloaded,
        v.pinned_focus,
        v.pinned is Some,
    ensures
        ({
            let r = v.keyed(key, context);
            &&& r.app == (AppView {
                pinned: r.app.pinned,
                pinned_focus: r.app.pinned_focus,
                flash: r.app.flash,
                pending: r.app.pending,
                ..v
            })
            &&& forall|i: int|
                0 <= i < r.requests.len() ==> (#[trigger] r.requests[i] matches RequestView::Io(io)
                    && io is WriteFile)
        }),
{
    reveal(AppView::editor_keyed);
}

/// While a note is open in the popup no key reaches the list of notes: its files,
/// its cursor, its prompt and its questions stay as they are.
pub proof fn law_open_editor_takes_the_keys(v: AppView, key: KeyEvent, context: KeyContext)
    requires
        !context.reloaded,
        !v.pinned_focus,
        v.mode == Mode::Notes,
        v.popup.editor is Some,
    ensures
        v.keyed(key, context).app.popup == v.popup.with_editor(
            v.keyed(key, context).app.popup.editor,
        ),
        v.keyed(key, context).app.cursor == v.cursor,
{
    reveal(AppView::editor_keyed);
}

/// A key held with no modifier.
pub open spec fn bare(code: KeyCode) -> KeyEvent {
    KeyEvent {
        code,
        modifiers: KeyModifiers { control: false, alt: false, other: false },
    }
}

/// Esc leaves one layer at a time: from typing back to the editor's commands,
/// from there back to the list of notes, and from there out of the popup.
pub proof fn law_escape_leaves_one_layer(v: AppView, context: KeyContext)
    requires
        !context.reloaded,
        !v.pinned_focus,
        v.mode == Mode::Notes,
        v.popup.prompt is None,
        v.popup.pending_delete is None,
        v.popup.editor matches Some(e) ==> e.prompt is None,
    ensures
        ({
            let after = v.keyed(bare(KeyCode::Esc), context);
            &&& after.requests.len() == 0
            &&& match v.popup.editor {
                Some(e) => {
                    &&& after.app.mode == Mode::Notes
                    &&& after.app.popup.editor == if e.mode == NoteEditorMode::Insert {
                        Some(e.with_mode(NoteEditorMode::Normal))
                    } else {
                        None
                    }
                },
                None => after.app == v.in_mode(Mode::Normal),
            }
        }),
{
    reveal(AppView::editor_keyed);
    reveal(AppView::notes_list_keyed);
}

/// The save key writes the note's buffer to the note's file, in either sub-mode,
/// in the popup and pinned alike.
pub proof fn law_save_key_writes_the_buffer(v: AppView, context: KeyContext, key: KeyEvent)
    requires
        !context.reloaded,
        notes::save_key(key),
    ensures
        v.pinned_focus ==> (v.pinned matches Some(e) ==> v.keyed(key, context).requests == seq![
            RequestView::Io(
                Io::WriteFile { path: e.path, content: note_editor::lines_content(e.lines) },
            ),
        ]),
        !v.pinned_focus && v.mode == Mode::Notes ==> (v.popup.editor matches Some(e) ==> v.keyed(
            key,
            context,
        ).requests == seq![
            RequestView::Io(
                Io::WriteFile { path: e.path, content: note_editor::lines_content(e.lines) },
            ),
        ]),
{
    reveal(AppView::editor_keyed);
}

/// The archive is read-only: there a refused command changes nothing, asks for
/// nothing and says so. Completing or deleting only ever concerns the archive
/// itself, and no other command asks for a change to a task or begins to edit
/// one.
pub proof fn law_archive_is_read_only(v: AppView, action: Action)
    requires
        v.view == Screen::Archive,
    ensures
        apply::refused_in_archive(action) ==> v.applied(action) == v.flashing(
            "read-only in archive"@,
        ).done(),
        action == Action::ToggleComplete || action == Action::Delete ==> v.applied(action).app == v
            && forall|i: int|
            0 <= i < v.applied(action).requests.len() ==> (#[trigger] v.applied(
                action,
            ).requests[i] matches RequestView::Do(op) && (op is Unarchive || op is ArchiveDelete)),
        action != Action::ToggleComplete && action != Action::Delete ==> {
            &&& forall|i: int|
                0 <= i < v.applied(action).requests.len() ==> !apply::changes_a_task(
                    #[trigger] v.applied(action).requests[i],
                )
            &&& v.applied(action).app.editing == v.editing
            &&& v.applied(action).app.mode == Mode::Insert ==> v.mode == Mode::Insert
            &&& v.applied(action).app.tasks == v.tasks
            &&& v.applied(action).app.archive == v.archive
        },
{
    reveal(AppView::moved);
    reveal(AppView::switched);
    reveal(AppView::typing);
    reveal(AppView::changing);
    reveal(AppView::showing);
    reveal(AppView::preferring);
}

/// A chord of one key twice fires on the second press only, and one that was
/// begun by `f` or `y` fires on its second key only.
pub proof fn law_chords_fire_on_the_second_key(v: AppView)
    requires
        v.leader is None,
    ensures
        forall|c: char|
            c == 'g' || c == 'd' || c == 'y' ==> {
                let first = #[trigger] actions::normal_key(None, bare(KeyCode::Char(c)), None);
                &&& first.action is None
                &&& first.leader == Some(c)
                &&& actions::normal_key(first.leader, bare(KeyCode::Char(c)), None).action is Some
            },
        actions::normal_key(None, bare(KeyCode::Char('p')), None).action == Some(
            Action::CyclePriority,
        ),
        actions::normal_key(Some('f'), bare(KeyCode::Char('p')), None).action == Some(
            Action::PickProject,
        ),
        actions::normal_key(None, bare(KeyCode::Char('b')), None).action is None,
        actions::normal_key(Some('y'), bare(KeyCode::Char('b')), None).action == Some(
            Action::CopyBody,
        ),
        v.applied(Action::ArmF).app.leader == Some('f'),
{
    reveal(AppView::switched);
}

/// The cursor stays on the list whatever moves it.
pub proof fn law_cursor_stays_on_the_list(v: AppView, action: Action)
    requires
        0 <= v.cursor,
        v.visible.len() > 0,
        action == Action::CursorDown || action == Action::CursorTop || action
            == Action::CursorBottom || action == Action::HalfPageDown || ((action
            == Action::CursorUp || action == Action::HalfPageUp) && v.cursor < v.visible.len()),
    ensures
        0 <= v.applied(action).app.cursor < v.visible.len(),
        v.applied(action).app == v.at(v.applied(action).app.cursor),
        v.applied(action).requests.len() == 0,
{
    reveal(AppView::moved);
}

/// Opening the palette and cancelling it changes nothing but the palette: the
/// mode it was opened from is back, and with it the selection.
pub proof fn law_cancelled_palette_changes_nothing(v: AppView)
    ensures
        ({
            let open = v.opening_palette().app;
            let back = open.palette_keyed(bare(KeyCode::Esc)).app;
            back == (AppView { palette: back.palette, palette_cursor: back.palette_cursor, ..v })
        }),
{
}

/// An entry run from the palette does what its command does in the mode that the
/// palette was opened from.
pub proof fn law_palette_runs_in_the_prior_mode(v: AppView, action: Action)
    requires
        v.palette.prior is Some,
        v.palette_chosen() == Some(palette::PaletteDispatch::Global(action)),
    ensures
        ({
            let back = v.palette_closed();
            let r = v.palette_keyed(bare(KeyCode::Enter));
            &&& back.mode == v.palette.prior->0
            &&& r.app == back.applied(action).app
            &&& r.requests == seq![RequestView::Do(Op::ClearDraft)] + back.applied(action).requests
        }),
{
}

/// Completions never swallow the key that submits a line: with no picker open it
/// does the same whether they are offered or not.
pub proof fn law_completions_do_not_swallow_enter(
    v: AppView,
    key: KeyEvent,
    custom: Option<RecAction>,
)
    requires
        key.code == KeyCode::Enter,
        v.draft.overlay is None,
        v.draft.input_mode == DialogInputMode::Insert,
    ensures
        v.line_keyed(key, custom) == v.submitting(),
{
    reveal(AppView::line_typed);
}

/// While text is searched for, only a change of the text searches again: moving
/// the cursor does not.
pub proof fn law_motions_do_not_search(v: AppView, key: KeyEvent)
    requires
        key.code != KeyCode::Esc,
        key.code != KeyCode::Enter,
    ensures
        v.search_keyed(key).requests.contains(RequestView::Do(Op::SearchDraft))
            <==> line::changes_text(key),
        v.search_keyed(key).app == v,
{
    reveal(AppView::search_keyed);
    let r = v.search_keyed(key).requests;
    if line::changes_text(key) {
        assert(r.last() == RequestView::Do(Op::SearchDraft));
    }
}

} // verus!
