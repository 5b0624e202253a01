//! The keys of the notes popup, of the editor in it, and of the pinned note.
use crate::app::io::{EditorTarget, SaveKind};
use crate::app::note_editor;
use crate::app::note_editor::{
    CommandResultView, CommandView, EditorView, NoteCommand, NoteCommandResult, NoteEditorMode,
    NoteEditorState,
};
use crate::app::notes_popup::NotePromptKind;
use crate::app::types::Mode;
use crate::app::{App, AppView, Step};
use crate::dispatch::request;
use crate::dispatch::request::{Reaction, Request};
use crate::keys::{KeyCode, KeyEvent};
use vstd::prelude::*;

verus! {

/// What a key in the editor leaves to whoever holds the editor.
#[derive(Debug, Clone, PartialEq, Eq)]
pub enum NoteEditorSignal {
    /// Nothing.
    Handled,
    /// The note has to be written.
    Save(SaveKind),
    /// A `:`-command failed; this is to be said.
    Failed(String),
    /// Esc in Normal sub-mode: one layer back.
    Esc,
    /// The editor asked to be closed.
    CloseRequested,
}

/// What a key in the editor leaves to whoever holds it, as values.
pub enum SignalView {
    Handled,
    Save(SaveKind),
    Failed(Seq<char>),
    Esc,
    CloseRequested,
}

impl View for NoteEditorSignal {
    type V = SignalView;

    open spec fn view(&self) -> SignalView {
        match self {
            NoteEditorSignal::Handled => SignalView::Handled,
            NoteEditorSignal::Save(kind) => SignalView::Save(*kind),
            NoteEditorSignal::Failed(m) => SignalView::Failed(m@),
            NoteEditorSignal::Esc => SignalView::Esc,
            NoteEditorSignal::CloseRequested => SignalView::CloseRequested,
        }
    }
}

/// An editor after a key, and what the key leaves to do.
pub struct EditorKey {
    pub editor: EditorView,
    pub signal: SignalView,
}

/// What a command in the prompt leaves to do.
pub open spec fn command_signal(command: CommandView) -> SignalView {
    match command {
        CommandView::Save { close } => SignalView::Save(SaveKind::Command { close }),
        CommandView::Done(CommandResultView::Completed) => SignalView::Handled,
        CommandView::Done(CommandResultView::CloseRequested) => SignalView::CloseRequested,
        CommandView::Done(CommandResultView::Error(m)) => SignalView::Failed(m),
    }
}

/// Whether a keystroke is the save key.
pub open spec fn save_key(key: KeyEvent) -> bool {
    key.modifiers.control && key.code == KeyCode::Char('s')
}

impl EditorView {
    /// Nothing is left to do.
    pub open spec fn handled(self) -> EditorKey {
        EditorKey { editor: self, signal: SignalView::Handled }
    }

    pub open spec fn signalling(self, signal: SignalView) -> EditorKey {
        EditorKey { editor: self, signal }
    }

    /// A key while the `:`-prompt is open.
    pub open spec fn prompt_key(self, code: KeyCode) -> EditorKey {
        match code {
            KeyCode::Esc => self.with_prompt(None).handled(),
            KeyCode::Enter => self.with_prompt(None).signalling(
                command_signal(
                    note_editor::command_of(
                        match self.prompt {
                            Some(p) => p,
                            None => Seq::empty(),
                        },
                    ),
                ),
            ),
            KeyCode::Backspace => self.prompt_backspace().handled(),
            KeyCode::Char(c) => self.prompt_push(c).handled(),
            _ => self.handled(),
        }
    }

    /// A key in Normal sub-mode.
    pub open spec fn normal_key(self, key: KeyEvent) -> EditorKey {
        if save_key(key) {
            self.signalling(SignalView::Save(SaveKind::Key))
        } else if self.prompt is Some {
            self.prompt_key(key.code)
        } else {
            match key.code {
                KeyCode::Char('j') | KeyCode::Down => self.move_down().handled(),
                KeyCode::Char('k') | KeyCode::Up => self.move_up().handled(),
                KeyCode::Char('h') | KeyCode::Left => self.move_left().handled(),
                KeyCode::Char('l') | KeyCode::Right => self.move_right().handled(),
                KeyCode::Char('i') => self.with_mode(NoteEditorMode::Insert).handled(),
                KeyCode::Char(':') => self.with_prompt(Some(Seq::empty())).handled(),
                KeyCode::Esc => self.signalling(SignalView::Esc),
                _ => self.handled(),
            }
        }
    }

    /// A key in Insert sub-mode.
    pub open spec fn insert_key(self, key: KeyEvent) -> EditorKey {
        if save_key(key) {
            self.signalling(SignalView::Save(SaveKind::Key))
        } else {
            match key.code {
                KeyCode::Esc => self.with_mode(NoteEditorMode::Normal).handled(),
                KeyCode::Enter => self.split_line().handled(),
                KeyCode::Backspace => self.backspace().handled(),
                KeyCode::Char(c) => self.insert_char(c).handled(),
                _ => self.handled(),
            }
        }
    }

    /// A key in the editor.
    pub open spec fn keyed(self, key: KeyEvent) -> EditorKey {
        match self.mode {
            NoteEditorMode::Normal => self.normal_key(key),
            NoteEditorMode::Insert => self.insert_key(key),
        }
    }

    /// Whether the keys that pin and close notes are commands here: in Normal
    /// sub-mode, while no command is being typed.
    pub open spec fn takes_pin_keys(self) -> bool {
        self.mode == NoteEditorMode::Normal && self.prompt is None
    }
}

fn is_save_key(key: KeyEvent) -> (r: bool)
    ensures
        r == save_key(key),
{
    key.modifiers.control && key.code == KeyCode::Char('s')
}

fn handle_editor_prompt(editor: &mut NoteEditorState, code: KeyCode) -> (r: NoteEditorSignal)
    ensures
        final(editor)@ == old(editor)@.prompt_key(code).editor,
        r@ == old(editor)@.prompt_key(code).signal,
{
    match code {
        KeyCode::Esc => editor.cancel_command_prompt(),
        KeyCode::Enter => return match editor.execute_command_prompt() {
            NoteCommand::Save { close } => NoteEditorSignal::Save(SaveKind::Command { close }),
            NoteCommand::Done(NoteCommandResult::Completed) => NoteEditorSignal::Handled,
            NoteCommand::Done(NoteCommandResult::CloseRequested) => {
                NoteEditorSignal::CloseRequested
            },
            NoteCommand::Done(NoteCommandResult::Error(m)) => NoteEditorSignal::Failed(m),
        },
        KeyCode::Backspace => editor.command_prompt_backspace(),
        KeyCode::Char(c) => editor.command_prompt_push(c),
        _ => {},
    }
    NoteEditorSignal::Handled
}

/// Handle a key in the editor's Normal sub-mode: motions, `i` for Insert, `:`
/// for a command, Ctrl-S to save. Esc is left to whoever holds the editor.
pub fn handle_note_editor_normal(editor: &mut NoteEditorState, key: KeyEvent) -> (r:
    NoteEditorSignal)
    requires
        old(editor)@.wf(),
    ensures
        final(editor)@ == old(editor)@.normal_key(key).editor,
        r@ == old(editor)@.normal_key(key).signal,
        final(editor)@.wf(),
{
    proof {
        lemma_normal_key_in_order(editor@, key);
    }
    if is_save_key(key) {
        return NoteEditorSignal::Save(SaveKind::Key);
    }
    if editor.command_prompt().is_some() {
        return handle_editor_prompt(editor, key.code);
    }
    match key.code {
        KeyCode::Char('j') | KeyCode::Down => editor.move_down(),
        KeyCode::Char('k') | KeyCode::Up => editor.move_up(),
        KeyCode::Char('h') | KeyCode::Left => editor.move_left(),
        KeyCode::Char('l') | KeyCode::Right => editor.move_right(),
        KeyCode::Char('i') => editor.enter_insert(),
        KeyCode::Char(':') => editor.open_command_prompt(),
        KeyCode::Esc => return NoteEditorSignal::Esc,
        _ => {},
    }
    NoteEditorSignal::Handled
}

/// Handle a key in the editor's Insert sub-mode: characters are typed, Enter
/// cuts the line, Backspace erases, Ctrl-S saves, and Esc goes back to Normal
/// sub-mode.
pub fn handle_note_editor_insert(editor: &mut NoteEditorState, key: KeyEvent) -> (r:
    NoteEditorSignal)
    requires
        old(editor)@.wf(),
    ensures
        final(editor)@ == old(editor)@.insert_key(key).editor,
        r@ == old(editor)@.insert_key(key).signal,
        final(editor)@.wf(),
{
    proof {
        lemma_insert_key_in_order(editor@, key);
    }
    if is_save_key(key) {
        return NoteEditorSignal::Save(SaveKind::Key);
    }
    match key.code {
        KeyCode::Esc => editor.esc_to_normal(),
        KeyCode::Enter => editor.split_line(),
        KeyCode::Backspace => editor.backspace(),
        KeyCode::Char(c) => editor.insert_char(c),
        _ => {},
    }
    NoteEditorSignal::Handled
}

fn handle_editor_key(editor: &mut NoteEditorState, key: KeyEvent) -> (r: NoteEditorSignal)
    requires
        old(editor)@.wf(),
    ensures
        final(editor)@ == old(editor)@.keyed(key).editor,
        r@ == old(editor)@.keyed(key).signal,
{
    match editor.mode() {
        NoteEditorMode::Normal => handle_note_editor_normal(editor, key),
        NoteEditorMode::Insert => handle_note_editor_insert(editor, key),
    }
}

fn takes_pin_keys(editor: &Option<NoteEditorState>) -> (r: bool)
    ensures
        r == (crate::app::notes_popup::editor_view(*editor) matches Some(e) && e.takes_pin_keys()),
{
    match editor {
        Some(e) => e.mode() == NoteEditorMode::Normal && e.command_prompt().is_none(),
        None => false,
    }
}

/// A step of the popup, as what a key comes to.
pub open spec fn stepping(step: Step) -> Reaction {
    Reaction { app: step.app, requests: request::io_requests(step.io) }
}

impl AppView {
    /// What a key in an editor leaves to do. Esc takes the popup's editor back to
    /// the list, and the keyboard from a pinned note, which stays pinned.
    pub open spec fn signalled(self, target: EditorTarget, signal: SignalView) -> Reaction {
        match signal {
            SignalView::Handled => self.done(),
            SignalView::Save(kind) => stepping(self.save_editor(target, kind)),
            SignalView::Failed(m) => self.flashing(m).done(),
            SignalView::Esc => match target {
                EditorTarget::Popup => self.close_editor(EditorTarget::Popup).done(),
                EditorTarget::Pinned => self.toggle_pin_focus().done(),
            },
            SignalView::CloseRequested => self.close_editor(target).done(),
        }
    }

    /// A key for an editor.
    #[verifier::opaque]
    pub open spec fn editor_keyed(self, target: EditorTarget, key: KeyEvent) -> Reaction {
        match self.editor(target) {
            Some(e) => {
                let k = e.keyed(key);
                self.with_editor(target, Some(k.editor)).signalled(target, k.signal)
            },
            None => self.done(),
        }
    }

    /// A key while the popup's prompt is open.
    #[verifier::opaque]
    pub open spec fn notes_prompt_keyed(self, code: KeyCode) -> Reaction {
        match code {
            KeyCode::Esc => self.cancel_note_prompt().done(),
            KeyCode::Enter => stepping(self.confirm_note_prompt()),
            KeyCode::Backspace => self.with_popup(self.popup.prompt_backspace()).done(),
            KeyCode::Char(c) => self.with_popup(self.popup.prompt_push(c)).done(),
            _ => self.done(),
        }
    }

    /// A key while a deletion waits to be confirmed: any but those that confirm
    /// and cancel it is ignored.
    #[verifier::opaque]
    pub open spec fn notes_delete_keyed(self, code: KeyCode) -> Reaction {
        match code {
            KeyCode::Char('y') | KeyCode::Enter => stepping(self.confirm_delete_note()),
            KeyCode::Char('n') | KeyCode::Esc => self.cancel_delete_note_confirm().done(),
            _ => self.done(),
        }
    }

    /// A key in the list of notes.
    #[verifier::opaque]
    pub open spec fn notes_list_keyed(self, code: KeyCode) -> Reaction {
        match code {
            KeyCode::Char('j') | KeyCode::Down => self.with_popup(self.popup.move_down()).done(),
            KeyCode::Char('k') | KeyCode::Up => self.with_popup(self.popup.move_up()).done(),
            KeyCode::Char('n') => self.with_popup(
                self.popup.begin_prompt(NotePromptKind::Create, Seq::empty()),
            ).done(),
            KeyCode::Char('r') => self.begin_rename_prompt().done(),
            KeyCode::Char('d') => self.with_popup(self.popup.begin_delete_confirm()).done(),
            KeyCode::Char('u') => stepping(self.unlink_selected_note()),
            KeyCode::Char('e') => stepping(self.open_note_editor(NoteEditorMode::Normal)),
            KeyCode::Char('i') => stepping(self.open_note_editor(NoteEditorMode::Insert)),
            KeyCode::Esc => AppView { mode: Mode::Normal, ..self }.done(),
            _ => self.done(),
        }
    }

    /// A key in the notes popup. An open editor gets every key, but for the one
    /// that pins the note; an open prompt comes next, then a deletion that waits.
    pub open spec fn notes_keyed(self, key: KeyEvent) -> Reaction {
        match self.popup.editor {
            Some(e) => if key.code == KeyCode::Char('z') && e.takes_pin_keys() {
                self.toggle_pin_focus().done()
            } else {
                self.editor_keyed(EditorTarget::Popup, key)
            },
            None => if self.popup.prompt is Some {
                self.notes_prompt_keyed(key.code)
            } else if self.popup.pending_delete is Some {
                self.notes_delete_keyed(key.code)
            } else {
                self.notes_list_keyed(key.code)
            },
        }
    }

    /// A key while the pinned note has the keyboard: `z` and `Z` are commands
    /// unless text is being typed, and every other key goes to the note.
    pub open spec fn pinned_keyed(self, key: KeyEvent) -> Reaction {
        let commands = self.pinned matches Some(e) && e.takes_pin_keys();
        if commands && key.code == KeyCode::Char('z') {
            self.toggle_pin_focus().done()
        } else if commands && key.code == KeyCode::Char('Z') {
            self.close_pinned_note().done()
        } else {
            self.editor_keyed(EditorTarget::Pinned, key)
        }
    }
}

fn signalled(app: &mut App, target: EditorTarget, signal: NoteEditorSignal) -> (r: Vec<Request>)
    ensures
        final(app)@ == old(app)@.signalled(target, signal@).app,
        request::request_views(r@) == old(app)@.signalled(target, signal@).requests,
{
    match signal {
        NoteEditorSignal::Handled => {},
        NoteEditorSignal::Save(kind) => return request::from_io(app.save_editor(target, kind)),
        NoteEditorSignal::Failed(m) => app.flash(m),
        NoteEditorSignal::Esc => match target {
            EditorTarget::Popup => app.close_note_editor(),
            EditorTarget::Pinned => app.toggle_pin_focus(),
        },
        NoteEditorSignal::CloseRequested => app.close_editor(target),
    }
    request::none()
}

/// Handle a key for the editor in the popup.
pub fn handle_note_editor(app: &mut App, key: KeyEvent) -> (r: Vec<Request>)
    requires
        old(app)@.wf(),
    ensures
        final(app)@ == old(app)@.editor_keyed(EditorTarget::Popup, key).app,
        request::request_views(r@) == old(app)@.editor_keyed(EditorTarget::Popup, key).requests,
        final(app)@.wf(),
{
    proof {
        lemma_editor_in_order(app@, EditorTarget::Popup, key);
    }
    reveal(AppView::editor_keyed);
    let signal = match app.notes_popup.active_editor.as_mut() {
        Some(editor) => handle_editor_key(editor, key),
        None => return request::none(),
    };
    signalled(app, EditorTarget::Popup, signal)
}

/// Handle a key for the pinned note.
pub fn handle_pinned_note_key(app: &mut App, key: KeyEvent) -> (r: Vec<Request>)
    requires
        old(app)@.wf(),
    ensures
        final(app)@ == old(app)@.editor_keyed(EditorTarget::Pinned, key).app,
        request::request_views(r@) == old(app)@.editor_keyed(EditorTarget::Pinned, key).requests,
        final(app)@.wf(),
{
    proof {
        lemma_editor_in_order(app@, EditorTarget::Pinned, key);
    }
    reveal(AppView::editor_keyed);
    let signal = match app.pinned_note.as_mut() {
        Some(editor) => handle_editor_key(editor, key),
        None => return request::none(),
    };
    signalled(app, EditorTarget::Pinned, signal)
}

fn handle_notes_prompt(app: &mut App, code: KeyCode) -> (r: Vec<Request>)
    ensures
        final(app)@ == old(app)@.notes_prompt_keyed(code).app,
        request::request_views(r@) == old(app)@.notes_prompt_keyed(code).requests,
{
    reveal(AppView::notes_prompt_keyed);
    match code {
        KeyCode::Esc => app.cancel_note_prompt(),
        KeyCode::Enter => return request::from_io(app.confirm_note_prompt()),
        KeyCode::Backspace => app.notes_popup.prompt_backspace(),
        KeyCode::Char(c) => app.notes_popup.prompt_push(c),
        _ => {},
    }
    request::none()
}

fn handle_notes_delete_confirm(app: &mut App, code: KeyCode) -> (r: Vec<Request>)
    ensures
        final(app)@ == old(app)@.notes_delete_keyed(code).app,
        request::request_views(r@) == old(app)@.notes_delete_keyed(code).requests,
{
    reveal(AppView::notes_delete_keyed);
    match code {
        KeyCode::Char('y') | KeyCode::Enter => return request::from_io(app.confirm_delete_note()),
        KeyCode::Char('n') | KeyCode::Esc => app.cancel_delete_note_confirm(),
        _ => {},
    }
    request::none()
}

fn handle_notes_list(app: &mut App, code: KeyCode) -> (r: Vec<Request>)
    ensures
        final(app)@ == old(app)@.notes_list_keyed(code).app,
        request::request_views(r@) == old(app)@.notes_list_keyed(code).requests,
{
    reveal(AppView::notes_list_keyed);
    match code {
        KeyCode::Char('j') | KeyCode::Down => app.notes_popup.move_down(),
        KeyCode::Char('k') | KeyCode::Up => app.notes_popup.move_up(),
        KeyCode::Char('n') => app.begin_new_note_prompt(),
        KeyCode::Char('r') => app.begin_rename_prompt(),
        KeyCode::Char('d') => app.begin_delete_note_confirm(),
        KeyCode::Char('u') => return request::from_io(app.unlink_selected_note()),
        KeyCode::Char('e') => return request::from_io(app.open_note_editor_normal()),
        KeyCode::Char('i') => return request::from_io(app.open_note_editor_insert()),
        KeyCode::Esc => app.mode = Mode::Normal,
        _ => {},
    }
    request::none()
}

/// Handle a key in the notes popup.
pub fn handle_notes(app: &mut App, key: KeyEvent) -> (r: Vec<Request>)
    requires
        old(app)@.wf(),
    ensures
        final(app)@ == old(app)@.notes_keyed(key).app,
        request::request_views(r@) == old(app)@.notes_keyed(key).requests,
        final(app)@.wf(),
{
    proof {
        lemma_notes_in_order(app@, key);
    }
    if app.notes_popup.active_editor.is_some() {
        if key.code == KeyCode::Char('z') && takes_pin_keys(&app.notes_popup.active_editor) {
            app.toggle_pin_focus();
            return request::none();
        }
        return handle_note_editor(app, key);
    }
    if app.notes_popup.prompt.is_some() {
        return handle_notes_prompt(app, key.code);
    }
    if app.notes_popup.pending_delete.is_some() {
        return handle_notes_delete_confirm(app, key.code);
    }
    handle_notes_list(app, key.code)
}

/// Handle a key while the pinned note has the keyboard.
pub fn handle_pinned(app: &mut App, key: KeyEvent) -> (r: Vec<Request>)
    requires
        old(app)@.wf(),
    ensures
        final(app)@ == old(app)@.pinned_keyed(key).app,
        request::request_views(r@) == old(app)@.pinned_keyed(key).requests,
        final(app)@.wf(),
{
    proof {
        lemma_pinned_in_order(app@, key);
    }
    if takes_pin_keys(&app.pinned_note) {
        match key.code {
            KeyCode::Char('z') => {
                app.toggle_pin_focus();
                return request::none();
            },
            KeyCode::Char('Z') => {
                app.close_pinned_note();
                return request::none();
            },
            _ => {},
        }
    }
    handle_pinned_note_key(app, key)
}

// ---- keeping order -------------------------------------------------------------------

/// No command key puts an editor out of order.
pub proof fn lemma_normal_key_in_order(e: EditorView, key: KeyEvent)
    requires
        e.wf(),
    ensures
        e.normal_key(key).editor.wf(),
{
}

/// No key typed into an editor puts it out of order.
pub proof fn lemma_insert_key_in_order(e: EditorView, key: KeyEvent)
    requires
        e.wf(),
    ensures
        e.insert_key(key).editor.wf(),
{
    if let KeyCode::Char(c) = key.code {
        let line = e.current();
        assert(e.insert_char(c).lines[e.line].len() == line.len() + 1);
    }
}

/// No key for an editor puts the application out of order.
pub proof fn lemma_editor_in_order(v: AppView, target: EditorTarget, key: KeyEvent)
    requires
        v.wf(),
    ensures
        v.editor_keyed(target, key).app.wf(),
{
    reveal(AppView::editor_keyed);
    if let Some(e) = v.editor(target) {
        lemma_normal_key_in_order(e, key);
        lemma_insert_key_in_order(e, key);
    }
}

/// No key in the notes popup puts the application out of order.
pub proof fn lemma_notes_in_order(v: AppView, key: KeyEvent)
    requires
        v.wf(),
    ensures
        v.notes_keyed(key).app.wf(),
{
    lemma_editor_in_order(v, EditorTarget::Popup, key);
    reveal(AppView::notes_prompt_keyed);
    reveal(AppView::notes_delete_keyed);
    reveal(AppView::notes_list_keyed);
}

/// No key for the pinned note puts the application out of order.
pub proof fn lemma_pinned_in_order(v: AppView, key: KeyEvent)
    requires
        v.wf(),
    ensures
        v.pinned_keyed(key).app.wf(),
{
    lemma_editor_in_order(v, EditorTarget::Pinned, key);
}

} // verus!
