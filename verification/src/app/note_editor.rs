//! The embedded note editor: a buffer of lines, a cursor, a Normal/Insert
//! sub-mode and a `:`-command prompt.
//!
//! The editor does no input or output of its own. [`NoteEditorState::load`]
//! takes what was read from the note's file, [`NoteEditorState::content`] is
//! what has to be written to it, and [`NoteEditorState::save`] records whether
//! that worked.
use crate::app::io::EditorTarget;
use crate::app::notes_flow;
use crate::app::{App, AppView};
use crate::text;
use vstd::prelude::*;

verus! {

/// Normal or Insert sub-mode of the embedded editor.
#[derive(Debug, Clone, Copy, PartialEq, Eq, Structural)]
pub enum NoteEditorMode {
    Normal,
    Insert,
}

/// What a `:`-command came to.
#[derive(Debug, Clone, PartialEq, Eq)]
pub enum NoteCommandResult {
    /// The command ran and nothing more is to be done.
    Completed,
    /// The editor asked to be closed.
    CloseRequested,
    /// The command was not understood, or saving failed: the message is to be
    /// shown and the editor stays open.
    Error(String),
}

/// What is left to do once the `:`-command has been read.
#[derive(Debug, Clone, PartialEq, Eq)]
pub enum NoteCommand {
    /// Nothing: this is the result.
    Done(NoteCommandResult),
    /// The buffer has to be written first; `close` says whether the editor
    /// asks to be closed once that succeeded.
    Save { close: bool },
}

/// The text of a [`NoteCommandResult`].
pub enum CommandResultView {
    Completed,
    CloseRequested,
    Error(Seq<char>),
}

/// The text of a [`NoteCommand`].
pub enum CommandView {
    Done(CommandResultView),
    Save { close: bool },
}

impl View for NoteCommandResult {
    type V = CommandResultView;

    open spec fn view(&self) -> CommandResultView {
        match self {
            NoteCommandResult::Completed => CommandResultView::Completed,
            NoteCommandResult::CloseRequested => CommandResultView::CloseRequested,
            NoteCommandResult::Error(m) => CommandResultView::Error(m@),
        }
    }
}

impl View for NoteCommand {
    type V = CommandView;

    open spec fn view(&self) -> CommandView {
        match self {
            NoteCommand::Done(r) => CommandView::Done(r@),
            NoteCommand::Save { close } => CommandView::Save { close: *close },
        }
    }
}

/// The command that the text of the prompt stands for: `w`, `q`, `wq` or `x`,
/// whatever white space surrounds it.
pub open spec fn command_of(input: Seq<char>) -> CommandView {
    let cmd = text::trimmed(input);
    if cmd.len() == 0 {
        CommandView::Done(CommandResultView::Error("no command"@))
    } else if cmd == "w"@ {
        CommandView::Save { close: false }
    } else if cmd == "q"@ {
        CommandView::Done(CommandResultView::CloseRequested)
    } else if cmd == "wq"@ || cmd == "x"@ {
        CommandView::Save { close: true }
    } else {
        CommandView::Done(CommandResultView::Error("unknown command: "@ + cmd))
    }
}

/// The lines that a file's content makes: one per line, where one newline at
/// the very end starts no further line. There is always at least one.
pub open spec fn content_lines(content: Seq<char>) -> Seq<Seq<char>> {
    let all = text::pieces(content, '\n');
    if all.len() > 1 && all.last().len() == 0 {
        all.drop_last()
    } else {
        all
    }
}

/// What a buffer of lines is written as: the lines with newlines between them,
/// and one more at the end.
pub open spec fn lines_content(lines: Seq<Seq<char>>) -> Seq<char> {
    text::joined(lines, '\n').push('\n')
}

/// No line holds a newline of its own.
pub open spec fn newline_free(lines: Seq<Seq<char>>) -> bool {
    forall|i: int| 0 <= i < lines.len() ==> !(#[trigger] lines[i]).contains('\n')
}

/// The state of an editor, as values.
#[verifier::ext_equal]
pub struct EditorView {
    /// The file being edited.
    pub path: Seq<char>,
    /// The buffer, line by line.
    pub lines: Seq<Seq<char>>,
    /// The cursor's line.
    pub line: int,
    /// The cursor's column, in characters.
    pub col: int,
    pub mode: NoteEditorMode,
    /// Whether the buffer was edited since it was last written.
    pub dirty: bool,
    /// The text of the `:`-prompt while it is open.
    pub prompt: Option<Seq<char>>,
}

impl EditorView {
    /// There is a line to put the cursor on, and the cursor is on it or right
    /// behind it.
    pub open spec fn wf(self) -> bool {
        &&& 0 <= self.line < self.lines.len()
        &&& 0 <= self.col <= self.lines[self.line].len()
    }

    /// The line under the cursor.
    pub open spec fn current(self) -> Seq<char> {
        self.lines[self.line]
    }

    /// A freshly loaded editor.
    pub open spec fn loaded(path: Seq<char>, content: Seq<char>, mode: NoteEditorMode) -> Self {
        EditorView {
            path,
            lines: content_lines(content),
            line: 0,
            col: 0,
            mode,
            dirty: false,
            prompt: None,
        }
    }

    /// The cursor put on line `line`, its column held to that line's length.
    pub open spec fn on_line(self, line: int) -> Self {
        let len = self.lines[line].len() as int;
        EditorView {
            line,
            col: if self.col < len {
                self.col
            } else {
                len
            },
            ..self
        }
    }

    pub open spec fn move_down(self) -> Self {
        if self.line + 1 < self.lines.len() {
            self.on_line(self.line + 1)
        } else {
            self
        }
    }

    pub open spec fn move_up(self) -> Self {
        if self.line > 0 {
            self.on_line(self.line - 1)
        } else {
            self
        }
    }

    pub open spec fn move_left(self) -> Self {
        if self.col > 0 {
            EditorView { col: self.col - 1, ..self }
        } else {
            self
        }
    }

    pub open spec fn move_right(self) -> Self {
        if self.col < self.current().len() {
            EditorView { col: self.col + 1, ..self }
        } else {
            self
        }
    }

    pub open spec fn with_mode(self, mode: NoteEditorMode) -> Self {
        EditorView { mode, ..self }
    }

    pub open spec fn with_prompt(self, prompt: Option<Seq<char>>) -> Self {
        EditorView { prompt, ..self }
    }

    /// `c` typed into an open prompt.
    pub open spec fn prompt_push(self, c: char) -> Self {
        match self.prompt {
            Some(p) => self.with_prompt(Some(p.push(c))),
            None => self,
        }
    }

    /// The last character of an open prompt erased.
    pub open spec fn prompt_backspace(self) -> Self {
        match self.prompt {
            Some(p) => if p.len() > 0 {
                self.with_prompt(Some(p.drop_last()))
            } else {
                self
            },
            None => self,
        }
    }

    pub open spec fn insert_char(self, c: char) -> Self {
        EditorView {
            lines: self.lines.update(self.line, self.current().insert(self.col, c)),
            col: self.col + 1,
            dirty: true,
            ..self
        }
    }

    /// The line cut at the cursor: what stood behind it becomes the next line.
    pub open spec fn split_line(self) -> Self {
        EditorView {
            lines: self.lines.update(self.line, self.current().take(self.col)).insert(
                self.line + 1,
                self.current().skip(self.col),
            ),
            line: self.line + 1,
            col: 0,
            dirty: true,
            ..self
        }
    }

    /// The character before the cursor erased, or the line joined to the one
    /// above it.
    pub open spec fn backspace(self) -> Self {
        if self.col > 0 {
            EditorView {
                lines: self.lines.update(self.line, self.current().remove(self.col - 1)),
                col: self.col - 1,
                dirty: true,
                ..self
            }
        } else if self.line > 0 {
            let above = self.lines[self.line - 1];
            EditorView {
                lines: self.lines.remove(self.line).update(
                    self.line - 1,
                    above + self.current(),
                ),
                line: self.line - 1,
                col: above.len() as int,
                dirty: true,
                ..self
            }
        } else {
            self
        }
    }

    /// The buffer after an attempt to write it.
    pub open spec fn saved(self, written: bool) -> Self {
        EditorView { dirty: self.dirty && !written, ..self }
    }
}

/// The embedded editor's state for one open file.
///
/// The cursor's column counts characters, not bytes, so that no motion or edit
/// ends up inside a character.
#[derive(Debug, Clone, PartialEq, Eq)]
pub struct NoteEditorState {
    path: String,
    lines: Vec<String>,
    cursor_line: usize,
    cursor_col: usize,
    mode: NoteEditorMode,
    dirty: bool,
    command_prompt: Option<String>,
}

impl View for NoteEditorState {
    type V = EditorView;

    closed spec fn view(&self) -> EditorView {
        EditorView {
            path: self.path@,
            lines: text::texts(self.lines@),
            line: self.cursor_line as int,
            col: self.cursor_col as int,
            mode: self.mode,
            dirty: self.dirty,
            prompt: match self.command_prompt {
                Some(p) => Some(p@),
                None => None,
            },
        }
    }
}

impl NoteEditorState {
    /// Open `path` in `mode`, with what was read from it; `None` where it could
    /// not be read, which opens an empty buffer.
    pub fn load(path: String, read: Option<String>, mode: NoteEditorMode) -> (r: Self)
        ensures
            r@ == EditorView::loaded(
                path@,
                match read {
                    Some(c) => c@,
                    None => Seq::empty(),
                },
                mode,
            ),
            r@.wf(),
            newline_free(r@.lines),
    {
        let content = match read {
            Some(c) => c,
            None => String::new(),
        };
        let lines = lines_from_content(content.as_str());
        NoteEditorState {
            path,
            lines,
            cursor_line: 0,
            cursor_col: 0,
            mode,
            dirty: false,
            command_prompt: None,
        }
    }

    pub fn path(&self) -> (r: &String)
        ensures
            r@ == self@.path,
    {
        &self.path
    }

    pub fn lines(&self) -> (r: &Vec<String>)
        ensures
            text::texts(r@) == self@.lines,
    {
        &self.lines
    }

    pub fn cursor_line(&self) -> (r: usize)
        ensures
            r == self@.line,
    {
        self.cursor_line
    }

    pub fn cursor_col(&self) -> (r: usize)
        ensures
            r == self@.col,
    {
        self.cursor_col
    }

    pub fn mode(&self) -> (r: NoteEditorMode)
        ensures
            r == self@.mode,
    {
        self.mode
    }

    pub fn dirty(&self) -> (r: bool)
        ensures
            r == self@.dirty,
    {
        self.dirty
    }

    /// What the buffer is written as: its lines with newlines between them and
    /// one at the end.
    pub fn content(&self) -> (r: String)
        ensures
            r@ == lines_content(self@.lines),
    {
        let mut r = text::join_with(&self.lines, '\n');
        r.push('\n');
        r
    }

    /// Record whether the buffer's content was written to its file: it is
    /// clean once it was, and as it was before where the write failed.
    pub fn save(&mut self, written: Result<(), String>) -> (r: Result<(), String>)
        ensures
            r == written,
            final(self)@ == old(self)@.saved(written is Ok),
    {
        if written.is_ok() {
            self.dirty = false;
        }
        written
    }

    fn current_line_len(&self) -> (r: usize)
        requires
            self@.wf(),
        ensures
            r == self@.current().len(),
    {
        self.lines[self.cursor_line].as_str().unicode_len()
    }

    fn clamp_col(&mut self)
        requires
            0 <= old(self)@.line < old(self)@.lines.len(),
        ensures
            final(self)@ == old(self)@.on_line(old(self)@.line),
            final(self)@.wf(),
    {
        let len: usize = self.lines[self.cursor_line].as_str().unicode_len();
        if self.cursor_col >= len {
            self.cursor_col = len;
        }
    }

    /// Move down one line, held at the last one.
    pub fn move_down(&mut self)
        requires
            old(self)@.wf(),
        ensures
            final(self)@ == old(self)@.move_down(),
            final(self)@.wf(),
    {
        if self.cursor_line < self.lines.len() - 1 {
            self.cursor_line += 1;
            self.clamp_col();
        }
    }

    /// Move up one line, held at the first one.
    pub fn move_up(&mut self)
        requires
            old(self)@.wf(),
        ensures
            final(self)@ == old(self)@.move_up(),
            final(self)@.wf(),
    {
        self.cursor_line = self.cursor_line.saturating_sub(1);
        self.clamp_col();
    }

    /// Move left one character, held at the start of the line.
    pub fn move_left(&mut self)
        requires
            old(self)@.wf(),
        ensures
            final(self)@ == old(self)@.move_left(),
            final(self)@.wf(),
    {
        self.cursor_col = self.cursor_col.saturating_sub(1);
    }

    /// Move right one character, held at the end of the line.
    pub fn move_right(&mut self)
        requires
            old(self)@.wf(),
        ensures
            final(self)@ == old(self)@.move_right(),
            final(self)@.wf(),
    {
        let len: usize = self.current_line_len();
        if self.cursor_col < len {
            self.cursor_col += 1;
        }
    }

    /// Enter Insert sub-mode.
    pub fn enter_insert(&mut self)
        ensures
            final(self)@ == old(self)@.with_mode(NoteEditorMode::Insert),
    {
        self.mode = NoteEditorMode::Insert;
    }

    /// Return to Normal sub-mode, staying inside the editor.
    pub fn esc_to_normal(&mut self)
        ensures
            final(self)@ == old(self)@.with_mode(NoteEditorMode::Normal),
    {
        self.mode = NoteEditorMode::Normal;
    }

    /// The text of the `:`-prompt, `None` while it is closed.
    pub fn command_prompt(&self) -> (r: Option<&str>)
        ensures
            match (r, self@.prompt) {
                (Some(s), Some(p)) => s@ == p,
                (None, None) => true,
                _ => false,
            },
    {
        match &self.command_prompt {
            Some(p) => Some(p.as_str()),
            None => None,
        }
    }

    /// Open the `:`-prompt, empty.
    pub fn open_command_prompt(&mut self)
        ensures
            final(self)@ == old(self)@.with_prompt(Some(Seq::empty())),
    {
        self.command_prompt = Some(String::new());
    }

    /// Append `c` to the prompt; nothing happens while it is closed.
    pub fn command_prompt_push(&mut self, c: char)
        ensures
            final(self)@ == old(self)@.prompt_push(c),
    {
        if let Some(buf) = self.command_prompt.as_mut() {
            buf.push(c);
        }
    }

    /// Erase the prompt's last character; nothing happens while the prompt is
    /// empty or closed.
    pub fn command_prompt_backspace(&mut self)
        ensures
            final(self)@ == old(self)@.prompt_backspace(),
    {
        if let Some(buf) = self.command_prompt.as_mut() {
            let _ = buf.pop();
        }
    }

    /// Close the prompt and drop its text.
    pub fn cancel_command_prompt(&mut self)
        ensures
            final(self)@ == old(self)@.with_prompt(None),
    {
        self.command_prompt = None;
    }

    /// Close the prompt and read the command in it: `w` saves, `q` closes, `wq`
    /// and `x` save and then close. An empty or closed prompt is no command.
    pub fn execute_command_prompt(&mut self) -> (r: NoteCommand)
        ensures
            final(self)@ == old(self)@.with_prompt(None),
            r@ == command_of(
                match old(self)@.prompt {
                    Some(p) => p,
                    None => Seq::empty(),
                },
            ),
    {
        let input = match self.command_prompt.take() {
            Some(p) => p,
            None => String::new(),
        };
        let cmd = text::trim(input.as_str());
        let cmd = cmd.as_str();
        if cmd.is_empty() {
            return NoteCommand::Done(NoteCommandResult::Error("no command".to_owned()));
        }
        if text::str_eq(cmd, "w") {
            NoteCommand::Save { close: false }
        } else if text::str_eq(cmd, "q") {
            NoteCommand::Done(NoteCommandResult::CloseRequested)
        } else if text::str_eq(cmd, "wq") || text::str_eq(cmd, "x") {
            NoteCommand::Save { close: true }
        } else {
            let mut message = "unknown command: ".to_owned();
            message.append(cmd);
            NoteCommand::Done(NoteCommandResult::Error(message))
        }
    }

    /// Finish a command that had to write the buffer: the close is asked for
    /// only where the write succeeded.
    pub fn finish_command(&mut self, close: bool, written: Result<(), String>) -> (r:
        NoteCommandResult)
        ensures
            final(self)@ == old(self)@.saved(written is Ok),
            r@ == command_result(close, notes_flow::said(written)),
    {
        match self.save(written) {
            Ok(()) => if close {
                NoteCommandResult::CloseRequested
            } else {
                NoteCommandResult::Completed
            },
            Err(e) => NoteCommandResult::Error(save_failed_message(e.as_str())),
        }
    }

    /// Insert `c` at the cursor and step over it.
    pub fn insert_char(&mut self, c: char)
        requires
            old(self)@.wf(),
        ensures
            final(self)@ == old(self)@.insert_char(c),
            final(self)@.wf(),
    {
        let at: usize = text::byte_offset(self.lines[self.cursor_line].as_str(), self.cursor_col);
        let line = &mut self.lines[self.cursor_line];
        line.insert(at, c);
        let len: usize = line.as_str().unicode_len();
        assert(self.cursor_col < len);
        self.cursor_col += 1;
        self.dirty = true;
        assert(self@.lines =~= old(self)@.insert_char(c).lines);
    }

    /// Cut the line at the cursor and put the cursor at the start of the new
    /// line below.
    pub fn split_line(&mut self)
        requires
            old(self)@.wf(),
        ensures
            final(self)@ == old(self)@.split_line(),
            final(self)@.wf(),
    {
        let at: usize = text::byte_offset(self.lines[self.cursor_line].as_str(), self.cursor_col);
        let line = &mut self.lines[self.cursor_line];
        let rest = line.split_off(at);
        let count: usize = self.lines.len();
        assert(self.cursor_line < count);
        self.cursor_line += 1;
        self.lines.insert(self.cursor_line, rest);
        self.cursor_col = 0;
        self.dirty = true;
        assert(self@.lines =~= old(self)@.split_line().lines);
    }

    /// Erase the character before the cursor. At the start of a line the line
    /// is joined to the one above it, and at the start of the buffer nothing
    /// happens.
    pub fn backspace(&mut self)
        requires
            old(self)@.wf(),
        ensures
            final(self)@ == old(self)@.backspace(),
            final(self)@.wf(),
    {
        if self.cursor_col > 0 {
            let at: usize = text::byte_offset(
                self.lines[self.cursor_line].as_str(),
                self.cursor_col - 1,
            );
            let line = &mut self.lines[self.cursor_line];
            let _ = line.remove(at);
            self.cursor_col -= 1;
            self.dirty = true;
            assert(self@.lines =~= old(self)@.backspace().lines);
        } else if self.cursor_line > 0 {
            let current = self.lines.remove(self.cursor_line);
            self.cursor_line -= 1;
            let above = &mut self.lines[self.cursor_line];
            let len: usize = above.as_str().unicode_len();
            above.append(current.as_str());
            self.cursor_col = len;
            self.dirty = true;
            assert(self@.lines =~= old(self)@.backspace().lines);
        }
    }
}

/// What a command that had to write the buffer comes to.
pub open spec fn command_result(
    close: bool,
    written: Result<(), Seq<char>>,
) -> CommandResultView {
    match written {
        Ok(_) => if close {
            CommandResultView::CloseRequested
        } else {
            CommandResultView::Completed
        },
        Err(e) => CommandResultView::Error("note save failed: "@ + e),
    }
}

/// The message for a note that could not be written.
pub fn save_failed_message(error: &str) -> (r: String)
    ensures
        r@ == "note save failed: "@ + error@,
{
    let mut message = "note save failed: ".to_owned();
    message.append(error);
    message
}

/// The buffer lines that a file's content makes.
pub fn lines_from_content(content: &str) -> (r: Vec<String>)
    ensures
        text::texts(r@) == content_lines(content@),
        r@.len() > 0,
        newline_free(text::texts(r@)),
{
    let mut lines = text::split_on(content, '\n');
    let ghost all = text::texts(lines@);
    let n = lines.len();
    if n > 1 && lines[n - 1].as_str().is_empty() {
        let _ = lines.pop();
        assert(text::texts(lines@) =~= all.drop_last());
    }
    proof {
        text::lemma_pieces_free(content@, '\n');
        assert forall|i: int| 0 <= i < lines@.len() implies !(#[trigger] text::texts(
            lines@,
        )[i]).contains('\n') by {
            assert(text::texts(lines@)[i] == all[i]);
        }
    }
    lines
}

// ---- the editor in the notes popup -------------------------------------------------

impl AppView {
    /// The note open in the popup, edited; nothing where none is open.
    pub open spec fn edit_note(self, edit: spec_fn(EditorView) -> EditorView) -> Self {
        match self.popup.editor {
            Some(e) => self.with_editor(EditorTarget::Popup, Some(edit(e))),
            None => self,
        }
    }
}

impl App {
    /// Enter Insert sub-mode.
    pub fn note_editor_enter_insert(&mut self)
        ensures
            final(self)@ == old(self)@.edit_note(|e: EditorView| e.with_mode(NoteEditorMode::Insert)),
    {
        if let Some(editor) = self.notes_popup.active_editor.as_mut() {
            editor.enter_insert();
        }
    }

    /// Return to Normal sub-mode, staying in the editor.
    pub fn note_editor_esc_to_normal(&mut self)
        ensures
            final(self)@ == old(self)@.edit_note(|e: EditorView| e.with_mode(NoteEditorMode::Normal)),
    {
        if let Some(editor) = self.notes_popup.active_editor.as_mut() {
            editor.esc_to_normal();
        }
    }

    /// Move down one line.
    pub fn note_editor_move_down(&mut self)
        requires
            old(self)@.popup.wf(),
        ensures
            final(self)@ == old(self)@.edit_note(|e: EditorView| e.move_down()),
            final(self)@.popup.wf(),
    {
        if let Some(editor) = self.notes_popup.active_editor.as_mut() {
            editor.move_down();
        }
    }

    /// Move up one line.
    pub fn note_editor_move_up(&mut self)
        requires
            old(self)@.popup.wf(),
        ensures
            final(self)@ == old(self)@.edit_note(|e: EditorView| e.move_up()),
            final(self)@.popup.wf(),
    {
        if let Some(editor) = self.notes_popup.active_editor.as_mut() {
            editor.move_up();
        }
    }

    /// Move left one character.
    pub fn note_editor_move_left(&mut self)
        requires
            old(self)@.popup.wf(),
        ensures
            final(self)@ == old(self)@.edit_note(|e: EditorView| e.move_left()),
            final(self)@.popup.wf(),
    {
        if let Some(editor) = self.notes_popup.active_editor.as_mut() {
            editor.move_left();
        }
    }

    /// Move right one character.
    pub fn note_editor_move_right(&mut self)
        requires
            old(self)@.popup.wf(),
        ensures
            final(self)@ == old(self)@.edit_note(|e: EditorView| e.move_right()),
            final(self)@.popup.wf(),
    {
        if let Some(editor) = self.notes_popup.active_editor.as_mut() {
            editor.move_right();
        }
    }

    /// Insert `c` at the cursor.
    pub fn note_editor_insert_char(&mut self, c: char)
        requires
            old(self)@.popup.wf(),
        ensures
            final(self)@ == old(self)@.edit_note(|e: EditorView| e.insert_char(c)),
            final(self)@.popup.wf(),
    {
        if let Some(editor) = self.notes_popup.active_editor.as_mut() {
            editor.insert_char(c);
        }
    }

    /// Cut the line at the cursor.
    pub fn note_editor_split_line(&mut self)
        requires
            old(self)@.popup.wf(),
        ensures
            final(self)@ == old(self)@.edit_note(|e: EditorView| e.split_line()),
            final(self)@.popup.wf(),
    {
        if let Some(editor) = self.notes_popup.active_editor.as_mut() {
            editor.split_line();
        }
    }

    /// Erase the character before the cursor, or join the line to the one above.
    pub fn note_editor_backspace(&mut self)
        requires
            old(self)@.popup.wf(),
        ensures
            final(self)@ == old(self)@.edit_note(|e: EditorView| e.backspace()),
            final(self)@.popup.wf(),
    {
        if let Some(editor) = self.notes_popup.active_editor.as_mut() {
            editor.backspace();
        }
    }
}

// ---- laws ------------------------------------------------------------------

/// Saving and loading again gives the same lines, however many blank lines the
/// buffer ends in.
pub proof fn law_load_undoes_save(lines: Seq<Seq<char>>)
    requires
        lines.len() > 0,
        newline_free(lines),
    ensures
        content_lines(lines_content(lines)) == lines,
{
    let body = text::joined(lines, '\n');
    text::lemma_split_join(lines, '\n');
    text::lemma_pieces_concat(body, '\n', Seq::empty());
    assert(body.push('\n') + Seq::<char>::empty() =~= body.push('\n'));
    let all = text::pieces(lines_content(lines), '\n');
    assert(all =~= lines.push(Seq::empty()));
    assert(all.drop_last() =~= lines);
}

/// Loading a file and saving it unedited changes nothing in it but that a
/// missing newline at its end is added.
pub proof fn law_save_undoes_load(content: Seq<char>)
    ensures
        lines_content(content_lines(content)) == if content.len() > 0 && content.last() == '\n' {
            content
        } else {
            content.push('\n')
        },
{
    let all = text::pieces(content, '\n');
    text::lemma_join_split(content, '\n');
    if content.len() > 0 {
        let d = content.drop_last();
        text::lemma_pieces_nonempty(d, '\n');
        text::lemma_join_split(d, '\n');
        if content.last() == '\n' {
            assert(all.drop_last() =~= text::pieces(d, '\n'));
            assert(d.push('\n') =~= content);
        } else {
            assert(all.last().len() > 0);
        }
    }
}

/// A buffer has at least one line and none of them holds a newline, whatever
/// was loaded.
pub proof fn law_loaded_is_wf(path: Seq<char>, content: Seq<char>, mode: NoteEditorMode)
    ensures
        EditorView::loaded(path, content, mode).wf(),
        newline_free(EditorView::loaded(path, content, mode).lines),
{
    text::lemma_pieces_nonempty(content, '\n');
    text::lemma_pieces_free(content, '\n');
    let all = text::pieces(content, '\n');
    let lines = content_lines(content);
    assert forall|i: int| 0 <= i < lines.len() implies !(#[trigger] lines[i]).contains('\n') by {
        assert(lines[i] == all[i]);
    }
}

/// Backspace takes back a typed character.
pub proof fn law_backspace_undoes_insert(e: EditorView, c: char)
    requires
        e.wf(),
    ensures
        e.insert_char(c).backspace() == (EditorView { dirty: true, ..e }),
{
    let line = e.current();
    assert(line.insert(e.col, c).remove(e.col) =~= line);
    assert(e.insert_char(c).backspace().lines =~= e.lines);
}

/// Backspace takes back a split: the two halves are joined again and the cursor
/// is back where it was.
pub proof fn law_backspace_undoes_split(e: EditorView)
    requires
        e.wf(),
    ensures
        e.split_line().backspace() == (EditorView { dirty: true, ..e }),
{
    let line = e.current();
    assert(line.take(e.col) + line.skip(e.col) =~= line);
    assert(e.split_line().backspace().lines =~= e.lines);
}

/// A motion moves the cursor and nothing else, and keeps it in bounds.
pub proof fn law_motions_keep_text(e: EditorView)
    requires
        e.wf(),
    ensures
        forall|m: EditorView|
            m == e.move_down() || m == e.move_up() || m == e.move_left() || m == e.move_right()
                ==> #[trigger] m.wf() && m == (EditorView { line: m.line, col: m.col, ..e }),
{
}

/// Editing never puts a newline inside a line, and keeps the cursor in bounds:
/// typing any other character, splitting and erasing.
pub proof fn law_edits_keep_lines(e: EditorView, c: char)
    requires
        e.wf(),
        newline_free(e.lines),
        c != '\n',
    ensures
        e.insert_char(c).wf() && newline_free(e.insert_char(c).lines),
        e.split_line().wf() && newline_free(e.split_line().lines),
        e.backspace().wf() && newline_free(e.backspace().lines),
{
    let line = e.current();
    assert(!line.contains('\n'));
    assert forall|i: int| 0 <= i < e.insert_char(c).lines.len() implies !(
    #[trigger] e.insert_char(c).lines[i]).contains('\n') by {
        if i == e.line {
            let t = line.insert(e.col, c);
            assert forall|k: int| 0 <= k < t.len() implies t[k] != '\n' by {
                if k < e.col {
                    assert(t[k] == line[k]);
                } else if k > e.col {
                    assert(t[k] == line[k - 1]);
                }
            }
        } else {
            assert(e.insert_char(c).lines[i] == e.lines[i]);
        }
    }
    assert forall|i: int| 0 <= i < e.split_line().lines.len() implies !(
    #[trigger] e.split_line().lines[i]).contains('\n') by {
        let t = e.split_line().lines[i];
        if i == e.line {
            assert(t =~= line.take(e.col));
            assert forall|k: int| 0 <= k < t.len() implies t[k] != '\n' by {
                assert(t[k] == line[k]);
            }
        } else if i == e.line + 1 {
            assert(t =~= line.skip(e.col));
            assert forall|k: int| 0 <= k < t.len() implies t[k] != '\n' by {
                assert(t[k] == line[k + e.col]);
            }
        } else if i < e.line {
            assert(t == e.lines[i]);
        } else {
            assert(t == e.lines[i - 1]);
        }
    }
    assert forall|i: int| 0 <= i < e.backspace().lines.len() implies !(
    #[trigger] e.backspace().lines[i]).contains('\n') by {
        let t = e.backspace().lines[i];
        if e.col > 0 {
            if i == e.line {
                assert forall|k: int| 0 <= k < t.len() implies t[k] != '\n' by {
                    if k < e.col - 1 {
                        assert(t[k] == line[k]);
                    } else {
                        assert(t[k] == line[k + 1]);
                    }
                }
            } else {
                assert(t == e.lines[i]);
            }
        } else if e.line > 0 {
            let above = e.lines[e.line - 1];
            assert(!above.contains('\n'));
            if i == e.line - 1 {
                assert(t == above + line);
                assert forall|k: int| 0 <= k < t.len() implies t[k] != '\n' by {
                    if k < above.len() {
                        assert(t[k] == above[k]);
                    } else {
                        assert(t[k] == line[k - above.len()]);
                    }
                }
            } else if i < e.line {
                assert(t == e.lines[i]);
            } else {
                assert(t == e.lines[i + 1]);
            }
        }
    }
}

/// The `:`-commands: only `w`, `wq` and `x` write the buffer, a failed write
/// never closes the editor, and `q` closes without writing.
pub proof fn law_failed_save_never_closes(input: Seq<char>, written: Result<(), Seq<char>>)
    ensures
        command_of(input) matches CommandView::Save { close } ==> (command_result(close, written)
            == CommandResultView::CloseRequested <==> close && written is Ok),
        command_of(input) is Save <==> {
            let cmd = text::trimmed(input);
            cmd == "w"@ || cmd == "wq"@ || cmd == "x"@
        },
        text::trimmed(input) == "q"@ ==> command_of(input) == CommandView::Done(
            CommandResultView::CloseRequested,
        ),
{
    reveal_strlit("w");
    reveal_strlit("q");
    reveal_strlit("wq");
    reveal_strlit("x");
    assert("w"@[0] == 'w' && "q"@[0] == 'q' && "x"@[0] == 'x' && "wq"@[0] == 'w');
    assert("wq"@.len() == 2);
}

} // verus!
