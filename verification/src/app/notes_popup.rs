//! The notes popup: the list of a task's notes, with creating, renaming,
//! deleting and unlinking them.
use crate::app::note_editor::{EditorView, NoteEditorState};
use crate::note::{FolderView, NotesFolder};
use crate::text;
use vstd::prelude::*;

verus! {

/// What the inline prompt is for.
#[derive(Debug, Clone, Copy, PartialEq, Eq, Structural)]
pub enum NotePromptKind {
    /// The name of a new note.
    Create,
    /// A new name for the file at `index`.
    Rename { index: usize },
}

/// The state of the notes popup.
#[derive(Debug, Clone, PartialEq, Eq)]
pub struct NotesPopupState {
    /// The paths of the task's notes, sorted.
    pub files: Vec<String>,
    /// The selected row. It means nothing while there are no files.
    pub cursor: usize,
    /// The notes folder of the task that the popup is open for.
    pub folder: Option<NotesFolder>,
    /// Where that task stands in the list, `None` for an archived one.
    pub task_abs: Option<usize>,
    /// The text of the inline prompt while it is open.
    pub prompt: Option<String>,
    /// What the prompt is for. Open and closed together with `prompt`.
    pub prompt_kind: Option<NotePromptKind>,
    /// The row that waits for its deletion to be confirmed.
    pub pending_delete: Option<usize>,
    /// The note open in the embedded editor.
    pub active_editor: Option<NoteEditorState>,
}

/// The popup, as values.
pub struct PopupView {
    pub files: Seq<Seq<char>>,
    pub cursor: int,
    pub folder: Option<FolderView>,
    pub task_abs: Option<usize>,
    pub prompt: Option<Seq<char>>,
    pub prompt_kind: Option<NotePromptKind>,
    pub pending_delete: Option<usize>,
    pub editor: Option<EditorView>,
}

/// An editor that may be open, as values.
pub open spec fn editor_view(e: Option<NoteEditorState>) -> Option<EditorView> {
    match e {
        Some(e) => Some(e@),
        None => None,
    }
}

/// A folder that may be known, as values.
pub open spec fn folder_view(f: Option<NotesFolder>) -> Option<FolderView> {
    match f {
        Some(f) => Some(f@),
        None => None,
    }
}

impl View for NotesPopupState {
    type V = PopupView;

    open spec fn view(&self) -> PopupView {
        PopupView {
            files: text::texts(self.files@),
            cursor: self.cursor as int,
            folder: folder_view(self.folder),
            task_abs: self.task_abs,
            prompt: text::opt_text(self.prompt),
            prompt_kind: self.prompt_kind,
            pending_delete: self.pending_delete,
            editor: editor_view(self.active_editor),
        }
    }
}

impl PopupView {
    /// The prompt's text and its purpose are there together, and an open editor
    /// is in order.
    pub open spec fn wf(self) -> bool {
        &&& self.prompt is Some <==> self.prompt_kind is Some
        &&& self.editor matches Some(e) ==> e.wf()
    }

    /// A popup that just opened on `files`.
    pub open spec fn listing(files: Seq<Seq<char>>) -> Self {
        PopupView {
            files,
            cursor: 0,
            folder: None,
            task_abs: None,
            prompt: None,
            prompt_kind: None,
            pending_delete: None,
            editor: None,
        }
    }

    pub open spec fn move_down(self) -> Self {
        if self.files.len() == 0 {
            self
        } else if self.cursor + 1 < self.files.len() {
            PopupView { cursor: self.cursor + 1, ..self }
        } else {
            PopupView { cursor: self.files.len() - 1, ..self }
        }
    }

    pub open spec fn move_up(self) -> Self {
        if self.cursor > 0 {
            PopupView { cursor: self.cursor - 1, ..self }
        } else {
            self
        }
    }

    /// The path under the cursor.
    pub open spec fn selected(self) -> Option<Seq<char>> {
        if self.cursor < self.files.len() {
            Some(self.files[self.cursor])
        } else {
            None
        }
    }

    /// The cursor, where there is anything to point at.
    pub open spec fn selected_index(self) -> Option<int> {
        if self.files.len() == 0 {
            None
        } else {
            Some(self.cursor)
        }
    }

    pub open spec fn clamp_cursor(self) -> Self {
        if self.files.len() == 0 {
            PopupView { cursor: 0, ..self }
        } else if self.cursor >= self.files.len() {
            PopupView { cursor: self.files.len() - 1, ..self }
        } else {
            self
        }
    }

    pub open spec fn begin_prompt(self, kind: NotePromptKind, buffer: Seq<char>) -> Self {
        PopupView { prompt: Some(buffer), prompt_kind: Some(kind), ..self }
    }

    pub open spec fn prompt_push(self, c: char) -> Self {
        match self.prompt {
            Some(p) => PopupView { prompt: Some(p.push(c)), ..self },
            None => self,
        }
    }

    pub open spec fn prompt_backspace(self) -> Self {
        match self.prompt {
            Some(p) => if p.len() > 0 {
                PopupView { prompt: Some(p.drop_last()), ..self }
            } else {
                self
            },
            None => self,
        }
    }

    pub open spec fn cancel_prompt(self) -> Self {
        PopupView { prompt: None, prompt_kind: None, ..self }
    }

    pub open spec fn begin_delete_confirm(self) -> Self {
        match self.selected_index() {
            Some(i) => PopupView { pending_delete: Some(i as usize), ..self },
            None => self,
        }
    }

    pub open spec fn cancel_delete_confirm(self) -> Self {
        PopupView { pending_delete: None, ..self }
    }

    pub open spec fn with_files(self, files: Seq<Seq<char>>) -> Self {
        PopupView { files, ..self }
    }

    pub open spec fn with_editor(self, editor: Option<EditorView>) -> Self {
        PopupView { editor, ..self }
    }
}

impl Default for NotesPopupState {
    fn default() -> (r: Self)
        ensures
            r@ == PopupView::listing(Seq::empty()),
    {
        let files: Vec<String> = Vec::new();
        assert(text::texts(files@) =~= Seq::empty());
        NotesPopupState::new(files)
    }
}

impl NotesPopupState {
    /// A popup that just opened on `files`.
    pub fn new(files: Vec<String>) -> (r: Self)
        ensures
            r@ == PopupView::listing(text::texts(files@)),
    {
        NotesPopupState {
            files,
            cursor: 0,
            folder: None,
            task_abs: None,
            prompt: None,
            prompt_kind: None,
            pending_delete: None,
            active_editor: None,
        }
    }

    /// Move one row down, held at the last row.
    pub fn move_down(&mut self)
        ensures
            final(self)@ == old(self)@.move_down(),
    {
        let len: usize = self.files.len();
        if len == 0 {
            return;
        }
        if self.cursor < len - 1 {
            self.cursor += 1;
        } else {
            self.cursor = len - 1;
        }
    }

    /// Move one row up, held at the first row.
    pub fn move_up(&mut self)
        ensures
            final(self)@ == old(self)@.move_up(),
    {
        self.cursor = self.cursor.saturating_sub(1);
    }

    /// The path under the cursor, if any.
    pub fn selected(&self) -> (r: Option<&String>)
        ensures
            match (r, self@.selected()) {
                (Some(s), Some(p)) => s@ == p,
                (None, None) => true,
                _ => false,
            },
    {
        if self.cursor < self.files.len() {
            Some(&self.files[self.cursor])
        } else {
            None
        }
    }

    /// The cursor's row, `None` while there are no files.
    pub fn selected_index(&self) -> (r: Option<usize>)
        ensures
            match (r, self@.selected_index()) {
                (Some(i), Some(j)) => i == j,
                (None, None) => true,
                _ => false,
            },
    {
        if self.files.len() == 0 {
            None
        } else {
            Some(self.cursor)
        }
    }

    /// Bring the cursor back onto the list after it shrank.
    pub fn clamp_cursor(&mut self)
        ensures
            final(self)@ == old(self)@.clamp_cursor(),
    {
        let len: usize = self.files.len();
        if len == 0 {
            self.cursor = 0;
        } else if self.cursor >= len {
            self.cursor = len - 1;
        }
    }

    /// Open the inline prompt for `kind`, holding `buffer`.
    pub fn begin_prompt(&mut self, kind: NotePromptKind, buffer: String)
        ensures
            final(self)@ == old(self)@.begin_prompt(kind, buffer@),
    {
        self.prompt = Some(buffer);
        self.prompt_kind = Some(kind);
    }

    /// Append a character to the prompt, if it is open.
    pub fn prompt_push(&mut self, c: char)
        ensures
            final(self)@ == old(self)@.prompt_push(c),
    {
        if let Some(buf) = self.prompt.as_mut() {
            buf.push(c);
        }
    }

    /// Erase the prompt's last character, if there is one.
    pub fn prompt_backspace(&mut self)
        ensures
            final(self)@ == old(self)@.prompt_backspace(),
    {
        if let Some(buf) = self.prompt.as_mut() {
            let _ = buf.pop();
        }
    }

    /// Close the prompt and do nothing else.
    pub fn cancel_prompt(&mut self)
        ensures
            final(self)@ == old(self)@.cancel_prompt(),
    {
        self.prompt = None;
        self.prompt_kind = None;
    }

    /// Ask before the selected row is deleted. While there are no files, nothing
    /// changes.
    pub fn begin_delete_confirm(&mut self)
        ensures
            final(self)@ == old(self)@.begin_delete_confirm(),
    {
        if let Some(i) = self.selected_index() {
            self.pending_delete = Some(i);
        }
    }

    /// Stop asking and delete nothing.
    pub fn cancel_delete_confirm(&mut self)
        ensures
            final(self)@ == old(self)@.cancel_delete_confirm(),
    {
        self.pending_delete = None;
    }
}

// ---- file names ------------------------------------------------------------------

/// Whether a name ends in `.md`, whatever the case of the letters.
pub open spec fn has_note_ending(name: Seq<char>) -> bool {
    &&& name.len() >= 3
    &&& name[name.len() - 3] == '.'
    &&& text::ascii_lower(name[name.len() - 2]) == 'm'
    &&& text::ascii_lower(name[name.len() - 1]) == 'd'
}

/// The file name that a typed name stands for: itself where it ends in `.md`,
/// else with `.md` behind it.
pub open spec fn note_file_name(name: Seq<char>) -> Seq<char> {
    if has_note_ending(name) {
        name
    } else {
        name + ".md"@
    }
}

/// The file name that a typed name stands for.
pub fn normalize_note_file_name(name: &str) -> (r: String)
    ensures
        r@ == note_file_name(name@),
{
    let n: usize = name.unicode_len();
    let mut r = name.to_owned();
    if n >= 3 && name.get_char(n - 3) == '.' {
        let m = name.get_char(n - 2);
        let d = name.get_char(n - 1);
        if (m == 'm' || m == 'M') && (d == 'd' || d == 'D') {
            return r;
        }
    }
    r.append(".md");
    r
}

/// A file name stands for itself, and every name that is made ends in `.md`.
pub proof fn law_file_names_are_stable(name: Seq<char>)
    ensures
        has_note_ending(note_file_name(name)),
        note_file_name(note_file_name(name)) == note_file_name(name),
{
    reveal_strlit(".md");
}

/// Opening and closing the prompt keeps its text and its purpose together, and
/// closing it leaves the list as it was before it opened.
pub proof fn law_prompt_in_step(p: PopupView, kind: NotePromptKind, buffer: Seq<char>, c: char)
    requires
        p.wf(),
    ensures
        p.begin_prompt(kind, buffer).wf(),
        p.prompt_push(c).wf(),
        p.prompt_backspace().wf(),
        p.cancel_prompt().wf(),
        p.prompt is None ==> p.begin_prompt(kind, buffer).cancel_prompt() == p,
        p.prompt is Some ==> p.prompt_push(c).prompt_backspace() == p,
{
    if let Some(b) = p.prompt {
        assert(b.push(c).drop_last() =~= b);
    }
}

/// No motion leaves the list, and a cursor brought back onto the list points at
/// a file unless there are none.
pub proof fn law_cursor_stays_on_the_list(p: PopupView)
    requires
        p.cursor >= 0,
    ensures
        p.files.len() > 0 ==> 0 <= p.move_down().cursor < p.files.len(),
        p.selected() is Some ==> p.move_up().selected() is Some,
        p.clamp_cursor().cursor >= 0,
        p.clamp_cursor().selected() is Some <==> p.files.len() > 0,
        p.clamp_cursor().clamp_cursor() == p.clamp_cursor(),
{
}

} // verus!
