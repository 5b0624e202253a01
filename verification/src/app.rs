//! Application state.
pub mod io;
pub mod note_editor;
pub mod notes_flow;
pub mod notes_popup;
pub mod palette;
pub mod pinned_note;
pub mod types;

use crate::app::io::{EditorTarget, Io, IoRequest, Pending, PendingStep, PendingView};
use crate::app::note_editor::{EditorView, NoteEditorState};
use crate::app::notes_popup::{NotesPopupState, PopupView};
use crate::app::palette::{CommandPaletteState, PaletteView};
use crate::app::types::{DialogInputMode, Mode, OverlayKind, View as Screen};
use crate::text;
use crate::todo::Task;
use vstd::prelude::*;

verus! {

/// The first key of a chord that still waits for its second.
#[derive(Debug, Clone, Copy, PartialEq, Eq, Structural)]
pub struct Chord {
    pub leader: Option<char>,
}

impl Chord {
    /// Make `c` the first key.
    pub fn arm(&mut self, c: char)
        ensures
            final(self).leader == Some(c),
    {
        self.leader = Some(c);
    }

    /// Whether `c` was the first key; if it was, the chord is over.
    pub fn consume(&mut self, c: char) -> (r: bool)
        ensures
            r == (old(self).leader == Some(c)),
            final(self).leader == (if r {
                None
            } else {
                old(self).leader
            }),
    {
        let armed = match self.leader {
            Some(d) => d == c,
            None => false,
        };
        if armed {
            self.leader = None;
        }
        armed
    }

    /// For a chord of the same key twice: whether this is the second press. The
    /// first press arms the chord and the second ends it.
    pub fn toggle(&mut self, c: char) -> (r: bool)
        ensures
            r == (old(self).leader == Some(c)),
            final(self).leader == (if r {
                None
            } else {
                Some(c)
            }),
    {
        if self.consume(c) {
            true
        } else {
            self.arm(c);
            false
        }
    }
}

/// The selected tasks, and the task whose line is being edited.
#[derive(Debug, Clone, PartialEq, Eq)]
pub struct Selection {
    /// The selected tasks, none of them twice.
    pub selected: Vec<usize>,
    pub editing: Option<usize>,
}

/// The selection with `abs` put in, or taken out where it was in.
pub open spec fn toggled(selected: Seq<usize>, abs: usize) -> Seq<usize> {
    if selected.contains(abs) {
        selected.remove(selected.index_of_first(abs)->0)
    } else {
        selected.push(abs)
    }
}

/// Selecting a task, or no longer selecting it, selects no task twice, changes
/// whether that task is selected and leaves every other as it was.
pub proof fn law_toggling_selects_once(selected: Seq<usize>, abs: usize)
    requires
        selected.no_duplicates(),
    ensures
        toggled(selected, abs).no_duplicates(),
        forall|other: usize| #[trigger]
            toggled(selected, abs).contains(other) <==> (selected.contains(other) != (other
                == abs)),
{
    let out = toggled(selected, abs);
    if selected.contains(abs) {
        selected.index_of_first_ensures(abs);
        let k = selected.index_of_first(abs)->0;
        assert forall|other: usize| #[trigger] out.contains(other) <==> (selected.contains(other)
            != (other == abs)) by {
            if out.contains(other) {
                let i = choose|i: int| 0 <= i < out.len() && out[i] == other;
                let j = if i < k {
                    i
                } else {
                    i + 1
                };
                assert(selected[j] == other && j != k);
            }
            if selected.contains(other) && other != abs {
                let j = choose|j: int| 0 <= j < selected.len() && selected[j] == other;
                let i = if j < k {
                    j
                } else {
                    j - 1
                };
                assert(out[i] == other);
            }
        }
    } else {
        assert forall|other: usize| #[trigger] out.contains(other) <==> (selected.contains(other)
            != (other == abs)) by {
            if selected.contains(other) {
                let j = choose|j: int| 0 <= j < selected.len() && selected[j] == other;
                assert(out[j] == other);
            }
            assert(out[selected.len() as int] == abs);
        }
        assert forall|i: int, j: int| 0 <= i < out.len() && 0 <= j < out.len() && i
            != j implies out[i] != out[j] by {
            assert(i < selected.len() ==> selected.contains(selected[i]));
            assert(j < selected.len() ==> selected.contains(selected[j]));
        }
    }
}

impl Selection {
    /// Whether a task is selected.
    pub fn is_selected(&self, abs: usize) -> (r: bool)
        ensures
            r == self.selected@.contains(abs),
    {
        match self.position(abs) {
            Some(_) => true,
            None => false,
        }
    }

    fn position(&self, abs: usize) -> (r: Option<usize>)
        ensures
            match r {
                Some(i) => i < self.selected@.len() && self.selected@[i as int] == abs && (
                forall|j: int| 0 <= j < i ==> self.selected@[j] != abs),
                None => !self.selected@.contains(abs),
            },
    {
        let mut i: usize = 0;
        while i < self.selected.len()
            invariant
                i <= self.selected@.len(),
                forall|j: int| 0 <= j < i ==> self.selected@[j] != abs,
            decreases self.selected.len() - i,
        {
            if self.selected[i] == abs {
                return Some(i);
            }
            i += 1;
        }
        None
    }

    /// Select a task, or no longer select it.
    pub fn toggle(&mut self, abs: usize)
        ensures
            final(self).selected@ == toggled(old(self).selected@, abs),
            final(self).editing == old(self).editing,
            old(self).selected@.no_duplicates() ==> final(self).selected@.no_duplicates(),
    {
        proof {
            if self.selected@.no_duplicates() {
                law_toggling_selects_once(self.selected@, abs);
            }
        }
        match self.position(abs) {
            Some(i) => {
                proof {
                    assert(self.selected@.contains(abs));
                    self.selected@.index_of_first_ensures(abs);
                }
                let _ = self.selected.remove(i);
            },
            None => self.selected.push(abs),
        }
    }
}

/// What the list is narrowed to.
#[derive(Debug, Clone, PartialEq, Eq)]
pub struct Filter {
    pub project: Option<String>,
    pub context: Option<String>,
    pub search: String,
}

/// What the list is narrowed to, as values.
pub struct FilterView {
    pub project: Option<Seq<char>>,
    pub context: Option<Seq<char>>,
    pub search: Seq<char>,
}

/// A tag with its mark before it and a blank behind it, or nothing.
pub open spec fn tag(mark: char, name: Option<Seq<char>>) -> Seq<char> {
    match name {
        Some(n) => seq![mark] + n + seq![' '],
        None => Seq::empty(),
    }
}

impl FilterView {
    /// What a task added under this filter starts out with: the filter's tags.
    pub open spec fn tag_seed(self) -> Seq<char> {
        tag('+', self.project) + tag('@', self.context)
    }
}

impl View for Filter {
    type V = FilterView;

    open spec fn view(&self) -> FilterView {
        FilterView {
            project: text::opt_text(self.project),
            context: text::opt_text(self.context),
            search: self.search@,
        }
    }
}

impl Filter {
    /// What a task added under this filter starts out with: the filter's tags,
    /// each with a blank behind it.
    pub fn tag_seed(&self) -> (r: String)
        ensures
            r@ == self@.tag_seed(),
    {
        let mut seed = String::new();
        if let Some(p) = &self.project {
            seed.push('+');
            seed.append(p.as_str());
            seed.push(' ');
        }
        assert(seed@ =~= tag('+', self@.project));
        if let Some(c) = &self.context {
            seed.push('@');
            seed.append(c.as_str());
            seed.push(' ');
        }
        assert(seed@ =~= self@.tag_seed());
        seed
    }
}

/// What the line editor shows. The host keeps it, and refreshes it whenever it
/// has done something to the line.
#[derive(Debug, Clone, PartialEq, Eq)]
pub struct Draft {
    pub line: String,
    pub input_mode: DialogInputMode,
    /// The picker open over the line.
    pub overlay: Option<OverlayKind>,
    /// Whether an open calendar follows the date as it is typed.
    pub calendar_anchored: bool,
    /// Whether completions are offered.
    pub autocomplete: bool,
}

/// What the line editor shows, as values.
pub struct DraftView {
    pub line: Seq<char>,
    pub input_mode: DialogInputMode,
    pub overlay: Option<OverlayKind>,
    pub calendar_anchored: bool,
    pub autocomplete: bool,
}

impl View for Draft {
    type V = DraftView;

    open spec fn view(&self) -> DraftView {
        DraftView {
            line: self.line@,
            input_mode: self.input_mode,
            overlay: self.overlay,
            calendar_anchored: self.calendar_anchored,
            autocomplete: self.autocomplete,
        }
    }
}

/// The application.
///
/// The task list, the archive, what of it is visible and the line editor belong
/// to the host, which keeps them up to date here.
pub struct App {
    pub mode: Mode,
    pub view: Screen,
    /// The highlighted row among the visible ones.
    pub cursor: usize,
    pub should_quit: bool,
    /// The rows on screen: where each stands in the list, or in the archive
    /// while that is on screen.
    pub visible: Vec<usize>,
    pub tasks: Vec<Task>,
    pub archive: Vec<Task>,
    pub selection: Selection,
    pub filter: Filter,
    pub chord: Chord,
    pub draft: Draft,
    pub command_palette: CommandPaletteState,
    pub notes_popup: NotesPopupState,
    pub pinned_note: Option<NoteEditorState>,
    /// Whether the pinned note has the keyboard.
    pub pinned_focus: bool,
    pub notes_dir: String,
    pub file_path: String,
    pub theme_count: usize,
    /// The message on the status line.
    pub flash_text: Option<String>,
    /// What the host is at work on.
    pub pending: PendingStep,
}

/// The application, as values.
pub struct AppView {
    pub mode: Mode,
    pub view: Screen,
    pub cursor: int,
    pub should_quit: bool,
    pub visible: Seq<usize>,
    pub tasks: Seq<Task>,
    pub archive: Seq<Task>,
    pub selected: Seq<usize>,
    pub editing: Option<usize>,
    pub filter: FilterView,
    pub leader: Option<char>,
    pub draft: DraftView,
    pub palette: PaletteView,
    pub palette_cursor: int,
    pub popup: PopupView,
    pub pinned: Option<EditorView>,
    pub pinned_focus: bool,
    pub notes_dir: Seq<char>,
    pub file_path: Seq<char>,
    pub theme_count: int,
    pub flash: Option<Seq<char>>,
    pub pending: PendingView,
}

impl View for App {
    type V = AppView;

    open spec fn view(&self) -> AppView {
        AppView {
            mode: self.mode,
            view: self.view,
            cursor: self.cursor as int,
            should_quit: self.should_quit,
            visible: self.visible@,
            tasks: self.tasks@,
            archive: self.archive@,
            selected: self.selection.selected@,
            editing: self.selection.editing,
            filter: self.filter@,
            leader: self.chord.leader,
            draft: self.draft@,
            palette: self.command_palette@,
            palette_cursor: self.command_palette.cursor as int,
            popup: self.notes_popup@,
            pinned: notes_popup::editor_view(self.pinned_note),
            pinned_focus: self.pinned_focus,
            notes_dir: self.notes_dir@,
            file_path: self.file_path@,
            theme_count: self.theme_count as int,
            flash: text::opt_text(self.flash_text),
            pending: io::pending_view(self.pending),
        }
    }
}

/// The application after a step, and the work that the step asks for.
pub struct Step {
    pub app: AppView,
    pub io: Option<Io<Seq<char>>>,
}

impl AppView {
    /// The popup and the pinned note are in order, no task is selected twice, and
    /// the rows of the list are tasks.
    pub open spec fn wf(self) -> bool {
        &&& self.popup.wf()
        &&& self.selected.no_duplicates()
        &&& self.pinned matches Some(e) ==> e.wf()
        &&& self.view == Screen::List ==> forall|i: int|
            0 <= i < self.visible.len() ==> #[trigger] self.visible[i] < self.tasks.len()
    }

    /// The highlighted row.
    pub open spec fn cur_abs(self) -> Option<usize> {
        if self.cursor < self.visible.len() {
            Some(self.visible[self.cursor])
        } else {
            None
        }
    }

    /// The highlighted task.
    pub open spec fn cur_task(self) -> Option<Task> {
        let shown = if self.view == Screen::List {
            self.tasks
        } else {
            self.archive
        };
        match self.cur_abs() {
            Some(abs) if abs < shown.len() => Some(shown[abs as int]),
            _ => None,
        }
    }

    /// Where the highlighted task stands in the list, `None` for an archived one.
    pub open spec fn cur_task_index_in_tasks(self) -> Option<usize> {
        match self.cur_abs() {
            Some(abs) if self.view == Screen::List && abs < self.tasks.len() => Some(abs),
            _ => None,
        }
    }

    pub open spec fn flashing(self, message: Seq<char>) -> Self {
        AppView { flash: Some(message), ..self }
    }

    pub open spec fn with_popup(self, popup: PopupView) -> Self {
        AppView { popup, ..self }
    }

    /// Nothing is waited for any more.
    pub open spec fn settled(self) -> Self {
        AppView { pending: Pending::Nothing, ..self }
    }

    /// Nothing is asked for.
    pub open spec fn quietly(self) -> Step {
        Step { app: self, io: None }
    }

    /// `io` is asked for, and `pending` says what the answer is for.
    pub open spec fn asking(self, pending: PendingView, io: Io<Seq<char>>) -> Step {
        Step { app: AppView { pending, ..self }, io: Some(io) }
    }

    /// The editor that is meant.
    pub open spec fn editor(self, target: EditorTarget) -> Option<EditorView> {
        match target {
            EditorTarget::Popup => self.popup.editor,
            EditorTarget::Pinned => self.pinned,
        }
    }

    /// That editor put in place of the one that is meant.
    pub open spec fn with_editor(self, target: EditorTarget, editor: Option<EditorView>) -> Self {
        match target {
            EditorTarget::Popup => self.with_popup(self.popup.with_editor(editor)),
            EditorTarget::Pinned => AppView { pinned: editor, ..self },
        }
    }
}

impl App {
    /// Where the highlighted row stands in the list, or in the archive while
    /// that is on screen.
    pub fn cur_abs(&self) -> (r: Option<usize>)
        ensures
            r == self@.cur_abs(),
    {
        if self.cursor < self.visible.len() {
            Some(self.visible[self.cursor])
        } else {
            None
        }
    }

    /// The highlighted task.
    pub fn cur_task(&self) -> (r: Option<&Task>)
        ensures
            match (r, self@.cur_task()) {
                (Some(t), Some(u)) => *t == u,
                (None, None) => true,
                _ => false,
            },
    {
        match self.cur_abs() {
            Some(abs) => match self.view {
                Screen::List => if abs < self.tasks.len() {
                    Some(&self.tasks[abs])
                } else {
                    None
                },
                Screen::Archive => if abs < self.archive.len() {
                    Some(&self.archive[abs])
                } else {
                    None
                },
            },
            None => None,
        }
    }

    /// Where the highlighted task stands in the list, `None` for an archived
    /// one.
    pub fn cur_task_index_in_tasks(&self) -> (r: Option<usize>)
        ensures
            r == self@.cur_task_index_in_tasks(),
    {
        match self.cur_abs() {
            Some(abs) => if self.view == Screen::List && abs < self.tasks.len() {
                Some(abs)
            } else {
                None
            },
            None => None,
        }
    }

    /// Whether any task of the list is done.
    pub fn has_completed_tasks(&self) -> (r: bool)
        ensures
            r == exists|i: int| 0 <= i < self@.tasks.len() && (#[trigger] self@.tasks[i]).done,
    {
        let mut i: usize = 0;
        while i < self.tasks.len()
            invariant
                i <= self.tasks@.len(),
                forall|j: int| 0 <= j < i ==> !(#[trigger] self.tasks@[j]).done,
            decreases self.tasks.len() - i,
        {
            if self.tasks[i].done {
                assert(self@.tasks[i as int].done);
                return true;
            }
            i += 1;
        }
        false
    }

    /// Show a message on the status line.
    pub fn flash(&mut self, message: String)
        ensures
            final(self)@ == old(self)@.flashing(message@),
    {
        self.flash_text = Some(message);
    }

    /// The message on the status line.
    pub fn flash_active(&self) -> (r: Option<&str>)
        ensures
            match (r, self@.flash) {
                (Some(s), Some(m)) => s@ == m,
                (None, None) => true,
                _ => false,
            },
    {
        match &self.flash_text {
            Some(m) => Some(m.as_str()),
            None => None,
        }
    }

    /// Ask the host for `io` and note what the answer is for.
    fn ask(&mut self, pending: PendingStep, io: IoRequest) -> (r: Option<IoRequest>)
        ensures
            final(self)@ == old(self)@.asking(io::pending_view(pending), io::io_view(io)).app,
            r == Some(io),
    {
        self.pending = pending;
        Some(io)
    }
}

} // verus!
