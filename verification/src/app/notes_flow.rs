//! What the notes popup does: opening on a task, creating, renaming, deleting
//! and unlinking notes, and reading and writing the note in an editor.
//!
//! Each operation is a sequence of pieces of work for the host. The operation
//! itself hands out the first, and [`App::resume`] takes the host's answer and
//! hands out the next, until there is none left.
use crate::app::io;
use crate::app::io::{
    EditorTarget, Io, IoReply, IoRequest, LineEdit, Pending, PendingStep, PendingView, ReplyView,
    SaveKind,
};
use crate::app::note_editor;
use crate::app::note_editor::{CommandResultView, EditorView, NoteEditorMode, NoteEditorState};
use crate::app::notes_popup;
use crate::app::notes_popup::{NotePromptKind, NotesPopupState, PopupView};
use crate::app::types::{Mode, View as Screen};
use crate::app::{App, AppView, Step};
use crate::note;
use crate::note::{FolderView, NotesFolder};
use crate::path;
use crate::text;
use vstd::prelude::*;

verus! {

/// The folder, now linked to its task.
pub open spec fn linked(folder: FolderView) -> FolderView {
    FolderView { existed_in_task: true, ..folder }
}

/// The first of `files` that is the path `to`.
pub open spec fn position_of(files: Seq<Seq<char>>, to: Seq<char>) -> Option<int>
    decreases files.len(),
{
    if files.len() == 0 {
        None
    } else {
        match position_of(files.drop_last(), to) {
            Some(i) => Some(i),
            None => if path::same_path(files.last(), to) {
                Some(files.len() - 1)
            } else {
                None
            },
        }
    }
}

impl PopupView {
    /// The list after a note was renamed to `to`: the cursor goes with it.
    pub open spec fn relisted_after_rename(self, files: Seq<Seq<char>>, to: Seq<char>) -> Self {
        match position_of(files, to) {
            Some(i) => PopupView { cursor: i, files, ..self },
            None => self.with_files(files).clamp_cursor(),
        }
    }
}

impl AppView {
    // ---- opening ---------------------------------------------------------------

    /// The popup opens on `folder` once that is listed.
    pub open spec fn open_list(self, folder: FolderView, task_abs: Option<usize>) -> Step {
        self.asking(Pending::OpenList { folder, task_abs }, Io::ListFiles { dir: folder.dir })
    }

    /// The popup opens for the highlighted task, whose notes folder is `folder`.
    /// A legacy note of a listed task that has no folder yet is moved into it
    /// first.
    pub open spec fn open_notes_in(self, folder: FolderView) -> Step {
        match self.cur_task() {
            None => self.quietly(),
            Some(task) => match (self.cur_task_index_in_tasks(), note::legacy_rel(task.raw@)) {
                (Some(abs), Some(rel)) if !folder.existed_in_task => {
                    let from = path::joined_path(self.notes_dir, rel);
                    match note::moved_path(from, folder.dir) {
                        Some(to) => self.asking(
                            Pending::MigrateMove {
                                folder,
                                abs,
                                raw: note::migrated_line(task.raw@, rel, folder.id),
                            },
                            Io::MoveFile { from, to, dir: folder.dir },
                        ),
                        None => self.asking(
                            Pending::MigrateSkip { folder, abs },
                            Io::MakeDir { dir: folder.dir },
                        ),
                    }
                },
                (abs, _) => self.open_list(folder, abs),
            },
        }
    }

    /// The legacy note was moved, or it was not.
    pub open spec fn legacy_moved(
        self,
        folder: FolderView,
        abs: usize,
        raw: Seq<char>,
        moved: bool,
    ) -> Step {
        if moved {
            self.asking(Pending::MigrateEdit { folder, abs }, Io::EditLine { abs, raw })
        } else {
            self.open_list(folder, Some(abs))
        }
    }

    /// The line of the task whose legacy note was moved was changed, or not.
    pub open spec fn legacy_relinked(
        self,
        folder: FolderView,
        abs: usize,
        edit: LineEdit<Seq<char>>,
    ) -> Step {
        match edit {
            LineEdit::Saved => self.open_list(linked(folder), Some(abs)),
            LineEdit::Failed(e) => self.flashing("note migration failed: "@ + e).open_list(
                folder,
                Some(abs),
            ),
            _ => self.open_list(folder, Some(abs)),
        }
    }

    /// The popup, open on a folder that holds `names`.
    pub open spec fn opened(
        self,
        folder: FolderView,
        task_abs: Option<usize>,
        names: Seq<Seq<char>>,
    ) -> Self {
        AppView {
            popup: PopupView {
                folder: Some(folder),
                task_abs,
                ..PopupView::listing(note::note_paths(folder.dir, names))
            },
            mode: Mode::Notes,
            ..self.settled()
        }
    }

    // ---- the prompt ------------------------------------------------------------

    pub open spec fn cancel_note_prompt(self) -> Self {
        self.with_popup(self.popup.cancel_prompt())
    }

    pub open spec fn begin_rename_prompt(self) -> Self {
        match self.popup.selected() {
            Some(file) => self.with_popup(
                self.popup.begin_prompt(
                    NotePromptKind::Rename { index: self.popup.cursor as usize },
                    match path::path_name(file) {
                        Some(name) => name,
                        None => Seq::empty(),
                    },
                ),
            ),
            None => self,
        }
    }

    /// The prompt confirmed: a blank name does nothing and leaves it open.
    pub open spec fn confirm_note_prompt(self) -> Step {
        match (self.popup.prompt_kind, self.popup.prompt) {
            (Some(kind), Some(input)) => {
                let name = text::trimmed(input);
                if name.len() == 0 {
                    self.quietly()
                } else {
                    match kind {
                        NotePromptKind::Create => self.confirm_create_note(name),
                        NotePromptKind::Rename { index } => self.confirm_rename_note(index, name),
                    }
                }
            },
            _ => self.quietly(),
        }
    }

    // ---- creating --------------------------------------------------------------

    /// A note named `name` is created, but not for an archived task.
    pub open spec fn confirm_create_note(self, name: Seq<char>) -> Step {
        if self.view == Screen::Archive {
            self.flashing("archived task has no note"@).cancel_note_prompt().quietly()
        } else {
            match (self.popup.folder, self.cur_task()) {
                (Some(folder), Some(task)) => self.asking(
                    Pending::CreateDir {
                        folder,
                        path: path::joined_path(folder.dir, notes_popup::note_file_name(name)),
                        content: note::template(task),
                    },
                    Io::MakeDir { dir: folder.dir },
                ),
                _ => self.cancel_note_prompt().quietly(),
            }
        }
    }

    /// An operation of the prompt failed: that is said, and the prompt closes.
    pub open spec fn prompt_failed(self, what: Seq<char>, error: Seq<char>) -> Step {
        self.settled().flashing(what + error).cancel_note_prompt().quietly()
    }

    pub open spec fn create_dir_made(
        self,
        folder: FolderView,
        path: Seq<char>,
        content: Seq<char>,
        made: Result<(), Seq<char>>,
    ) -> Step {
        match made {
            Ok(_) => self.asking(
                Pending::CreateWrite { folder },
                Io::WriteFile { path, content },
            ),
            Err(e) => self.prompt_failed("note mkdir failed: "@, e),
        }
    }

    /// The folder is listed again.
    pub open spec fn list_created(self, folder: FolderView) -> Step {
        self.asking(Pending::CreateList { dir: folder.dir }, Io::ListFiles { dir: folder.dir })
    }

    /// The popup's folder counts as linked from now on.
    pub open spec fn with_linked(self, folder: FolderView) -> Self {
        self.with_popup(PopupView { folder: Some(linked(folder)), ..self.popup })
    }

    /// The note was written: the first one of a task links the folder to it.
    pub open spec fn create_written(
        self,
        folder: FolderView,
        written: Result<(), Seq<char>>,
    ) -> Step {
        match written {
            Ok(_) => if folder.existed_in_task {
                self.list_created(folder)
            } else {
                match self.popup.task_abs {
                    Some(abs) => self.asking(
                        Pending::CreateLink { folder },
                        Io::AppendToLine { abs, token: note::link_token(folder.id) },
                    ),
                    None => self.list_created(folder),
                }
            },
            Err(e) => self.prompt_failed("note write failed: "@, e),
        }
    }

    /// The link was put on the task's line, or was not: only a saved one makes
    /// the folder count as linked.
    pub open spec fn create_linked(
        self,
        folder: FolderView,
        edit: LineEdit<Seq<char>>,
    ) -> Step {
        match edit {
            LineEdit::Saved => self.with_linked(folder),
            LineEdit::Failed(e) => self.flashing("note link failed: "@ + e),
            _ => self,
        }.list_created(folder)
    }

    pub open spec fn create_listed(self, dir: Seq<char>, names: Seq<Seq<char>>) -> Self {
        self.settled().with_popup(
            self.popup.with_files(note::note_paths(dir, names)).cancel_prompt(),
        )
    }

    // ---- renaming --------------------------------------------------------------

    /// The file at `index` is renamed to `name`. Its own name changes nothing.
    pub open spec fn confirm_rename_note(self, index: usize, name: Seq<char>) -> Step {
        match self.popup.folder {
            Some(folder) if index < self.popup.files.len() => {
                let from = self.popup.files[index as int];
                let file = notes_popup::note_file_name(name);
                let to = path::joined_path(folder.dir, file);
                if path::same_path(to, from) {
                    self.cancel_note_prompt().quietly()
                } else {
                    self.asking(
                        Pending::RenameCheck { dir: folder.dir, from, to, name: file },
                        Io::Exists { path: to },
                    )
                }
            },
            _ => self.cancel_note_prompt().quietly(),
        }
    }

    /// A name that is taken is refused, and the prompt stays open.
    pub open spec fn rename_checked(
        self,
        dir: Seq<char>,
        from: Seq<char>,
        to: Seq<char>,
        name: Seq<char>,
        taken: bool,
    ) -> Step {
        if taken {
            self.settled().flashing("a note named "@ + name + " already exists"@).quietly()
        } else {
            self.asking(Pending::RenameMove { dir, to }, Io::RenameFile { from, to })
        }
    }

    pub open spec fn rename_moved(
        self,
        dir: Seq<char>,
        to: Seq<char>,
        moved: Result<(), Seq<char>>,
    ) -> Step {
        match moved {
            Ok(_) => self.asking(Pending::RenameList { dir, to }, Io::ListFiles { dir }),
            Err(e) => self.prompt_failed("note rename failed: "@, e),
        }
    }

    pub open spec fn rename_listed(
        self,
        dir: Seq<char>,
        to: Seq<char>,
        names: Seq<Seq<char>>,
    ) -> Self {
        self.settled().with_popup(
            self.popup.relisted_after_rename(note::note_paths(dir, names), to).cancel_prompt(),
        )
    }

    // ---- deleting --------------------------------------------------------------

    pub open spec fn cancel_delete_note_confirm(self) -> Self {
        self.with_popup(self.popup.cancel_delete_confirm())
    }

    /// The row that waits to be deleted is deleted.
    pub open spec fn confirm_delete_note(self) -> Step {
        match (self.popup.pending_delete, self.popup.folder) {
            (None, _) => self.quietly(),
            (Some(index), Some(folder)) if index < self.popup.files.len() => self.asking(
                Pending::DeleteFile { dir: folder.dir },
                Io::RemoveFile { path: self.popup.files[index as int] },
            ),
            _ => self.cancel_delete_note_confirm().quietly(),
        }
    }

    pub open spec fn delete_done(self, dir: Seq<char>, removed: Result<(), Seq<char>>) -> Step {
        match removed {
            Ok(_) => self.asking(Pending::DeleteList { dir }, Io::ListFiles { dir }),
            Err(e) => self.settled().flashing(
                "note delete failed: "@ + e,
            ).cancel_delete_note_confirm().quietly(),
        }
    }

    pub open spec fn delete_listed(self, dir: Seq<char>, names: Seq<Seq<char>>) -> Self {
        self.settled().with_popup(
            self.popup.with_files(
                note::note_paths(dir, names),
            ).clamp_cursor().cancel_delete_confirm(),
        )
    }

    // ---- unlinking -------------------------------------------------------------

    /// The selected note leaves the task's folder for the shared directory of
    /// unlinked notes.
    pub open spec fn unlink_selected_note(self) -> Step {
        match (self.popup.selected(), self.popup.folder) {
            (Some(from), Some(folder)) => match path::path_name(from) {
                Some(name) => self.asking(
                    Pending::UnlinkCheck { dir: folder.dir, id: folder.id, from, name },
                    Io::Exists {
                        path: note::unlinked_path(self.notes_dir, name, folder.id, false),
                    },
                ),
                None => self.flashing("note unlink failed: note has no file name"@).quietly(),
            },
            _ => self.quietly(),
        }
    }

    pub open spec fn unlink_checked(
        self,
        dir: Seq<char>,
        id: Seq<char>,
        from: Seq<char>,
        name: Seq<char>,
        taken: bool,
    ) -> Step {
        self.asking(
            Pending::UnlinkMove { dir },
            Io::MoveFile {
                from,
                to: note::unlinked_path(self.notes_dir, name, id, taken),
                dir: path::joined_path(self.notes_dir, note::NOTES_UNLINKED_SUBDIR@),
            },
        )
    }

    pub open spec fn unlink_moved(self, dir: Seq<char>, moved: Result<(), Seq<char>>) -> Step {
        match moved {
            Ok(_) => self.asking(Pending::UnlinkList { dir }, Io::ListFiles { dir }),
            Err(e) => self.settled().flashing("note unlink failed: "@ + e).quietly(),
        }
    }

    pub open spec fn unlink_listed(self, dir: Seq<char>, names: Seq<Seq<char>>) -> Self {
        self.settled().with_popup(
            self.popup.with_files(note::note_paths(dir, names)).clamp_cursor(),
        )
    }

    // ---- the note in an editor -----------------------------------------------------

    /// The selected note is read for the editor.
    pub open spec fn open_note_editor(self, mode: NoteEditorMode) -> Step {
        match self.popup.selected() {
            Some(path) => self.asking(Pending::OpenEditor { path, mode }, Io::ReadFile { path }),
            None => self.quietly(),
        }
    }

    pub open spec fn editor_read(
        self,
        path: Seq<char>,
        mode: NoteEditorMode,
        content: Option<Seq<char>>,
    ) -> Self {
        let held = match content {
            Some(c) => c,
            None => Seq::empty(),
        };
        self.settled().with_editor(
            EditorTarget::Popup,
            Some(EditorView::loaded(path, held, mode)),
        )
    }

    /// The note in an editor is written.
    pub open spec fn save_editor(self, target: EditorTarget, kind: SaveKind) -> Step {
        match self.editor(target) {
            Some(e) => self.asking(
                Pending::SaveEditor { target, kind },
                Io::WriteFile { path: e.path, content: note_editor::lines_content(e.lines) },
            ),
            None => self.quietly(),
        }
    }

    /// The editor that is meant closes: the popup goes back to its list, and the
    /// pinned note is no longer pinned.
    pub open spec fn close_editor(self, target: EditorTarget) -> Self {
        match target {
            EditorTarget::Popup => self.with_editor(EditorTarget::Popup, None),
            EditorTarget::Pinned => self.close_pinned_note(),
        }
    }

    /// The note was written, or it was not: only then is it clean, and only then
    /// does a command that asked for it close the editor.
    pub open spec fn editor_saved(
        self,
        target: EditorTarget,
        kind: SaveKind,
        written: Result<(), Seq<char>>,
    ) -> Self {
        let at = self.settled();
        match at.editor(target) {
            Some(e) => {
                let after = at.with_editor(target, Some(e.saved(written is Ok)));
                match written {
                    Ok(_) => if kind == (SaveKind::Command { close: true }) {
                        after.close_editor(target)
                    } else {
                        after
                    },
                    Err(e) => after.flashing("note save failed: "@ + e),
                }
            },
            None => at,
        }
    }

    // ---- the host's answers --------------------------------------------------------

    /// A change to the disk worked or failed.
    pub open spec fn on_done(self, waiting: PendingView, r: Result<(), Seq<char>>) -> Step {
        match waiting {
            Pending::MigrateMove { folder, abs, raw } => self.legacy_moved(
                folder,
                abs,
                raw,
                r is Ok,
            ),
            Pending::MigrateSkip { folder, abs } => self.open_list(folder, Some(abs)),
            Pending::CreateDir { folder, path, content } => self.create_dir_made(
                folder,
                path,
                content,
                r,
            ),
            Pending::CreateWrite { folder } => self.create_written(folder, r),
            Pending::RenameMove { dir, to } => self.rename_moved(dir, to, r),
            Pending::DeleteFile { dir } => self.delete_done(dir, r),
            Pending::UnlinkMove { dir } => self.unlink_moved(dir, r),
            Pending::SaveEditor { target, kind } => self.editor_saved(target, kind, r).quietly(),
            _ => self.quietly(),
        }
    }

    /// The line of a task was changed, or not.
    pub open spec fn on_edited(self, waiting: PendingView, edit: LineEdit<Seq<char>>) -> Step {
        match waiting {
            Pending::MigrateEdit { folder, abs } => self.legacy_relinked(folder, abs, edit),
            Pending::CreateLink { folder } => self.create_linked(folder, edit),
            _ => self.quietly(),
        }
    }

    /// A directory was listed.
    pub open spec fn on_names(self, waiting: PendingView, names: Seq<Seq<char>>) -> Self {
        match waiting {
            Pending::OpenList { folder, task_abs } => self.opened(folder, task_abs, names),
            Pending::CreateList { dir } => self.create_listed(dir, names),
            Pending::RenameList { dir, to } => self.rename_listed(dir, to, names),
            Pending::DeleteList { dir } => self.delete_listed(dir, names),
            Pending::UnlinkList { dir } => self.unlink_listed(dir, names),
            _ => self,
        }
    }

    /// Whether a path exists is known.
    pub open spec fn on_found(self, waiting: PendingView, found: bool) -> Step {
        match waiting {
            Pending::RenameCheck { dir, from, to, name } => self.rename_checked(
                dir,
                from,
                to,
                name,
                found,
            ),
            Pending::UnlinkCheck { dir, id, from, name } => self.unlink_checked(
                dir,
                id,
                from,
                name,
                found,
            ),
            _ => self.quietly(),
        }
    }

    /// A file was read.
    pub open spec fn on_content(self, waiting: PendingView, content: Option<Seq<char>>) -> Self {
        match waiting {
            Pending::OpenEditor { path, mode } => self.editor_read(path, mode, content),
            _ => self,
        }
    }

    /// What comes of the host's answer. One that nothing waits for changes
    /// nothing and ends what was going on.
    pub open spec fn resumed(self, reply: ReplyView) -> Step {
        let at = self.settled();
        match reply {
            ReplyView::Done(r) => at.on_done(self.pending, r),
            ReplyView::Edited(edit) => at.on_edited(self.pending, edit),
            ReplyView::Names(names) => at.on_names(self.pending, names).quietly(),
            ReplyView::Found(found) => at.on_found(self.pending, found),
            ReplyView::Content(content) => at.on_content(self.pending, content).quietly(),
        }
    }
}

impl App {
    // ---- opening ---------------------------------------------------------------

    fn open_list(&mut self, folder: NotesFolder, task_abs: Option<usize>) -> (r: Option<IoRequest>)
        ensures
            final(self)@ == old(self)@.open_list(folder@, task_abs).app,
            io::opt_io_view(r) == old(self)@.open_list(folder@, task_abs).io,
    {
        let dir = folder.dir.clone();
        self.ask(Pending::OpenList { folder, task_abs }, Io::ListFiles { dir })
    }

    /// Open the notes popup for the highlighted task, whose notes folder is
    /// `folder`.
    pub fn open_notes_in(&mut self, folder: NotesFolder) -> (r: Option<IoRequest>)
        ensures
            final(self)@ == old(self)@.open_notes_in(folder@).app,
            io::opt_io_view(r) == old(self)@.open_notes_in(folder@).io,
    {
        let raw = match self.cur_task() {
            Some(task) => task.raw.clone(),
            None => return None,
        };
        let task_abs = self.cur_task_index_in_tasks();
        if !folder.existed_in_task {
            if let Some(abs) = task_abs {
                if let Some(rel) = note::legacy_note_rel_from_raw(raw.as_str()) {
                    return self.migrate_legacy_note(abs, raw.as_str(), rel.as_str(), folder);
                }
            }
        }
        self.open_list(folder, task_abs)
    }

    /// Move the note that a legacy token names into `folder`, before the popup
    /// opens.
    fn migrate_legacy_note(&mut self, abs: usize, raw: &str, rel: &str, folder: NotesFolder) -> (r:
        Option<IoRequest>)
        requires
            old(self)@.cur_task() matches Some(task) && task.raw@ == raw@,
            old(self)@.cur_task_index_in_tasks() == Some(abs),
            note::legacy_rel(raw@) == Some(rel@),
            !folder.existed_in_task,
        ensures
            final(self)@ == old(self)@.open_notes_in(folder@).app,
            io::opt_io_view(r) == old(self)@.open_notes_in(folder@).io,
    {
        let from = path::join(self.notes_dir.as_str(), rel);
        let dir = folder.dir.clone();
        match note::migrate_legacy_note(from.as_str(), folder.dir.as_str()) {
            Ok(to) => {
                let raw = note::migrated_raw(raw, rel, folder.id.as_str());
                self.ask(Pending::MigrateMove { folder, abs, raw }, Io::MoveFile { from, to, dir })
            },
            Err(_) => self.ask(Pending::MigrateSkip { folder, abs }, Io::MakeDir { dir }),
        }
    }

    /// Open the notes popup for the highlighted task. A task without a notes
    /// folder gets a new one, which is not created before its first note is.
    /// `nanos` and `counter` make its id where the system has no randomness.
    pub fn open_notes_for_current(&mut self, nanos: u128, counter: u64) -> (r: Option<IoRequest>)
        ensures
            old(self)@.cur_task() is None ==> final(self)@ == old(self)@ && r is None,
            old(self)@.cur_task() matches Some(task) ==> exists|folder: FolderView|
                {
                    &&& folder.dir == note::folder_path(old(self)@.notes_dir, folder.id)
                    &&& folder.existed_in_task == (note::notes_id(task.raw@) is Some)
                    &&& match note::notes_id(task.raw@) {
                        Some(id) => folder.id == id,
                        None => note::fresh_id(folder.id, nanos, counter),
                    }
                    &&& final(self)@ == (#[trigger] old(self)@.open_notes_in(folder)).app
                    &&& io::opt_io_view(r) == old(self)@.open_notes_in(folder).io
                },
    {
        let folder = match self.cur_task() {
            Some(task) => note::folder_for_task(task, self.notes_dir.as_str(), nanos, counter),
            None => return None,
        };
        let ghost f = folder@;
        let r = self.open_notes_in(folder);
        assert(self@ == old(self)@.open_notes_in(f).app);
        r
    }

    // ---- the prompt ------------------------------------------------------------

    /// Open the prompt for the name of a new note.
    pub fn begin_new_note_prompt(&mut self)
        ensures
            final(self)@ == old(self)@.with_popup(
                old(self)@.popup.begin_prompt(NotePromptKind::Create, Seq::empty()),
            ),
    {
        self.notes_popup.begin_prompt(NotePromptKind::Create, String::new());
    }

    /// Open the prompt for a new name of the selected note, holding its current
    /// one.
    pub fn begin_rename_prompt(&mut self)
        ensures
            final(self)@ == old(self)@.begin_rename_prompt(),
    {
        let index: usize = self.notes_popup.cursor;
        let name = match self.notes_popup.selected() {
            Some(file) => match path::file_name(file.as_str()) {
                Some(name) => name,
                None => String::new(),
            },
            None => return,
        };
        self.notes_popup.begin_prompt(NotePromptKind::Rename { index }, name);
    }

    /// Close the prompt and do nothing else.
    pub fn cancel_note_prompt(&mut self)
        ensures
            final(self)@ == old(self)@.cancel_note_prompt(),
    {
        self.notes_popup.cancel_prompt();
    }

    /// Confirm the prompt: create the note, or rename it. A blank name does
    /// nothing and leaves the prompt open.
    pub fn confirm_note_prompt(&mut self) -> (r: Option<IoRequest>)
        ensures
            final(self)@ == old(self)@.confirm_note_prompt().app,
            io::opt_io_view(r) == old(self)@.confirm_note_prompt().io,
    {
        let kind = match self.notes_popup.prompt_kind {
            Some(kind) => kind,
            None => return None,
        };
        let name = match &self.notes_popup.prompt {
            Some(input) => text::trim(input.as_str()),
            None => return None,
        };
        if name.as_str().is_empty() {
            return None;
        }
        match kind {
            NotePromptKind::Create => self.confirm_create_note(name.as_str()),
            NotePromptKind::Rename { index } => self.confirm_rename_note(index, name.as_str()),
        }
    }

    // ---- creating --------------------------------------------------------------

    fn confirm_create_note(&mut self, name: &str) -> (r: Option<IoRequest>)
        ensures
            final(self)@ == old(self)@.confirm_create_note(name@).app,
            io::opt_io_view(r) == old(self)@.confirm_create_note(name@).io,
    {
        if self.view == Screen::Archive {
            self.flash("archived task has no note".to_owned());
            self.cancel_note_prompt();
            return None;
        }
        let content = match self.cur_task() {
            Some(task) => note::note_template(task),
            None => {
                self.cancel_note_prompt();
                return None;
            },
        };
        let folder = match &self.notes_popup.folder {
            Some(folder) => folder.copy(),
            None => {
                self.cancel_note_prompt();
                return None;
            },
        };
        let dir = folder.dir.clone();
        let file = notes_popup::normalize_note_file_name(name);
        let path = path::join(dir.as_str(), file.as_str());
        self.ask(Pending::CreateDir { folder, path, content }, Io::MakeDir { dir })
    }

    fn prompt_failed(&mut self, what: &str, error: &str)
        ensures
            final(self)@ == old(self)@.prompt_failed(what@, error@).app,
            old(self)@.prompt_failed(what@, error@).io is None,
    {
        self.pending = Pending::Nothing;
        self.flash(text::concat(what, error));
        self.cancel_note_prompt();
    }

    fn list_created(&mut self, folder: &NotesFolder) -> (r: Option<IoRequest>)
        ensures
            final(self)@ == old(self)@.list_created(folder@).app,
            io::opt_io_view(r) == old(self)@.list_created(folder@).io,
    {
        self.ask(
            Pending::CreateList { dir: folder.dir.clone() },
            Io::ListFiles { dir: folder.dir.clone() },
        )
    }

    fn set_linked(&mut self, folder: &NotesFolder)
        ensures
            final(self)@ == old(self)@.with_linked(folder@),
    {
        let mut now = folder.copy();
        now.existed_in_task = true;
        self.notes_popup.folder = Some(now);
    }

    fn create_written(&mut self, folder: NotesFolder, written: Result<(), String>) -> (r: Option<
        IoRequest,
    >)
        ensures
            final(self)@ == old(self)@.create_written(folder@, said(written)).app,
            io::opt_io_view(r) == old(self)@.create_written(folder@, said(written)).io,
    {
        if let Err(e) = written {
            self.prompt_failed("note write failed: ", e.as_str());
            return None;
        }
        if folder.existed_in_task {
            return self.list_created(&folder);
        }
        match self.notes_popup.task_abs {
            Some(abs) => {
                let token = note::notes_token(folder.id.as_str());
                self.ask(Pending::CreateLink { folder }, Io::AppendToLine { abs, token })
            },
            None => self.list_created(&folder),
        }
    }

    // ---- renaming --------------------------------------------------------------

    fn confirm_rename_note(&mut self, index: usize, name: &str) -> (r: Option<IoRequest>)
        ensures
            final(self)@ == old(self)@.confirm_rename_note(index, name@).app,
            io::opt_io_view(r) == old(self)@.confirm_rename_note(index, name@).io,
    {
        let dir = match &self.notes_popup.folder {
            Some(folder) => folder.dir.clone(),
            None => {
                self.cancel_note_prompt();
                return None;
            },
        };
        if index >= self.notes_popup.files.len() {
            self.cancel_note_prompt();
            return None;
        }
        let from = self.notes_popup.files[index].clone();
        let name = notes_popup::normalize_note_file_name(name);
        let to = path::join(dir.as_str(), name.as_str());
        if path::same(to.as_str(), from.as_str()) {
            self.cancel_note_prompt();
            return None;
        }
        let path = to.clone();
        self.ask(Pending::RenameCheck { dir, from, to, name }, Io::Exists { path })
    }

    fn rename_listed(&mut self, dir: &str, to: &str, names: &Vec<String>)
        ensures
            final(self)@ == old(self)@.rename_listed(dir@, to@, text::texts(names@)),
    {
        self.pending = Pending::Nothing;
        self.notes_popup.files = note::list_notes(dir, names);
        match find_path(&self.notes_popup.files, to) {
            Some(i) => self.notes_popup.cursor = i,
            None => self.notes_popup.clamp_cursor(),
        }
        self.notes_popup.cancel_prompt();
    }

    // ---- deleting --------------------------------------------------------------

    /// Ask before the selected note is deleted.
    pub fn begin_delete_note_confirm(&mut self)
        ensures
            final(self)@ == old(self)@.with_popup(old(self)@.popup.begin_delete_confirm()),
    {
        self.notes_popup.begin_delete_confirm();
    }

    /// Stop asking and delete nothing.
    pub fn cancel_delete_note_confirm(&mut self)
        ensures
            final(self)@ == old(self)@.cancel_delete_note_confirm(),
    {
        self.notes_popup.cancel_delete_confirm();
    }

    /// Delete the note that waits for it.
    pub fn confirm_delete_note(&mut self) -> (r: Option<IoRequest>)
        ensures
            final(self)@ == old(self)@.confirm_delete_note().app,
            io::opt_io_view(r) == old(self)@.confirm_delete_note().io,
    {
        let index: usize = match self.notes_popup.pending_delete {
            Some(index) => index,
            None => return None,
        };
        let dir = match &self.notes_popup.folder {
            Some(folder) => folder.dir.clone(),
            None => {
                self.cancel_delete_note_confirm();
                return None;
            },
        };
        if index >= self.notes_popup.files.len() {
            self.cancel_delete_note_confirm();
            return None;
        }
        let path = self.notes_popup.files[index].clone();
        self.ask(Pending::DeleteFile { dir }, Io::RemoveFile { path })
    }

    // ---- unlinking -------------------------------------------------------------

    /// Move the selected note out of the task's folder into the shared directory
    /// of unlinked notes. Its content is not touched and nothing is asked.
    pub fn unlink_selected_note(&mut self) -> (r: Option<IoRequest>)
        ensures
            final(self)@ == old(self)@.unlink_selected_note().app,
            io::opt_io_view(r) == old(self)@.unlink_selected_note().io,
    {
        let from = match self.notes_popup.selected() {
            Some(file) => file.clone(),
            None => return None,
        };
        let (dir, id) = match &self.notes_popup.folder {
            Some(folder) => (folder.dir.clone(), folder.id.clone()),
            None => return None,
        };
        let name = match path::file_name(from.as_str()) {
            Some(name) => name,
            None => {
                self.flash("note unlink failed: note has no file name".to_owned());
                return None;
            },
        };
        let path = note::unlink_target(self.notes_dir.as_str(), name.as_str(), id.as_str(), false);
        self.ask(Pending::UnlinkCheck { dir, id, from, name }, Io::Exists { path })
    }

    // ---- the note in an editor -----------------------------------------------------

    /// Open the selected note in the editor, in Normal sub-mode.
    pub fn open_note_editor_normal(&mut self) -> (r: Option<IoRequest>)
        ensures
            final(self)@ == old(self)@.open_note_editor(NoteEditorMode::Normal).app,
            io::opt_io_view(r) == old(self)@.open_note_editor(NoteEditorMode::Normal).io,
    {
        self.open_note_editor(NoteEditorMode::Normal)
    }

    /// Open the selected note in the editor, in Insert sub-mode.
    pub fn open_note_editor_insert(&mut self) -> (r: Option<IoRequest>)
        ensures
            final(self)@ == old(self)@.open_note_editor(NoteEditorMode::Insert).app,
            io::opt_io_view(r) == old(self)@.open_note_editor(NoteEditorMode::Insert).io,
    {
        self.open_note_editor(NoteEditorMode::Insert)
    }

    fn open_note_editor(&mut self, mode: NoteEditorMode) -> (r: Option<IoRequest>)
        ensures
            final(self)@ == old(self)@.open_note_editor(mode).app,
            io::opt_io_view(r) == old(self)@.open_note_editor(mode).io,
    {
        let path = match self.notes_popup.selected() {
            Some(file) => file.clone(),
            None => return None,
        };
        let read = path.clone();
        self.ask(Pending::OpenEditor { path, mode }, Io::ReadFile { path: read })
    }

    /// Leave the editor for the list. Unsaved edits are dropped.
    pub fn close_note_editor(&mut self)
        ensures
            final(self)@ == old(self)@.close_editor(EditorTarget::Popup),
    {
        self.notes_popup.active_editor = None;
    }

    /// Write the note in the popup's editor, if one is open.
    pub fn save_note_editor(&mut self) -> (r: Option<IoRequest>)
        ensures
            final(self)@ == old(self)@.save_editor(EditorTarget::Popup, SaveKind::Key).app,
            io::opt_io_view(r) == old(self)@.save_editor(EditorTarget::Popup, SaveKind::Key).io,
    {
        self.save_editor(EditorTarget::Popup, SaveKind::Key)
    }

    /// Write the note in an editor, if it is open.
    pub fn save_editor(&mut self, target: EditorTarget, kind: SaveKind) -> (r: Option<IoRequest>)
        ensures
            final(self)@ == old(self)@.save_editor(target, kind).app,
            io::opt_io_view(r) == old(self)@.save_editor(target, kind).io,
    {
        let editor = match target {
            EditorTarget::Popup => &self.notes_popup.active_editor,
            EditorTarget::Pinned => &self.pinned_note,
        };
        let (path, content) = match editor {
            Some(e) => (e.path().clone(), e.content()),
            None => return None,
        };
        self.ask(Pending::SaveEditor { target, kind }, Io::WriteFile { path, content })
    }

    /// Close an editor: the popup goes back to its list, and the pinned note is
    /// no longer pinned.
    pub fn close_editor(&mut self, target: EditorTarget)
        ensures
            final(self)@ == old(self)@.close_editor(target),
    {
        match target {
            EditorTarget::Popup => self.notes_popup.active_editor = None,
            EditorTarget::Pinned => self.close_pinned_note(),
        }
    }

    fn editor_saved(&mut self, target: EditorTarget, kind: SaveKind, written: Result<(), String>)
        ensures
            final(self)@ == old(self)@.editor_saved(target, kind, said(written)),
    {
        self.pending = Pending::Nothing;
        let ghost at = self@;
        let close = match kind {
            SaveKind::Key => false,
            SaveKind::Command { close } => close,
        };
        let outcome = match target {
            EditorTarget::Popup => match self.notes_popup.active_editor.as_mut() {
                Some(e) => e.save(written),
                None => return,
            },
            EditorTarget::Pinned => match self.pinned_note.as_mut() {
                Some(e) => e.save(written),
                None => return,
            },
        };
        match outcome {
            Ok(()) => if close {
                self.close_editor(target);
            },
            Err(e) => self.flash(note_editor::save_failed_message(e.as_str())),
        }
    }

    // ---- the host's answers --------------------------------------------------------

    fn legacy_moved(&mut self, folder: NotesFolder, abs: usize, raw: String, moved: bool) -> (r:
        Option<IoRequest>)
        ensures
            final(self)@ == old(self)@.legacy_moved(folder@, abs, raw@, moved).app,
            io::opt_io_view(r) == old(self)@.legacy_moved(folder@, abs, raw@, moved).io,
    {
        if moved {
            self.ask(Pending::MigrateEdit { folder, abs }, Io::EditLine { abs, raw })
        } else {
            self.open_list(folder, Some(abs))
        }
    }

    fn legacy_relinked(&mut self, folder: NotesFolder, abs: usize, edit: LineEdit<String>) -> (r:
        Option<IoRequest>)
        ensures
            final(self)@ == old(self)@.legacy_relinked(folder@, abs, edit_view(edit)).app,
            io::opt_io_view(r) == old(self)@.legacy_relinked(folder@, abs, edit_view(edit)).io,
    {
        match edit {
            LineEdit::Saved => {
                let mut now = folder;
                now.existed_in_task = true;
                self.open_list(now, Some(abs))
            },
            LineEdit::Failed(e) => {
                self.flash(text::concat("note migration failed: ", e.as_str()));
                self.open_list(folder, Some(abs))
            },
            _ => self.open_list(folder, Some(abs)),
        }
    }

    fn opened(&mut self, folder: NotesFolder, task_abs: Option<usize>, names: &Vec<String>)
        ensures
            final(self)@ == old(self)@.opened(folder@, task_abs, text::texts(names@)),
    {
        self.pending = Pending::Nothing;
        let files = note::list_notes(folder.dir.as_str(), names);
        self.notes_popup = NotesPopupState::new(files);
        self.notes_popup.folder = Some(folder);
        self.notes_popup.task_abs = task_abs;
        self.mode = Mode::Notes;
    }

    fn create_dir_made(
        &mut self,
        folder: NotesFolder,
        path: String,
        content: String,
        made: Result<(), String>,
    ) -> (r: Option<IoRequest>)
        ensures
            final(self)@ == old(self)@.create_dir_made(folder@, path@, content@, said(made)).app,
            io::opt_io_view(r) == old(self)@.create_dir_made(
                folder@,
                path@,
                content@,
                said(made),
            ).io,
    {
        match made {
            Ok(()) => self.ask(Pending::CreateWrite { folder }, Io::WriteFile { path, content }),
            Err(e) => {
                self.prompt_failed("note mkdir failed: ", e.as_str());
                None
            },
        }
    }

    fn create_linked(&mut self, folder: NotesFolder, edit: LineEdit<String>) -> (r: Option<
        IoRequest,
    >)
        ensures
            final(self)@ == old(self)@.create_linked(folder@, edit_view(edit)).app,
            io::opt_io_view(r) == old(self)@.create_linked(folder@, edit_view(edit)).io,
    {
        match edit {
            LineEdit::Saved => self.set_linked(&folder),
            LineEdit::Failed(e) => self.flash(text::concat("note link failed: ", e.as_str())),
            _ => {},
        }
        self.list_created(&folder)
    }

    fn create_listed(&mut self, dir: &str, names: &Vec<String>)
        ensures
            final(self)@ == old(self)@.create_listed(dir@, text::texts(names@)),
    {
        self.pending = Pending::Nothing;
        self.notes_popup.files = note::list_notes(dir, names);
        self.notes_popup.cancel_prompt();
    }

    fn rename_checked(
        &mut self,
        dir: String,
        from: String,
        to: String,
        name: String,
        taken: bool,
    ) -> (r: Option<IoRequest>)
        ensures
            final(self)@ == old(self)@.rename_checked(dir@, from@, to@, name@, taken).app,
            io::opt_io_view(r) == old(self)@.rename_checked(dir@, from@, to@, name@, taken).io,
    {
        if taken {
            self.pending = Pending::Nothing;
            let mut message = text::concat("a note named ", name.as_str());
            message.append(" already exists");
            self.flash(message);
            None
        } else {
            let target = to.clone();
            self.ask(Pending::RenameMove { dir, to }, Io::RenameFile { from, to: target })
        }
    }

    fn rename_moved(&mut self, dir: String, to: String, moved: Result<(), String>) -> (r: Option<
        IoRequest,
    >)
        ensures
            final(self)@ == old(self)@.rename_moved(dir@, to@, said(moved)).app,
            io::opt_io_view(r) == old(self)@.rename_moved(dir@, to@, said(moved)).io,
    {
        match moved {
            Ok(()) => {
                let listed = dir.clone();
                self.ask(Pending::RenameList { dir, to }, Io::ListFiles { dir: listed })
            },
            Err(e) => {
                self.prompt_failed("note rename failed: ", e.as_str());
                None
            },
        }
    }

    fn delete_done(&mut self, dir: String, removed: Result<(), String>) -> (r: Option<IoRequest>)
        ensures
            final(self)@ == old(self)@.delete_done(dir@, said(removed)).app,
            io::opt_io_view(r) == old(self)@.delete_done(dir@, said(removed)).io,
    {
        match removed {
            Ok(()) => {
                let listed = dir.clone();
                self.ask(Pending::DeleteList { dir }, Io::ListFiles { dir: listed })
            },
            Err(e) => {
                self.pending = Pending::Nothing;
                self.flash(text::concat("note delete failed: ", e.as_str()));
                self.cancel_delete_note_confirm();
                None
            },
        }
    }

    fn delete_listed(&mut self, dir: &str, names: &Vec<String>)
        ensures
            final(self)@ == old(self)@.delete_listed(dir@, text::texts(names@)),
    {
        self.pending = Pending::Nothing;
        self.notes_popup.files = note::list_notes(dir, names);
        self.notes_popup.clamp_cursor();
        self.notes_popup.cancel_delete_confirm();
    }

    fn unlink_checked(&mut self, dir: String, id: &str, from: String, name: &str, taken: bool) -> (r:
        Option<IoRequest>)
        ensures
            final(self)@ == old(self)@.unlink_checked(dir@, id@, from@, name@, taken).app,
            io::opt_io_view(r) == old(self)@.unlink_checked(dir@, id@, from@, name@, taken).io,
    {
        let to = note::unlink_target(self.notes_dir.as_str(), name, id, taken);
        let shared = path::join(self.notes_dir.as_str(), note::NOTES_UNLINKED_SUBDIR);
        self.ask(Pending::UnlinkMove { dir }, Io::MoveFile { from, to, dir: shared })
    }

    fn unlink_moved(&mut self, dir: String, moved: Result<(), String>) -> (r: Option<IoRequest>)
        ensures
            final(self)@ == old(self)@.unlink_moved(dir@, said(moved)).app,
            io::opt_io_view(r) == old(self)@.unlink_moved(dir@, said(moved)).io,
    {
        match moved {
            Ok(()) => {
                let listed = dir.clone();
                self.ask(Pending::UnlinkList { dir }, Io::ListFiles { dir: listed })
            },
            Err(e) => {
                self.pending = Pending::Nothing;
                self.flash(text::concat("note unlink failed: ", e.as_str()));
                None
            },
        }
    }

    fn unlink_listed(&mut self, dir: &str, names: &Vec<String>)
        ensures
            final(self)@ == old(self)@.unlink_listed(dir@, text::texts(names@)),
    {
        self.pending = Pending::Nothing;
        self.notes_popup.files = note::list_notes(dir, names);
        self.notes_popup.clamp_cursor();
    }

    fn editor_read(&mut self, path: String, mode: NoteEditorMode, content: Option<String>)
        ensures
            final(self)@ == old(self)@.editor_read(path@, mode, text::opt_text(content)),
    {
        self.pending = Pending::Nothing;
        self.notes_popup.active_editor = Some(NoteEditorState::load(path, content, mode));
    }

    fn on_done(&mut self, waiting: PendingStep, done: Result<(), String>) -> (r: Option<IoRequest>)
        ensures
            final(self)@ == old(self)@.on_done(io::pending_view(waiting), said(done)).app,
            io::opt_io_view(r) == old(self)@.on_done(io::pending_view(waiting), said(done)).io,
    {
        match waiting {
            Pending::MigrateMove { folder, abs, raw } => {
                let moved = done.is_ok();
                self.legacy_moved(folder, abs, raw, moved)
            },
            Pending::MigrateSkip { folder, abs } => self.open_list(folder, Some(abs)),
            Pending::CreateDir { folder, path, content } => self.create_dir_made(
                folder,
                path,
                content,
                done,
            ),
            Pending::CreateWrite { folder } => self.create_written(folder, done),
            Pending::RenameMove { dir, to } => self.rename_moved(dir, to, done),
            Pending::DeleteFile { dir } => self.delete_done(dir, done),
            Pending::UnlinkMove { dir } => self.unlink_moved(dir, done),
            Pending::SaveEditor { target, kind } => {
                self.editor_saved(target, kind, done);
                None
            },
            _ => None,
        }
    }

    fn on_edited(&mut self, waiting: PendingStep, edit: LineEdit<String>) -> (r: Option<IoRequest>)
        ensures
            final(self)@ == old(self)@.on_edited(io::pending_view(waiting), edit_view(edit)).app,
            io::opt_io_view(r) == old(self)@.on_edited(
                io::pending_view(waiting),
                edit_view(edit),
            ).io,
    {
        match waiting {
            Pending::MigrateEdit { folder, abs } => self.legacy_relinked(folder, abs, edit),
            Pending::CreateLink { folder } => self.create_linked(folder, edit),
            _ => None,
        }
    }

    fn on_names(&mut self, waiting: PendingStep, names: &Vec<String>)
        ensures
            final(self)@ == old(self)@.on_names(io::pending_view(waiting), text::texts(names@)),
    {
        match waiting {
            Pending::OpenList { folder, task_abs } => self.opened(folder, task_abs, names),
            Pending::CreateList { dir } => self.create_listed(dir.as_str(), names),
            Pending::RenameList { dir, to } => self.rename_listed(
                dir.as_str(),
                to.as_str(),
                names,
            ),
            Pending::DeleteList { dir } => self.delete_listed(dir.as_str(), names),
            Pending::UnlinkList { dir } => self.unlink_listed(dir.as_str(), names),
            _ => {},
        }
    }

    fn on_found(&mut self, waiting: PendingStep, found: bool) -> (r: Option<IoRequest>)
        ensures
            final(self)@ == old(self)@.on_found(io::pending_view(waiting), found).app,
            io::opt_io_view(r) == old(self)@.on_found(io::pending_view(waiting), found).io,
    {
        match waiting {
            Pending::RenameCheck { dir, from, to, name } => self.rename_checked(
                dir,
                from,
                to,
                name,
                found,
            ),
            Pending::UnlinkCheck { dir, id, from, name } => self.unlink_checked(
                dir,
                id.as_str(),
                from,
                name.as_str(),
                found,
            ),
            _ => None,
        }
    }

    fn on_content(&mut self, waiting: PendingStep, content: Option<String>)
        ensures
            final(self)@ == old(self)@.on_content(
                io::pending_view(waiting),
                text::opt_text(content),
            ),
    {
        if let Pending::OpenEditor { path, mode } = waiting {
            self.editor_read(path, mode, content);
        }
    }

    /// Take the host's answer to the last piece of work, and hand out the next.
    pub fn resume(&mut self, reply: IoReply) -> (r: Option<IoRequest>)
        ensures
            final(self)@ == old(self)@.resumed(reply@).app,
            io::opt_io_view(r) == old(self)@.resumed(reply@).io,
            old(self)@.wf() ==> final(self)@.wf(),
    {
        proof {
            if self@.wf() {
                law_answers_keep_order(self@, reply@);
            }
        }
        let mut waiting: PendingStep = Pending::Nothing;
        std::mem::swap(&mut waiting, &mut self.pending);
        assert(self@ == old(self)@.settled());
        match reply {
            IoReply::Done(done) => self.on_done(waiting, done),
            IoReply::Edited(edit) => self.on_edited(waiting, edit),
            IoReply::Names(names) => {
                self.on_names(waiting, &names);
                None
            },
            IoReply::Found(found) => self.on_found(waiting, found),
            IoReply::Content(content) => {
                self.on_content(waiting, content);
                None
            },
        }
    }
}

/// What became of a change to a task's line.
pub open spec fn edit_view(e: LineEdit<String>) -> LineEdit<Seq<char>> {
    match e {
        LineEdit::Saved => LineEdit::Saved,
        LineEdit::Aborted => LineEdit::Aborted,
        LineEdit::Failed(e) => LineEdit::Failed(e@),
        LineEdit::Unchanged => LineEdit::Unchanged,
    }
}

/// Whether something worked, and if not, why.
pub open spec fn said(r: Result<(), String>) -> Result<(), Seq<char>> {
    match r {
        Ok(_) => Ok(()),
        Err(e) => Err(e@),
    }
}

/// The first of `files` that is the path `to`.
fn find_path(files: &Vec<String>, to: &str) -> (r: Option<usize>)
    ensures
        match (r, position_of(text::texts(files@), to@)) {
            (Some(i), Some(j)) => i == j,
            (None, None) => true,
            _ => false,
        },
{
    let ghost all = text::texts(files@);
    let mut i: usize = 0;
    while i < files.len()
        invariant
            i <= files@.len(),
            all == text::texts(files@),
            position_of(all.take(i as int), to@) is None,
        decreases files.len() - i,
    {
        assert(all.take(i + 1).drop_last() =~= all.take(i as int));
        assert(all.take(i + 1).last() == files@[i as int]@);
        if path::same(files[i].as_str(), to) {
            proof {
                lemma_position_holds(all, to@, i + 1);
            }
            return Some(i);
        }
        i += 1;
    }
    assert(all.take(i as int) =~= all);
    None
}

/// What is found among the first files is found among all.
proof fn lemma_position_holds(files: Seq<Seq<char>>, to: Seq<char>, k: int)
    requires
        0 <= k <= files.len(),
        position_of(files.take(k), to) is Some,
    ensures
        position_of(files, to) == position_of(files.take(k), to),
    decreases files.len() - k,
{
    if k < files.len() {
        assert(files.take(k + 1).drop_last() =~= files.take(k));
        lemma_position_holds(files, to, k + 1);
    } else {
        assert(files.take(k) =~= files);
    }
}

// ---- laws ------------------------------------------------------------------------

/// Nothing that the host answers puts the popup, the editor in it or the pinned
/// note out of order.
pub proof fn law_answers_keep_order(v: AppView, reply: ReplyView)
    requires
        v.wf(),
    ensures
        v.resumed(reply).app.wf(),
{
    if let (Pending::OpenEditor { path, mode }, ReplyView::Content(content)) = (v.pending, reply) {
        note_editor::law_loaded_is_wf(
            path,
            match content {
                Some(c) => c,
                None => Seq::empty(),
            },
            mode,
        );
    }
}

/// No operation of the popup puts it out of order either.
pub proof fn law_operations_keep_order(v: AppView, folder: FolderView, mode: NoteEditorMode)
    requires
        v.wf(),
    ensures
        v.open_notes_in(folder).app.wf(),
        v.begin_rename_prompt().wf(),
        v.confirm_note_prompt().app.wf(),
        v.confirm_delete_note().app.wf(),
        v.unlink_selected_note().app.wf(),
        v.open_note_editor(mode).app.wf(),
{
}

/// From the archive no note is created or linked and no task is changed: opening
/// the popup only lists the folder, and confirming a new note only says why not.
pub proof fn law_archive_is_not_written(v: AppView, folder: FolderView)
    requires
        v.view == Screen::Archive,
        v.popup.prompt_kind == Some(NotePromptKind::Create),
    ensures
        v.cur_task() is Some ==> v.open_notes_in(folder).io == Some(
            Io::ListFiles { dir: folder.dir },
        ),
        v.confirm_note_prompt().io is None,
        v.popup.prompt matches Some(p) && text::trimmed(p).len() > 0
            ==> v.confirm_note_prompt().app.flash == Some("archived task has no note"@)
            && v.confirm_note_prompt().app.popup.prompt is None,
{
}

/// A task that already has a `notes:` token is never migrated: opening its notes
/// only lists their folder.
pub proof fn law_linked_task_is_not_migrated(v: AppView, folder: FolderView)
    requires
        folder.existed_in_task,
        v.cur_task() is Some,
    ensures
        v.open_notes_in(folder).io == Some(Io::ListFiles { dir: folder.dir }),
{
}

/// Renaming a note to a name that another file has is refused: no file is
/// touched, and the prompt stays open as it was.
pub proof fn law_rename_never_overwrites(v: AppView)
    requires
        v.pending is RenameCheck,
    ensures
        v.resumed(ReplyView::Found(true)).io is None,
        v.resumed(ReplyView::Found(true)).app.popup == v.popup,
        v.resumed(ReplyView::Found(true)).app.flash is Some,
{
}

/// Renaming a note to the name it has touches no file and says nothing.
pub proof fn law_rename_to_own_name_is_harmless(v: AppView, index: usize, name: Seq<char>)
    requires
        v.popup.folder matches Some(folder) && index < v.popup.files.len() && path::same_path(
            path::joined_path(folder.dir, notes_popup::note_file_name(name)),
            v.popup.files[index as int],
        ),
    ensures
        v.confirm_rename_note(index, name).io is None,
        v.confirm_rename_note(index, name).app == v.cancel_note_prompt(),
{
}

/// The task's line is changed only where its first note was written, and then
/// by its link alone.
pub proof fn law_only_a_first_note_links(v: AppView, folder: FolderView, written: Result<(), Seq<char>>)
    ensures
        match v.create_written(folder, written).io {
            Some(Io::AppendToLine { abs, token }) => written is Ok && !folder.existed_in_task
                && v.popup.task_abs == Some(abs) && token == note::link_token(folder.id),
            Some(Io::EditLine { .. }) => false,
            _ => true,
        },
{
}

/// A link that did not reach the task's line leaves the popup's folder unlinked:
/// the next note that is written asks for the same link again.
pub proof fn law_missing_link_is_asked_for_again(
    v: AppView,
    folder: FolderView,
    edit: LineEdit<Seq<char>>,
)
    requires
        v.pending == (PendingView::CreateLink { folder }),
        v.popup.folder == Some(folder),
        !folder.existed_in_task,
        v.popup.task_abs is Some,
        edit != LineEdit::<Seq<char>>::Saved,
    ensures
        ({
            let after = v.resumed(ReplyView::Edited(edit)).app;
            &&& after.popup == v.popup
            &&& after.create_written(folder, Ok(())).io == Some(
                Io::AppendToLine {
                    abs: v.popup.task_abs->0,
                    token: note::link_token(folder.id),
                },
            )
        }),
{
}

/// A `:`-command that had to write ends, in either editor, as its result says:
/// the editor closes exactly where the result asks for that, what is said is
/// exactly the result's error, and an editor that stays holds what it held.
pub proof fn law_commands_end_as_their_result_says(
    v: AppView,
    target: EditorTarget,
    close: bool,
    written: Result<(), Seq<char>>,
)
    requires
        v.pending == (PendingView::SaveEditor { target, kind: SaveKind::Command { close } }),
        v.editor(target) is Some,
    ensures
        ({
            let step = v.resumed(ReplyView::Done(written));
            let result = note_editor::command_result(close, written);
            &&& step.io is None
            &&& step.app.editor(target) is None <==> result == CommandResultView::CloseRequested
            &&& step.app.editor(target) is Some ==> step.app.editor(target) == Some(
                v.editor(target)->0.saved(written is Ok),
            )
            &&& step.app.flash == match result {
                CommandResultView::Error(message) => Some(message),
                _ => v.flash,
            }
        }),
{
}

/// The save key never closes the editor, and says exactly what a failed command
/// says.
pub proof fn law_save_key_never_closes(
    v: AppView,
    target: EditorTarget,
    written: Result<(), Seq<char>>,
)
    requires
        v.editor(target) is Some,
    ensures
        v.editor_saved(target, SaveKind::Key, written) == v.editor_saved(
            target,
            SaveKind::Command { close: false },
            written,
        ),
        v.editor_saved(target, SaveKind::Key, written).editor(target) is Some,
{
}

/// A failed save leaves the editor open and the buffer as it was.
pub proof fn law_failed_save_keeps_the_editor(
    v: AppView,
    target: EditorTarget,
    kind: SaveKind,
    error: Seq<char>,
)
    ensures
        v.editor_saved(target, kind, Err(error)).editor(target) == v.editor(target),
        v.editor(target) is Some ==> v.editor_saved(target, kind, Err(error)).flash == Some(
            "note save failed: "@ + error,
        ),
{
}

} // verus!
