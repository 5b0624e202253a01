//! What the application asks its host to do with files and with the task list,
//! and what the host answers.
use crate::app::note_editor::NoteEditorMode;
use crate::note::{FolderView, NotesFolder};
use crate::text;
use vstd::prelude::*;

verus! {

/// One piece of work for the host.
#[derive(Debug, Clone, PartialEq, Eq)]
pub enum Io<S> {
    /// Make the directory `dir`, with its parents, then move the file `from` to
    /// `to`, which lies in it.
    MoveFile { from: S, to: S, dir: S },
    /// Rename `from` to `to`.
    RenameFile { from: S, to: S },
    /// Make the directory `dir`, with its parents.
    MakeDir { dir: S },
    /// Write `content` to the file `path`.
    WriteFile { path: S, content: S },
    /// Read the file `path`.
    ReadFile { path: S },
    /// Delete the file `path`.
    RemoveFile { path: S },
    /// Tell whether `path` exists.
    Exists { path: S },
    /// List the names of the files in the directory `dir`, without its
    /// subdirectories; none where it does not exist.
    ListFiles { dir: S },
    /// Replace the line of the task at `abs` by `raw`, in one step that can be
    /// undone.
    EditLine { abs: usize, raw: S },
    /// Append `token` to the line of the task at `abs`.
    AppendToLine { abs: usize, token: S },
}

/// A piece of work, with its texts.
pub type IoRequest = Io<String>;

/// What became of a change to a task's line. A saved change is already part of
/// the task list, and an aborted one was already reported.
#[derive(Debug, Clone, PartialEq, Eq)]
pub enum LineEdit<S> {
    Saved,
    Aborted,
    Failed(S),
    Unchanged,
}

/// What the host answers.
#[derive(Debug, PartialEq, Eq)]
pub enum IoReply {
    /// Whether a change to the disk worked, and if not, why.
    Done(Result<(), String>),
    /// What a file holds, where it could be read.
    Content(Option<String>),
    /// Whether a path exists.
    Found(bool),
    /// The names of the files in a directory.
    Names(Vec<String>),
    /// What became of a change to a task's line.
    Edited(LineEdit<String>),
}

/// What the host answers, as values.
pub enum ReplyView {
    Done(Result<(), Seq<char>>),
    Content(Option<Seq<char>>),
    Found(bool),
    Names(Seq<Seq<char>>),
    Edited(LineEdit<Seq<char>>),
}

/// What the application does once the host has answered.
#[derive(Debug, Clone, PartialEq, Eq)]
pub enum Pending<S, F> {
    /// Nothing is waited for.
    Nothing,
    /// A legacy note is being moved into `folder`; then the line at `abs`
    /// becomes `raw`.
    MigrateMove { folder: F, abs: usize, raw: S },
    /// The line of a task whose note was moved into `folder` is being changed.
    MigrateEdit { folder: F, abs: usize },
    /// The legacy note has no name to be moved under; the popup opens without.
    MigrateSkip { folder: F, abs: usize },
    /// The popup opens on the folder once it is listed.
    OpenList { folder: F, task_abs: Option<usize> },
    /// The folder of a new note is being made.
    CreateDir { folder: F, path: S, content: S },
    /// A new note is being written.
    CreateWrite { folder: F },
    /// The task is being linked to the folder of its first note.
    CreateLink { folder: F },
    /// The folder is being listed again after a note was created.
    CreateList { dir: S },
    /// Whether a new name is taken is being found out.
    RenameCheck { dir: S, from: S, to: S, name: S },
    /// A note is being renamed.
    RenameMove { dir: S, to: S },
    /// The folder is being listed again after a note was renamed to `to`.
    RenameList { dir: S, to: S },
    /// A note is being deleted.
    DeleteFile { dir: S },
    /// The folder is being listed again after a note was deleted.
    DeleteList { dir: S },
    /// Whether the name of an unlinked note is taken is being found out.
    UnlinkCheck { dir: S, id: S, from: S, name: S },
    /// A note is being moved out of its folder.
    UnlinkMove { dir: S },
    /// The folder is being listed again after a note left it.
    UnlinkList { dir: S },
    /// A note is being read for the editor.
    OpenEditor { path: S, mode: NoteEditorMode },
    /// The note in the editor is being written.
    SaveEditor { target: EditorTarget, kind: SaveKind },
}

/// Which editor is meant.
#[derive(Debug, Clone, Copy, PartialEq, Eq, Structural)]
pub enum EditorTarget {
    /// The one in the notes popup.
    Popup,
    /// The pinned note.
    Pinned,
}

/// What asked for a note to be written.
#[derive(Debug, Clone, Copy, PartialEq, Eq, Structural)]
pub enum SaveKind {
    /// The save key.
    Key,
    /// A `:`-command, which may also ask for the editor to be closed.
    Command { close: bool },
}

/// What is waited for, with its texts.
pub type PendingStep = Pending<String, NotesFolder>;

/// What is waited for, as values.
pub type PendingView = Pending<Seq<char>, FolderView>;

/// A piece of work, as values.
pub open spec fn io_view(r: Io<String>) -> Io<Seq<char>> {
    match r {
        Io::MoveFile { from, to, dir } => Io::MoveFile { from: from@, to: to@, dir: dir@ },
        Io::RenameFile { from, to } => Io::RenameFile { from: from@, to: to@ },
        Io::MakeDir { dir } => Io::MakeDir { dir: dir@ },
        Io::WriteFile { path, content } => Io::WriteFile { path: path@, content: content@ },
        Io::ReadFile { path } => Io::ReadFile { path: path@ },
        Io::RemoveFile { path } => Io::RemoveFile { path: path@ },
        Io::Exists { path } => Io::Exists { path: path@ },
        Io::ListFiles { dir } => Io::ListFiles { dir: dir@ },
        Io::EditLine { abs, raw } => Io::EditLine { abs, raw: raw@ },
        Io::AppendToLine { abs, token } => Io::AppendToLine { abs, token: token@ },
    }
}

/// Work that may have to be done, as values.
pub open spec fn opt_io_view(r: Option<Io<String>>) -> Option<Io<Seq<char>>> {
    match r {
        Some(r) => Some(io_view(r)),
        None => None,
    }
}

impl View for IoReply {
    type V = ReplyView;

    open spec fn view(&self) -> ReplyView {
        match self {
            IoReply::Done(Ok(_)) => ReplyView::Done(Ok(())),
            IoReply::Done(Err(e)) => ReplyView::Done(Err(e@)),
            IoReply::Content(c) => ReplyView::Content(text::opt_text(*c)),
            IoReply::Found(b) => ReplyView::Found(*b),
            IoReply::Names(v) => ReplyView::Names(text::texts(v@)),
            IoReply::Edited(LineEdit::Saved) => ReplyView::Edited(LineEdit::Saved),
            IoReply::Edited(LineEdit::Aborted) => ReplyView::Edited(LineEdit::Aborted),
            IoReply::Edited(LineEdit::Failed(e)) => ReplyView::Edited(LineEdit::Failed(e@)),
            IoReply::Edited(LineEdit::Unchanged) => ReplyView::Edited(LineEdit::Unchanged),
        }
    }
}

/// What is waited for, as values.
pub open spec fn pending_view(p: PendingStep) -> PendingView {
    match p {
        Pending::Nothing => Pending::Nothing,
        Pending::MigrateMove { folder, abs, raw } => Pending::MigrateMove {
            folder: folder@,
            abs,
            raw: raw@,
        },
        Pending::MigrateEdit { folder, abs } => Pending::MigrateEdit { folder: folder@, abs },
        Pending::MigrateSkip { folder, abs } => Pending::MigrateSkip { folder: folder@, abs },
        Pending::OpenList { folder, task_abs } => Pending::OpenList { folder: folder@, task_abs },
        Pending::CreateDir { folder, path, content } => Pending::CreateDir {
            folder: folder@,
            path: path@,
            content: content@,
        },
        Pending::CreateWrite { folder } => Pending::CreateWrite { folder: folder@ },
        Pending::CreateLink { folder } => Pending::CreateLink { folder: folder@ },
        Pending::CreateList { dir } => Pending::CreateList { dir: dir@ },
        Pending::RenameCheck { dir, from, to, name } => Pending::RenameCheck {
            dir: dir@,
            from: from@,
            to: to@,
            name: name@,
        },
        Pending::RenameMove { dir, to } => Pending::RenameMove { dir: dir@, to: to@ },
        Pending::RenameList { dir, to } => Pending::RenameList { dir: dir@, to: to@ },
        Pending::DeleteFile { dir } => Pending::DeleteFile { dir: dir@ },
        Pending::DeleteList { dir } => Pending::DeleteList { dir: dir@ },
        Pending::UnlinkCheck { dir, id, from, name } => Pending::UnlinkCheck {
            dir: dir@,
            id: id@,
            from: from@,
            name: name@,
        },
        Pending::UnlinkMove { dir } => Pending::UnlinkMove { dir: dir@ },
        Pending::UnlinkList { dir } => Pending::UnlinkList { dir: dir@ },
        Pending::OpenEditor { path, mode } => Pending::OpenEditor { path: path@, mode },
        Pending::SaveEditor { target, kind } => Pending::SaveEditor { target, kind },
    }
}

} // verus!
