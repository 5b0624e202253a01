//! What the notes popup does to which note, from the key to the last answer of the
//! host.
use crate::app::io::{Io, LineEdit, PendingView, ReplyView};
use crate::app::note_editor::{EditorView, NoteEditorMode};
use crate::app::notes_popup;
use crate::app::notes_popup::{NotePromptKind, PopupView};
use crate::app::types::{Mode, View as Screen};
use crate::app::AppView;
use crate::dispatch::request::{Reaction, RequestView};
use crate::keys::{KeyCode, KeyEvent};
use crate::laws::list;
use crate::note;
use crate::note::FolderView;
use crate::path;
use crate::text;
use crate::todo::Task;
use vstd::prelude::*;

verus! {

/// The list of notes has the keyboard.
pub open spec fn browsing(v: AppView) -> bool {
    &&& !v.pinned_focus
    &&& v.mode == Mode::Notes
    &&& v.popup.editor is None
    &&& v.popup.prompt is None
    &&& v.popup.pending_delete is None
}

/// A key pressed in the popup, which has the keyboard.
pub open spec fn in_popup(v: AppView, key: KeyEvent) -> Reaction {
    v.notes_keyed(key)
}

/// One piece of work is asked for.
pub open spec fn asks_for(requests: Seq<RequestView>, io: Io<Seq<char>>) -> bool {
    requests == seq![RequestView::Io(io)]
}

/// In the list of notes `j` and `k`, or the arrows, go to the note below and above,
/// and stop at the ends.
pub proof fn law_notes_are_stepped_one_by_one(v: AppView)
    requires
        browsing(v),
        0 <= v.popup.cursor < v.popup.files.len(),
    ensures
        forall|code: KeyCode|
            #![trigger list::alone(code)]
            code == KeyCode::Char('j') || code == KeyCode::Down ==> list::only_becomes(
                in_popup(v, list::alone(code)),
                AppView {
                    popup: PopupView {
                        cursor: if v.popup.cursor + 1 == v.popup.files.len() {
                            v.popup.cursor
                        } else {
                            v.popup.cursor + 1
                        },
                        ..v.popup
                    },
                    ..v
                },
            ),
        forall|code: KeyCode|
            #![trigger list::alone(code)]
            code == KeyCode::Char('k') || code == KeyCode::Up ==> list::only_becomes(
                in_popup(v, list::alone(code)),
                AppView {
                    popup: PopupView {
                        cursor: if v.popup.cursor == 0 {
                            0
                        } else {
                            v.popup.cursor - 1
                        },
                        ..v.popup
                    },
                    ..v
                },
            ),
{
    reveal(AppView::notes_list_keyed);
}

/// In the list of notes `n` asks for a new name with nothing typed yet, and Esc
/// closes the popup.
pub proof fn law_new_note_and_leave_keys(v: AppView)
    requires
        browsing(v),
    ensures
        list::only_becomes(
            in_popup(v, list::typed('n')),
            AppView {
                popup: PopupView {
                    prompt: Some(Seq::empty()),
                    prompt_kind: Some(NotePromptKind::Create),
                    ..v.popup
                },
                ..v
            },
        ),
        list::only_becomes(
            in_popup(v, list::alone(KeyCode::Esc)),
            AppView { mode: Mode::Normal, ..v },
        ),
{
    reveal(AppView::notes_list_keyed);
}

/// While a name is asked for, characters go behind what was typed, Backspace takes
/// the last one away, and Esc drops it all; nothing is asked of the host.
pub proof fn law_typing_a_name(v: AppView, typed: Seq<char>)
    requires
        !v.pinned_focus,
        v.mode == Mode::Notes,
        v.popup.editor is None,
        v.popup.prompt == Some(typed),
    ensures
        forall|c: char|
            #![trigger list::typed(c)]
            list::only_becomes(
                in_popup(v, list::typed(c)),
                AppView {
                    popup: PopupView { prompt: Some(typed + seq![c]), ..v.popup },
                    ..v
                },
            ),
        typed.len() > 0 ==> list::only_becomes(
            in_popup(v, list::alone(KeyCode::Backspace)),
            AppView {
                popup: PopupView { prompt: Some(typed.take(typed.len() - 1)), ..v.popup },
                ..v
            },
        ),
        typed.len() == 0 ==> list::only_becomes(
            in_popup(v, list::alone(KeyCode::Backspace)),
            v,
        ),
        list::only_becomes(
            in_popup(v, list::alone(KeyCode::Esc)),
            AppView { popup: PopupView { prompt: None, prompt_kind: None, ..v.popup }, ..v },
        ),
        text::trimmed(typed).len() == 0 ==> list::only_becomes(
            in_popup(v, list::alone(KeyCode::Enter)),
            v,
        ),
{
    reveal(AppView::notes_prompt_keyed);
    assert forall|c: char| #![trigger list::typed(c)] list::only_becomes(
        in_popup(v, list::typed(c)),
        AppView { popup: PopupView { prompt: Some(typed + seq![c]), ..v.popup }, ..v },
    ) by {
        assert(typed.push(c) =~= typed + seq![c]);
    }
    assert(typed.len() > 0 ==> typed.drop_last() =~= typed.take(typed.len() - 1));
}

/// The name under which a note is kept: what was typed, with `.md` put behind it
/// unless it ends so already, in whatever case.
pub proof fn law_note_names(name: Seq<char>)
    ensures
        ({
            let n = name.len();
            let ends = n >= 3 && name[n - 3] == '.' && (name[n - 2] == 'm' || name[n - 2] == 'M')
                && (name[n - 1] == 'd' || name[n - 1] == 'D');
            notes_popup::note_file_name(name) == if ends {
                name
            } else {
                name + ".md"@
            }
        }),
{
}

/// The prompt that `r` opens is for the note under the cursor, and holds its name.
/// With no note there is none.
pub proof fn law_rename_is_for_the_selected_note(v: AppView)
    requires
        browsing(v),
        0 <= v.popup.cursor <= usize::MAX,
    ensures
        v.popup.cursor < v.popup.files.len() ==> {
            let r = in_popup(v, list::typed('r'));
            let file = v.popup.files[v.popup.cursor];
            &&& list::only_becomes(
                r,
                AppView {
                    popup: PopupView {
                        prompt: r.app.popup.prompt,
                        prompt_kind: r.app.popup.prompt_kind,
                        ..v.popup
                    },
                    ..v
                },
            )
            &&& r.app.popup.prompt_kind matches Some(NotePromptKind::Rename { index }) && index
                == v.popup.cursor && r.app.popup.files[index as int] == file
            &&& path::path_name(file) matches Some(name) ==> r.app.popup.prompt == Some(name)
        },
        v.popup.files.len() == 0 ==> list::only_becomes(in_popup(v, list::typed('r')), v),
{
    reveal(AppView::notes_list_keyed);
}

/// Renaming renames the note that was selected when the prompt was opened, in its
/// own folder, to the name that was typed, once no file of that name is there; and
/// then the folder is listed again.
pub proof fn law_rename_moves_the_selected_note(v: AppView, folder: FolderView, typed: Seq<char>)
    requires
        browsing(v),
        0 <= v.popup.cursor < v.popup.files.len(),
        v.popup.cursor <= usize::MAX,
        v.popup.folder == Some(folder),
        text::trimmed(typed).len() > 0,
        !path::same_path(
            path::joined_path(folder.dir, notes_popup::note_file_name(text::trimmed(typed))),
            v.popup.files[v.popup.cursor],
        ),
    ensures
        ({
            let from = v.popup.files[v.popup.cursor];
            let to = path::joined_path(
                folder.dir,
                notes_popup::note_file_name(text::trimmed(typed)),
            );
            let open = in_popup(v, list::typed('r')).app;
            let named = AppView { popup: PopupView { prompt: Some(typed), ..open.popup }, ..open };
            let asked = in_popup(named, list::alone(KeyCode::Enter));
            let free = asked.app.resumed(ReplyView::Found(false));
            let moved = free.app.resumed(ReplyView::Done(Ok(())));
            &&& asks_for(asked.requests, Io::Exists { path: to })
            &&& free.io == Some(Io::<Seq<char>>::RenameFile { from, to })
            &&& moved.io == Some(Io::<Seq<char>>::ListFiles { dir: folder.dir })
        }),
{
    reveal(AppView::notes_list_keyed);
    reveal(AppView::notes_prompt_keyed);
}

/// Once a renamed note is listed again it is under the cursor, and the prompt is
/// closed.
pub proof fn law_renamed_note_is_selected(
    v: AppView,
    dir: Seq<char>,
    to: Seq<char>,
    names: Seq<Seq<char>>,
)
    requires
        v.pending == (PendingView::RenameList { dir, to }),
        exists|i: int|
            0 <= i < note::note_paths(dir, names).len() && #[trigger] note::note_paths(dir, names)[i]
                == to,
    ensures
        ({
            let after = v.resumed(ReplyView::Names(names)).app;
            &&& after.popup.files == note::note_paths(dir, names)
            &&& 0 <= after.popup.cursor < after.popup.files.len()
            &&& path::same_path(after.popup.files[after.popup.cursor], to)
            &&& after.popup.prompt is None
            &&& after.popup.prompt_kind is None
        }),
{
    lemma_position(note::note_paths(dir, names), to);
}

proof fn lemma_position(files: Seq<Seq<char>>, to: Seq<char>)
    ensures
        match crate::app::notes_flow::position_of(files, to) {
            Some(i) => 0 <= i < files.len() && path::same_path(files[i], to),
            None => forall|i: int|
                0 <= i < files.len() ==> !path::same_path(#[trigger] files[i], to),
        },
        (exists|i: int| 0 <= i < files.len() && #[trigger] files[i] == to)
            ==> crate::app::notes_flow::position_of(files, to) is Some,
    decreases files.len(),
{
    if files.len() > 0 {
        let d = files.drop_last();
        lemma_position(d, to);
        assert forall|i: int| 0 <= i < d.len() implies files[i] == d[i] by {}
        if crate::app::notes_flow::position_of(files, to) is None {
            assert forall|i: int| 0 <= i < files.len() implies !path::same_path(
                #[trigger] files[i],
                to,
            ) by {
                if i < d.len() {
                    assert(!path::same_path(d[i], to));
                }
            }
        }
    }
}

/// A new note is written into the task's folder, which is made first, under the
/// name that was typed, from the template of the task under the cursor.
pub proof fn law_new_notes_are_written(
    v: AppView,
    folder: FolderView,
    task: Task,
    typed: Seq<char>,
    why: Seq<char>,
)
    requires
        browsing(v),
        v.view == Screen::List,
        v.popup.folder == Some(folder),
        v.cur_task() == Some(task),
        text::trimmed(typed).len() > 0,
    ensures
        ({
            let open = in_popup(v, list::typed('n')).app;
            let named = AppView { popup: PopupView { prompt: Some(typed), ..open.popup }, ..open };
            let asked = in_popup(named, list::alone(KeyCode::Enter));
            let made = asked.app.resumed(ReplyView::Done(Ok(())));
            let failed = asked.app.resumed(ReplyView::Done(Err(why)));
            &&& asks_for(asked.requests, Io::MakeDir { dir: folder.dir })
            &&& made.io == Some(
                Io::WriteFile {
                    path: path::joined_path(
                        folder.dir,
                        notes_popup::note_file_name(text::trimmed(typed)),
                    ),
                    content: note::template(task),
                },
            )
            &&& failed.io is None
            &&& failed.app.flash == Some("note mkdir failed: "@ + why)
            &&& failed.app.popup.prompt is None
        }),
{
    reveal(AppView::notes_list_keyed);
    reveal(AppView::notes_prompt_keyed);
}

/// With its first note a task's line gets the link of the folder, at the place in
/// the list that the popup was opened for; a further note changes no line.
pub proof fn law_first_notes_link_their_task(v: AppView, folder: FolderView, abs: usize)
    requires
        v.pending == (PendingView::CreateWrite { folder }),
        v.popup.task_abs == Some(abs),
    ensures
        !folder.existed_in_task ==> {
            let written = v.resumed(ReplyView::Done(Ok(())));
            let linked = written.app.resumed(ReplyView::Edited(LineEdit::Saved));
            &&& written.io == Some(
                Io::AppendToLine { abs, token: "notes:"@ + folder.id + "/"@ },
            )
            &&& linked.io == Some(Io::<Seq<char>>::ListFiles { dir: folder.dir })
            &&& linked.app.popup.folder == Some(FolderView { existed_in_task: true, ..folder })
        },
        folder.existed_in_task ==> v.resumed(ReplyView::Done(Ok(()))).io == Some(
            Io::<Seq<char>>::ListFiles { dir: folder.dir },
        ),
{
    crate::laws::note::law_links_are_spelled_so(folder.id);
}

/// Deleting asks first, for the note under the cursor. Only `y` or Enter deletes,
/// exactly that note, and then the folder is listed again; `n` or Esc deletes
/// nothing.
pub proof fn law_deleting_deletes_the_selected_note(v: AppView, folder: FolderView)
    requires
        browsing(v),
        0 <= v.popup.cursor < v.popup.files.len(),
        v.popup.cursor <= usize::MAX,
        v.popup.folder == Some(folder),
    ensures
        ({
            let asked = in_popup(v, list::typed('d'));
            let yes = in_popup(asked.app, list::typed('y'));
            let enter = in_popup(asked.app, list::alone(KeyCode::Enter));
            let gone = yes.app.resumed(ReplyView::Done(Ok(())));
            &&& asked.requests.len() == 0
            &&& asked.app == (AppView {
                popup: PopupView { pending_delete: Some(v.popup.cursor as usize), ..v.popup },
                ..v
            })
            &&& asks_for(yes.requests, Io::RemoveFile { path: v.popup.files[v.popup.cursor] })
            &&& asks_for(enter.requests, Io::RemoveFile { path: v.popup.files[v.popup.cursor] })
            &&& gone.io == Some(Io::<Seq<char>>::ListFiles { dir: folder.dir })
            &&& list::only_becomes(in_popup(asked.app, list::typed('n')), v)
            &&& list::only_becomes(in_popup(asked.app, list::alone(KeyCode::Esc)), v)
        }),
{
    reveal(AppView::notes_list_keyed);
    reveal(AppView::notes_delete_keyed);
    let asked = in_popup(v, list::typed('d'));
    assert(asked.app.popup.cancel_delete_confirm() == v.popup);
}

/// While a deletion waits to be confirmed no other key does anything.
pub proof fn law_stray_keys_delete_nothing(v: AppView, c: char)
    requires
        !v.pinned_focus,
        v.mode == Mode::Notes,
        v.popup.editor is None,
        v.popup.prompt is None,
        v.popup.pending_delete is Some,
        c != 'y',
        c != 'n',
    ensures
        list::only_becomes(in_popup(v, list::typed(c)), v),
{
    reveal(AppView::notes_delete_keyed);
}

/// Once a folder was listed again after a note left it, the popup holds its notes,
/// the cursor is on one of them where there is any, and nothing waits.
pub proof fn law_shrunken_lists(v: AppView, dir: Seq<char>, names: Seq<Seq<char>>)
    requires
        0 <= v.popup.cursor,
        v.pending == (PendingView::DeleteList { dir }) || v.pending == (PendingView::UnlinkList {
            dir,
        }),
    ensures
        ({
            let after = v.resumed(ReplyView::Names(names)).app;
            let files = note::note_paths(dir, names);
            &&& after.popup.files == files
            &&& after.pending is Nothing
            &&& files.len() > 0 ==> after.popup.cursor == if v.popup.cursor < files.len() {
                v.popup.cursor
            } else {
                files.len() - 1
            }
            &&& files.len() == 0 ==> after.popup.cursor == 0
            &&& v.pending is DeleteList ==> after.popup.pending_delete is None
        }),
{
}

/// Unlinking moves the note under the cursor out of its folder into the directory
/// of unlinked notes: under its own name where that is free, else with the task's
/// id before it.
pub proof fn law_unlinking_moves_the_selected_note(v: AppView, folder: FolderView, name: Seq<char>)
    requires
        browsing(v),
        0 <= v.popup.cursor < v.popup.files.len(),
        v.popup.folder == Some(folder),
        path::path_name(v.popup.files[v.popup.cursor]) == Some(name),
    ensures
        ({
            let from = v.popup.files[v.popup.cursor];
            let dir = path::joined_path(v.notes_dir, "unlinked"@);
            let own = path::joined_path(dir, name);
            let other = path::joined_path(dir, folder.id + "-"@ + name);
            let asked = in_popup(v, list::typed('u'));
            let free = asked.app.resumed(ReplyView::Found(false));
            let taken = asked.app.resumed(ReplyView::Found(true));
            let moved = free.app.resumed(ReplyView::Done(Ok(())));
            &&& asks_for(asked.requests, Io::Exists { path: own })
            &&& free.io == Some(Io::<Seq<char>>::MoveFile { from, to: own, dir })
            &&& taken.io == Some(Io::<Seq<char>>::MoveFile { from, to: other, dir })
            &&& moved.io == Some(Io::<Seq<char>>::ListFiles { dir: folder.dir })
        }),
{
    reveal(AppView::notes_list_keyed);
    reveal_strlit("-");
    assert(note::NOTES_UNLINKED_SUBDIR@ == "unlinked"@);
    assert(folder.id.push('-') + name =~= folder.id + "-"@ + name);
}

/// `e` and `i` read the note under the cursor into the editor, in Normal and in
/// Insert sub-mode; a file that cannot be read opens empty.
pub proof fn law_editing_opens_the_selected_note(v: AppView, content: Seq<char>)
    requires
        browsing(v),
        0 <= v.popup.cursor < v.popup.files.len(),
    ensures
        ({
            let path = v.popup.files[v.popup.cursor];
            let e = in_popup(v, list::typed('e'));
            let i = in_popup(v, list::typed('i'));
            &&& asks_for(e.requests, Io::ReadFile { path })
            &&& asks_for(i.requests, Io::ReadFile { path })
            &&& e.app.resumed(ReplyView::Content(Some(content))).app.popup.editor == Some(
                EditorView::loaded(path, content, NoteEditorMode::Normal),
            )
            &&& i.app.resumed(ReplyView::Content(Some(content))).app.popup.editor == Some(
                EditorView::loaded(path, content, NoteEditorMode::Insert),
            )
            &&& e.app.resumed(ReplyView::Content(None)).app.popup.editor == Some(
                EditorView::loaded(path, Seq::empty(), NoteEditorMode::Normal),
            )
        }),
{
    reveal(AppView::notes_list_keyed);
}

/// The popup opens on the notes of the task's folder with the first one selected,
/// nothing asked for and nothing being edited.
pub proof fn law_popup_opens_on_the_folder(
    v: AppView,
    folder: FolderView,
    task_abs: Option<usize>,
    names: Seq<Seq<char>>,
)
    requires
        v.pending == (PendingView::OpenList { folder, task_abs }),
    ensures
        ({
            let after = v.resumed(ReplyView::Names(names));
            &&& after.io is None
            &&& after.app == (AppView {
                mode: Mode::Notes,
                popup: after.app.popup,
                pending: after.app.pending,
                ..v
            })
            &&& after.app.pending is Nothing
            &&& after.app.popup == (PopupView {
                files: note::note_paths(folder.dir, names),
                cursor: 0,
                folder: Some(folder),
                task_abs,
                prompt: None,
                prompt_kind: None,
                pending_delete: None,
                editor: None,
            })
        }),
{
}

/// A task with a folder of its own, and one with no legacy note, has that folder
/// listed and nothing moved.
pub proof fn law_opening_without_a_legacy_note(v: AppView, folder: FolderView, task: Task)
    requires
        v.cur_task() == Some(task),
        folder.existed_in_task || note::legacy_rel(task.raw@) is None || v.view == Screen::Archive,
    ensures
        v.open_notes_in(folder).io == Some(Io::<Seq<char>>::ListFiles { dir: folder.dir }),
        v.open_notes_in(folder).app.pending == (PendingView::OpenList {
            folder,
            task_abs: if v.view == Screen::List {
                Some(v.visible[v.cursor])
            } else {
                None
            },
        }),
{
}

/// A legacy note is moved from the notes directory into the task's new folder under
/// its own name; then the task's line is changed in one step; and only where that
/// was saved does the folder count as linked.
pub proof fn law_legacy_notes_are_moved_and_linked(
    v: AppView,
    folder: FolderView,
    task: Task,
    rel: Seq<char>,
    name: Seq<char>,
    why: Seq<char>,
)
    requires
        v.view == Screen::List,
        v.cur_task() == Some(task),
        !folder.existed_in_task,
        note::legacy_rel(task.raw@) == Some(rel),
        path::path_name(path::joined_path(v.notes_dir, rel)) == Some(name),
    ensures
        ({
            let abs = v.visible[v.cursor];
            let first = v.open_notes_in(folder);
            let moved = first.app.resumed(ReplyView::Done(Ok(())));
            let saved = moved.app.resumed(ReplyView::Edited(LineEdit::Saved));
            let failed = moved.app.resumed(ReplyView::Edited(LineEdit::Failed(why)));
            let stuck = first.app.resumed(ReplyView::Done(Err(why)));
            &&& first.io == Some(
                Io::<Seq<char>>::MoveFile {
                    from: path::joined_path(v.notes_dir, rel),
                    to: path::joined_path(folder.dir, name),
                    dir: folder.dir,
                },
            )
            &&& moved.io == Some(
                Io::EditLine { abs, raw: note::migrated_line(task.raw@, rel, folder.id) },
            )
            &&& saved.io == Some(Io::<Seq<char>>::ListFiles { dir: folder.dir })
            &&& saved.app.pending == (PendingView::OpenList {
                folder: FolderView { existed_in_task: true, ..folder },
                task_abs: Some(abs),
            })
            &&& failed.app.pending == (PendingView::OpenList { folder, task_abs: Some(abs) })
            &&& failed.app.flash == Some("note migration failed: "@ + why)
            &&& stuck.io == Some(Io::<Seq<char>>::ListFiles { dir: folder.dir })
            &&& stuck.app.pending == (PendingView::OpenList { folder, task_abs: Some(abs) })
        }),
{
}

/// The task that a command is for is the one under the cursor: of the list while
/// that is on screen, of the archive otherwise.
pub proof fn law_the_task_under_the_cursor(v: AppView)
    requires
        0 <= v.cursor < v.visible.len(),
    ensures
        ({
            let abs = v.visible[v.cursor] as int;
            &&& v.view == Screen::List && abs < v.tasks.len() ==> v.cur_task() == Some(v.tasks[abs])
            &&& v.view == Screen::Archive && abs < v.archive.len() ==> v.cur_task() == Some(
                v.archive[abs],
            )
        }),
{
}

/// Each failure of the host's work on notes is said, and touches no further file.
pub proof fn law_failures_are_said(v: AppView, why: Seq<char>)
    ensures
        ({
            let r = v.resumed(ReplyView::Done(Err(why)));
            &&& v.pending is CreateDir ==> r.io is None && r.app.flash == Some(
                "note mkdir failed: "@ + why,
            ) && r.app.popup.prompt is None
            &&& v.pending is CreateWrite ==> r.io is None && r.app.flash == Some(
                "note write failed: "@ + why,
            ) && r.app.popup.prompt is None
            &&& v.pending is RenameMove ==> r.io is None && r.app.flash == Some(
                "note rename failed: "@ + why,
            ) && r.app.popup.prompt is None
            &&& v.pending is DeleteFile ==> r.io is None && r.app.flash == Some(
                "note delete failed: "@ + why,
            ) && r.app.popup.pending_delete is None
            &&& v.pending is UnlinkMove ==> r.io is None && r.app.flash == Some(
                "note unlink failed: "@ + why,
            )
            &&& v.pending is CreateDir || v.pending is CreateWrite || v.pending is RenameMove
                || v.pending is DeleteFile || v.pending is UnlinkMove ==> r.app.popup.files
                == v.popup.files
        }),
{
}

/// A new note's folder is listed again when it was written, and the prompt closes.
pub proof fn law_created_notes_are_listed(v: AppView, dir: Seq<char>, names: Seq<Seq<char>>)
    requires
        v.pending == (PendingView::CreateList { dir }),
    ensures
        ({
            let after = v.resumed(ReplyView::Names(names)).app;
            after.popup == (PopupView {
                files: note::note_paths(dir, names),
                prompt: None,
                prompt_kind: None,
                ..v.popup
            })
        }),
{
}

/// The note's own name, of a path in a folder, is what stands behind the last
/// slash.
pub proof fn law_names_stand_behind_the_last_slash(dir: Seq<char>, name: Seq<char>)
    requires
        name.len() > 0,
        name != "."@,
        name != ".."@,
        !name.contains('/'),
    ensures
        path::path_name(dir + "/"@ + name) == Some(name),
{
    reveal_strlit("/");
    assert(dir + "/"@ + name =~= dir.push('/') + name);
    text::lemma_pieces_concat(dir, '/', name);
    text::lemma_pieces_single(name, '/');
    let all = text::pieces(dir.push('/') + name, '/');
    assert(all.last() == name);
}

/// Files of different names in one folder are different, and a file is the same as
/// itself.
pub proof fn law_different_names_are_different_files(
    dir: Seq<char>,
    a: Seq<char>,
    b: Seq<char>,
)
    requires
        a.len() > 0 && a != "."@ && !a.contains('/'),
        b.len() > 0 && b != "."@ && !b.contains('/'),
    ensures
        path::same_path(dir + "/"@ + a, dir + "/"@ + b) <==> a == b,
        path::same_path(dir, dir),
{
    reveal_strlit("/");
    assert(dir + "/"@ + a =~= dir.push('/') + a);
    assert(dir + "/"@ + b =~= dir.push('/') + b);
    text::lemma_pieces_concat(dir, '/', a);
    text::lemma_pieces_concat(dir, '/', b);
    text::lemma_pieces_single(a, '/');
    text::lemma_pieces_single(b, '/');
    let d = text::pieces(dir, '/');
    let p = d + seq![a];
    let q = d + seq![b];
    assert(p.drop_last() =~= d && q.drop_last() =~= d);
    assert(path::steps(p) == path::steps(d).push(a));
    assert(path::steps(q) == path::steps(d).push(b));
    if path::steps(p) == path::steps(q) {
        assert(path::steps(p).last() == a && path::steps(q).last() == b);
    }
}

/// A name that is taken is refused by name, and no file is touched.
pub proof fn law_taken_names_are_refused(
    v: AppView,
    dir: Seq<char>,
    from: Seq<char>,
    to: Seq<char>,
    name: Seq<char>,
)
    requires
        v.pending == (PendingView::RenameCheck { dir, from, to, name }),
    ensures
        ({
            let r = v.resumed(ReplyView::Found(true));
            &&& r.io is None
            &&& r.app.flash == Some("a note named "@ + name + " already exists"@)
            &&& r.app.popup == v.popup
            &&& r.app.pending is Nothing
        }),
{
}

/// What the popup's editor is told to do it does to the note that is open in it, and
/// to nothing else; with none open nothing happens.
pub proof fn law_edits_go_to_the_open_note(v: AppView, edit: spec_fn(EditorView) -> EditorView)
    ensures
        v.popup.editor matches Some(e) ==> v.edit_note(edit) == (AppView {
            popup: PopupView { editor: Some(edit(e)), ..v.popup },
            ..v
        }),
        v.popup.editor is None ==> v.edit_note(edit) == v,
{
}

/// An archived task gets no new note: that is said, and nothing is written.
pub proof fn law_archived_tasks_get_no_notes(v: AppView, typed: Seq<char>)
    requires
        v.view == Screen::Archive,
        v.mode == Mode::Notes,
        !v.pinned_focus,
        v.popup.editor is None,
        v.popup.prompt == Some(typed),
        v.popup.prompt_kind == Some(NotePromptKind::Create),
        text::trimmed(typed).len() > 0,
    ensures
        list::only_becomes(
            in_popup(v, list::alone(KeyCode::Enter)),
            AppView {
                flash: Some("archived task has no note"@),
                popup: PopupView { prompt: None, prompt_kind: None, ..v.popup },
                ..v
            },
        ),
{
    reveal(AppView::notes_prompt_keyed);
}

/// Where the link could not be put on the task's line the note stays: the folder is
/// listed as it would be, but does not count as linked. A failure is said.
pub proof fn law_links_that_were_not_saved(
    v: AppView,
    folder: FolderView,
    edit: LineEdit<Seq<char>>,
)
    requires
        v.pending == (PendingView::CreateLink { folder }),
        !(edit is Saved),
    ensures
        ({
            let r = v.resumed(ReplyView::Edited(edit));
            &&& r.io == Some(Io::<Seq<char>>::ListFiles { dir: folder.dir })
            &&& r.app == (AppView {
                pending: PendingView::CreateList { dir: folder.dir },
                flash: match edit {
                    LineEdit::Failed(why) => Some("note link failed: "@ + why),
                    _ => v.flash,
                },
                ..v
            })
        }),
{
}

/// A step that worked and asks for another one changes nothing on screen.
pub proof fn law_steps_between_change_nothing(v: AppView)
    ensures
        ({
            let r = v.resumed(ReplyView::Done(Ok(())));
            v.pending is MigrateMove || v.pending is MigrateSkip || v.pending is CreateDir
                || v.pending is CreateWrite || v.pending is RenameMove || v.pending is DeleteFile
                || v.pending is UnlinkMove ==> r.io is Some && r.app == (AppView {
                pending: r.app.pending,
                ..v
            })
        }),
        ({
            let r = v.resumed(ReplyView::Found(false));
            v.pending is RenameCheck || v.pending is UnlinkCheck ==> r.io is Some && r.app == (
            AppView { pending: r.app.pending, ..v })
        }),
{
}

/// An answer that nothing waits for changes nothing.
pub proof fn law_stray_answers_change_nothing(v: AppView, reply: ReplyView)
    requires
        v.pending is Nothing,
    ensures
        v.resumed(reply).io is None,
        v.resumed(reply).app == v,
{
    assert((AppView { pending: v.pending, ..v }) == v);
}

} // verus!
