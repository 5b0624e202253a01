//! Where the cursor of a note's editor goes, what typing does to its lines, and
//! what its keys and commands come to.
use crate::app::io::{EditorTarget, Io, PendingView, SaveKind};
use crate::app::note_editor;
use crate::app::note_editor::{CommandResultView, CommandView, EditorView, NoteEditorMode};
use crate::app::types::Mode;
use crate::app::AppView;
use crate::dispatch::notes::SignalView;
use crate::dispatch::request::RequestView;
use crate::keys::{KeyCode, KeyEvent};
use crate::laws::list;
use crate::text;
use vstd::prelude::*;

verus! {

/// The smaller of two numbers.
pub open spec fn smaller(a: int, b: int) -> int {
    if a <= b {
        a
    } else {
        b
    }
}

/// Down and up go to the next line below and above, where there is one, and keep
/// the column as far as that line reaches. Nothing else changes.
pub proof fn law_lines_are_stepped_one_by_one(e: EditorView)
    requires
        e.wf(),
    ensures
        e.line + 1 < e.lines.len() ==> e.move_down() == (EditorView {
            line: e.line + 1,
            col: smaller(e.col, e.lines[e.line + 1].len() as int),
            ..e
        }),
        e.line + 1 == e.lines.len() ==> e.move_down() == e,
        e.line > 0 ==> e.move_up() == (EditorView {
            line: e.line - 1,
            col: smaller(e.col, e.lines[e.line - 1].len() as int),
            ..e
        }),
        e.line == 0 ==> e.move_up() == e,
{
}

/// Down and then up is back on the line it began on, and on the column too where
/// the line below is as long.
pub proof fn law_up_undoes_down(e: EditorView)
    requires
        e.wf(),
        e.line + 1 < e.lines.len(),
    ensures
        e.move_down().move_up().line == e.line,
        e.lines[e.line + 1].len() >= e.col ==> e.move_down().move_up() == e,
{
}

/// Left and right go one character, and stop at the ends of the line.
pub proof fn law_columns_are_stepped_one_by_one(e: EditorView)
    requires
        e.wf(),
    ensures
        e.col > 0 ==> e.move_left() == (EditorView { col: e.col - 1, ..e }),
        e.col == 0 ==> e.move_left() == e,
        e.col < e.lines[e.line].len() ==> e.move_right() == (EditorView { col: e.col + 1, ..e }),
        e.col == e.lines[e.line].len() ==> e.move_right() == e,
{
}

/// A typed character stands where the cursor was, between what stood before it
/// and what stood behind it; the cursor is behind it, the buffer is dirty, and
/// every other line is as it was.
pub proof fn law_typed_characters_stand_at_the_cursor(e: EditorView, c: char)
    requires
        e.wf(),
    ensures
        ({
            let r = e.insert_char(c);
            let line = e.lines[e.line];
            &&& r == (EditorView { lines: r.lines, col: e.col + 1, dirty: true, ..e })
            &&& r.lines.len() == e.lines.len()
            &&& r.lines[e.line] == line.take(e.col) + seq![c] + line.skip(e.col)
            &&& forall|i: int| 0 <= i < e.lines.len() && i != e.line ==> r.lines[i] == e.lines[i]
        }),
{
    let line = e.lines[e.line];
    assert(line.insert(e.col, c) =~= line.take(e.col) + seq![c] + line.skip(e.col));
}

/// Splitting leaves what stood before the cursor on its line and puts what stood
/// behind it on a line of its own below, with the cursor at its start. The lines
/// above stay, and those below follow.
pub proof fn law_split_lines_follow_each_other(e: EditorView)
    requires
        e.wf(),
    ensures
        ({
            let r = e.split_line();
            let line = e.lines[e.line];
            &&& r == (EditorView { lines: r.lines, line: e.line + 1, col: 0, dirty: true, ..e })
            &&& r.lines.len() == e.lines.len() + 1
            &&& r.lines[e.line] == line.take(e.col)
            &&& r.lines[e.line + 1] == line.skip(e.col)
            &&& forall|i: int| 0 <= i < e.line ==> r.lines[i] == e.lines[i]
            &&& forall|i: int| e.line < i < e.lines.len() ==> #[trigger] r.lines[i + 1] == e.lines[i]
        }),
{
}

/// Backspace erases the one character before the cursor. At the start of a line
/// the line is put behind the one above it, with the cursor where they meet. At
/// the start of the note nothing happens.
pub proof fn law_backspace_erases_before_the_cursor(e: EditorView)
    requires
        e.wf(),
    ensures
        e.col > 0 ==> {
            let r = e.backspace();
            let line = e.lines[e.line];
            &&& r == (EditorView { lines: r.lines, col: e.col - 1, dirty: true, ..e })
            &&& r.lines.len() == e.lines.len()
            &&& r.lines[e.line] == line.take(e.col - 1) + line.skip(e.col)
            &&& forall|i: int| 0 <= i < e.lines.len() && i != e.line ==> r.lines[i] == e.lines[i]
        },
        e.col == 0 && e.line > 0 ==> {
            let r = e.backspace();
            &&& r == (EditorView {
                lines: r.lines,
                line: e.line - 1,
                col: e.lines[e.line - 1].len() as int,
                dirty: true,
                ..e
            })
            &&& r.lines.len() == e.lines.len() - 1
            &&& r.lines[e.line - 1] == e.lines[e.line - 1] + e.lines[e.line]
            &&& forall|i: int| 0 <= i < e.line - 1 ==> r.lines[i] == e.lines[i]
            &&& forall|i: int| e.line < i < e.lines.len() ==> #[trigger] r.lines[i - 1] == e.lines[i]
        },
        e.col == 0 && e.line == 0 ==> e.backspace() == e,
{
    let line = e.lines[e.line];
    if e.col > 0 {
        assert(line.remove(e.col - 1) =~= line.take(e.col - 1) + line.skip(e.col));
    }
}

/// A note is written line by line, each with a newline behind it and nothing more.
pub proof fn law_every_line_ends_in_a_newline(lines: Seq<Seq<char>>, line: Seq<char>)
    ensures
        note_editor::lines_content(seq![line]) == line + "\n"@,
        lines.len() > 0 ==> note_editor::lines_content(lines.push(line))
            == note_editor::lines_content(lines) + line + "\n"@,
{
    reveal_strlit("\n");
    assert(note_editor::lines_content(seq![line]) =~= line + "\n"@);
    if lines.len() > 0 {
        assert(lines.push(line).drop_last() =~= lines);
        assert(note_editor::lines_content(lines.push(line)) =~= note_editor::lines_content(lines)
            + line + "\n"@);
    }
}

/// A note opens at its start, clean, in the sub-mode it was opened in, under its
/// own path. An empty file opens as one empty line.
pub proof fn law_notes_open_at_their_start(
    path: Seq<char>,
    content: Seq<char>,
    mode: NoteEditorMode,
)
    ensures
        ({
            let e = EditorView::loaded(path, content, mode);
            &&& e == (EditorView {
                path,
                lines: e.lines,
                line: 0,
                col: 0,
                mode,
                dirty: false,
                prompt: None,
            })
            &&& content.len() == 0 ==> e.lines == seq![Seq::<char>::empty()]
            &&& !content.contains('\n') ==> e.lines == seq![content]
        }),
{
    if !content.contains('\n') {
        text::lemma_pieces_single(content, '\n');
    }
    if content.len() == 0 {
        assert(content =~= Seq::empty());
        assert(!content.contains('\n'));
    }
}

/// What a key does in the editor's Normal sub-mode, where no command is being
/// typed.
pub proof fn law_keys_of_normal_mode(e: EditorView)
    requires
        e.mode == NoteEditorMode::Normal,
        e.prompt is None,
    ensures
        forall|key: KeyEvent|
            #![trigger e.keyed(key)]
            !(key.modifiers.control && key.code == KeyCode::Char('s')) ==> {
                let r = e.keyed(key);
                if key.code == KeyCode::Esc {
                    r.editor == e && r.signal == SignalView::Esc
                } else {
                    &&& r.signal == SignalView::Handled
                    &&& r.editor == if key.code == KeyCode::Char('j') || key.code == KeyCode::Down {
                        e.move_down()
                    } else if key.code == KeyCode::Char('k') || key.code == KeyCode::Up {
                        e.move_up()
                    } else if key.code == KeyCode::Char('h') || key.code == KeyCode::Left {
                        e.move_left()
                    } else if key.code == KeyCode::Char('l') || key.code == KeyCode::Right {
                        e.move_right()
                    } else if key.code == KeyCode::Char('i') {
                        EditorView { mode: NoteEditorMode::Insert, ..e }
                    } else if key.code == KeyCode::Char(':') {
                        EditorView { prompt: Some(Seq::empty()), ..e }
                    } else {
                        e
                    }
                }
            },
{
}

/// What a key does in the editor's Insert sub-mode: every character is typed, `j`
/// and `:` among them.
pub proof fn law_keys_of_insert_mode(e: EditorView)
    requires
        e.mode == NoteEditorMode::Insert,
    ensures
        forall|key: KeyEvent|
            #![trigger e.keyed(key)]
            !(key.modifiers.control && key.code == KeyCode::Char('s')) ==> {
                let r = e.keyed(key);
                &&& r.signal == SignalView::Handled
                &&& match key.code {
                    KeyCode::Char(c) => r.editor == e.insert_char(c),
                    KeyCode::Enter => r.editor == e.split_line(),
                    KeyCode::Backspace => r.editor == e.backspace(),
                    KeyCode::Esc => r.editor == (EditorView { mode: NoteEditorMode::Normal, ..e }),
                    _ => r.editor == e,
                }
            },
{
}

/// While a command is being typed characters go into it and nowhere else,
/// Backspace erases the last of them, Esc drops it and Enter runs it.
pub proof fn law_keys_of_the_command_prompt(e: EditorView, typed: Seq<char>)
    requires
        e.mode == NoteEditorMode::Normal,
        e.prompt == Some(typed),
    ensures
        forall|c: char|
            #![trigger list::typed(c)]
            e.keyed(list::typed(c)).editor == (EditorView { prompt: Some(typed + seq![c]), ..e })
                && e.keyed(list::typed(c)).signal == SignalView::Handled,
        e.keyed(list::alone(KeyCode::Backspace)).editor == (EditorView {
            prompt: Some(
                if typed.len() > 0 {
                    typed.take(typed.len() - 1)
                } else {
                    typed
                },
            ),
            ..e
        }),
        e.keyed(list::alone(KeyCode::Esc)).editor == (EditorView { prompt: None, ..e }),
        e.keyed(list::alone(KeyCode::Esc)).signal == SignalView::Handled,
        e.keyed(list::alone(KeyCode::Enter)).editor == (EditorView { prompt: None, ..e }),
{
    assert forall|c: char| #![trigger list::typed(c)] e.keyed(list::typed(c)).editor == (
    EditorView { prompt: Some(typed + seq![c]), ..e }) && e.keyed(list::typed(c)).signal
        == SignalView::Handled by {
        assert(typed.push(c) =~= typed + seq![c]);
    }
    assert(typed.len() > 0 ==> typed.drop_last() =~= typed.take(typed.len() - 1));
}

/// What the `:`-commands come to, blanks around them aside: `w` writes, `q` closes
/// without writing, `wq` and `x` write and then close, and anything else is
/// refused by name.
pub proof fn law_commands(input: Seq<char>)
    ensures
        ({
            let cmd = text::trimmed(input);
            note_editor::command_of(input) == if cmd == ""@ {
                CommandView::Done(CommandResultView::Error("no command"@))
            } else if cmd == "w"@ {
                CommandView::Save { close: false }
            } else if cmd == "wq"@ || cmd == "x"@ {
                CommandView::Save { close: true }
            } else if cmd == "q"@ {
                CommandView::Done(CommandResultView::CloseRequested)
            } else {
                CommandView::Done(CommandResultView::Error("unknown command: "@ + cmd))
            }
        }),
{
    reveal_strlit("");
    reveal_strlit("w");
    reveal_strlit("q");
    reveal_strlit("wq");
    reveal_strlit("x");
    assert("w"@[0] == 'w' && "q"@[0] == 'q' && "x"@[0] == 'x' && "wq"@[0] == 'w');
    let cmd = text::trimmed(input);
    assert(cmd.len() == 0 ==> cmd =~= ""@);
}

/// A command run in the popup's editor does what it says: `:w`, `:wq` and `:x`
/// have the note's lines written to the note's path, `:q` closes the editor
/// without writing, and what is no command is said to be none.
pub proof fn law_commands_run_in_the_popup(v: AppView, e: EditorView, input: Seq<char>)
    requires
        !v.pinned_focus,
        v.mode == Mode::Notes,
        v.popup.editor == Some(e),
        e.mode == NoteEditorMode::Normal,
        e.prompt == Some(input),
    ensures
        ({
            let r = list::pressed(v, list::alone(KeyCode::Enter));
            let cmd = text::trimmed(input);
            let closed = EditorView { prompt: None, ..e };
            if cmd == "w"@ || cmd == "wq"@ || cmd == "x"@ {
                &&& r.requests == seq![
                    RequestView::Io(
                        Io::WriteFile { path: e.path, content: note_editor::lines_content(e.lines) },
                    ),
                ]
                &&& r.app.popup.editor == Some(closed)
                &&& r.app.pending == (PendingView::SaveEditor {
                    target: EditorTarget::Popup,
                    kind: SaveKind::Command { close: cmd != "w"@ },
                })
            } else {
                &&& r.requests.len() == 0
                &&& cmd == "q"@ ==> r.app.popup.editor is None && r.app.flash == v.flash
                &&& cmd != "q"@ ==> r.app.popup.editor == Some(closed) && r.app.flash is Some
            }
        }),
{
    reveal(list::pressed);
    reveal(AppView::editor_keyed);
    law_commands(input);
    reveal_strlit("w");
    reveal_strlit("wq");
    reveal_strlit("x");
    reveal_strlit("q");
    reveal_strlit("");
    assert("w"@[0] == 'w' && "q"@[0] == 'q' && "x"@[0] == 'x' && "wq"@[0] == 'w' && "wq"@.len()
        == 2);
}

/// A note that was written is clean, and one that could not be written is as dirty
/// as it was; its text, cursor and sub-mode stay in either case.
pub proof fn law_only_a_written_note_is_clean(
    v: AppView,
    target: EditorTarget,
    written: Result<(), Seq<char>>,
    e: EditorView,
)
    requires
        v.editor(target) == Some(e),
    ensures
        v.editor_saved(target, SaveKind::Key, written).editor(target) == Some(
            EditorView { dirty: if written is Ok { false } else { e.dirty }, ..e },
        ),
        v.editor_saved(target, SaveKind::Key, written).flash == match written {
            Ok(_) => v.flash,
            Err(why) => Some("note save failed: "@ + why),
        },
{
}

} // verus!
