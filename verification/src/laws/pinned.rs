//! Which editor a key is for, how its note is written, and when it closes.
use crate::app::io::{EditorTarget, Io, PendingView, ReplyView, SaveKind};
use crate::app::note_editor;
use crate::app::note_editor::{EditorView, NoteEditorMode};
use crate::app::notes_popup::PopupView;
use crate::app::types::Mode;
use crate::app::AppView;
use crate::dispatch::notes::SignalView;
use crate::dispatch::request::{Reaction, RequestView};
use crate::keys::{KeyCode, KeyEvent};
use crate::laws::editor;
use crate::laws::list;
use crate::text;
use vstd::prelude::*;

verus! {

/// A note is to be written: its lines, to its path.
pub open spec fn writes(requests: Seq<RequestView>, e: EditorView) -> bool {
    requests == seq![
        RequestView::Io(
            Io::WriteFile { path: e.path, content: note_editor::lines_content(e.lines) },
        ),
    ]
}

/// Ctrl-S writes the note that has the keyboard, in either sub-mode and also while
/// a command is being typed, and changes nothing in the editor.
pub proof fn law_save_key(v: AppView, e: EditorView)
    ensures
        v.pinned_focus && v.pinned == Some(e) ==> {
            let r = list::pressed(v, list::with_control('s'));
            &&& writes(r.requests, e)
            &&& r.app == (AppView {
                pending: PendingView::SaveEditor {
                    target: EditorTarget::Pinned,
                    kind: SaveKind::Key,
                },
                ..v
            })
        },
        !v.pinned_focus && v.mode == Mode::Notes && v.popup.editor == Some(e) ==> {
            let r = list::pressed(v, list::with_control('s'));
            &&& writes(r.requests, e)
            &&& r.app == (AppView {
                pending: PendingView::SaveEditor {
                    target: EditorTarget::Popup,
                    kind: SaveKind::Key,
                },
                ..v
            })
        },
{
    reveal(list::pressed);
    reveal(AppView::editor_keyed);
    if v.pinned == Some(e) {
        assert((AppView { pinned: Some(e), ..v }) == v);
    }
    if v.popup.editor == Some(e) {
        assert((PopupView { editor: Some(e), ..v.popup }) == v.popup);
        assert((AppView { popup: v.popup, ..v }) == v);
    }
}

/// A character held with Control writes nothing but for `s`.
pub proof fn law_other_keys_write_nothing(e: EditorView, key: KeyEvent)
    requires
        !(key.modifiers.control && key.code == KeyCode::Char('s')),
        e.prompt is None,
    ensures
        !(e.keyed(key).signal is Save),
        !(e.keyed(key).signal is CloseRequested),
        !(e.keyed(key).signal is Failed),
{
}

/// While the pinned note has the keyboard a key is for it alone: what it does to a
/// note it does to that note, and the rest of the screen stays as it is.
pub proof fn law_keys_go_to_the_pinned_note(v: AppView, e: EditorView, key: KeyEvent)
    requires
        v.pinned_focus,
        v.pinned == Some(e),
        e.keyed(key).signal == SignalView::Handled,
        key.code != KeyCode::Char('z') && key.code != KeyCode::Char('Z') || e.mode
            == NoteEditorMode::Insert || e.prompt is Some,
    ensures
        list::pressed(v, key) == (Reaction {
            app: AppView { pinned: Some(e.keyed(key).editor), ..v },
            requests: Seq::empty(),
        }),
{
    reveal(list::pressed);
    reveal(AppView::editor_keyed);
}

/// While a note is open in the popup a key is for it alone.
pub proof fn law_keys_go_to_the_open_note(v: AppView, e: EditorView, key: KeyEvent)
    requires
        !v.pinned_focus,
        v.mode == Mode::Notes,
        v.popup.editor == Some(e),
        e.keyed(key).signal == SignalView::Handled,
        key.code != KeyCode::Char('z') && key.code != KeyCode::Char('Z') || e.mode
            == NoteEditorMode::Insert || e.prompt is Some,
    ensures
        list::pressed(v, key) == (Reaction {
            app: AppView {
                popup: PopupView { editor: Some(e.keyed(key).editor), ..v.popup },
                ..v
            },
            requests: Seq::empty(),
        }),
{
    reveal(list::pressed);
    reveal(AppView::editor_keyed);
}

/// A command run in the pinned note does what it says: `:w`, `:wq` and `:x` have it
/// written, `:q` unpins it without writing, and anything else is refused by name.
pub proof fn law_commands_run_in_the_pinned_note(v: AppView, e: EditorView, input: Seq<char>)
    requires
        v.pinned_focus,
        v.pinned == Some(e),
        e.mode == NoteEditorMode::Normal,
        e.prompt == Some(input),
    ensures
        ({
            let r = list::pressed(v, list::alone(KeyCode::Enter));
            let cmd = text::trimmed(input);
            let after = AppView { pinned: Some(EditorView { prompt: None, ..e }), ..v };
            if cmd == "w"@ || cmd == "wq"@ || cmd == "x"@ {
                &&& writes(r.requests, e)
                &&& r.app == (AppView {
                    pending: PendingView::SaveEditor {
                        target: EditorTarget::Pinned,
                        kind: SaveKind::Command { close: cmd != "w"@ },
                    },
                    ..after
                })
            } else {
                &&& r.requests.len() == 0
                &&& r.app == if cmd == "q"@ {
                    AppView { pinned: None, pinned_focus: false, ..v }
                } else if cmd == ""@ {
                    AppView { flash: Some("no command"@), ..after }
                } else {
                    AppView { flash: Some("unknown command: "@ + cmd), ..after }
                }
            }
        }),
{
    reveal(list::pressed);
    reveal(AppView::editor_keyed);
    editor::law_commands(input);
    reveal_strlit("w");
    reveal_strlit("wq");
    reveal_strlit("x");
    reveal_strlit("q");
    reveal_strlit("");
    assert("w"@[0] == 'w' && "q"@[0] == 'q' && "x"@[0] == 'x' && "wq"@[0] == 'w' && "wq"@.len()
        == 2);
}

/// What comes of a write: a note that was written is clean, and one that `:wq` or
/// `:x` had written closes. One that could not be written stays as it is, and why
/// is said. Nothing else changes, and nothing is waited for any more.
pub proof fn law_written_notes(
    v: AppView,
    e: EditorView,
    kind: SaveKind,
    written: Result<(), Seq<char>>,
)
    ensures
        v.pinned == Some(e) && v.pending == (PendingView::SaveEditor {
            target: EditorTarget::Pinned,
            kind,
        }) ==> {
            let r = v.resumed(ReplyView::Done(written));
            let at = AppView { pending: PendingView::Nothing, ..v };
            &&& r.io is None
            &&& r.app == match written {
                Ok(_) => if kind == (SaveKind::Command { close: true }) {
                    AppView { pinned: None, pinned_focus: false, ..at }
                } else {
                    AppView { pinned: Some(EditorView { dirty: false, ..e }), ..at }
                },
                Err(why) => AppView { flash: Some("note save failed: "@ + why), ..at },
            }
        },
        v.popup.editor == Some(e) && v.pending == (PendingView::SaveEditor {
            target: EditorTarget::Popup,
            kind,
        }) ==> {
            let r = v.resumed(ReplyView::Done(written));
            let at = AppView { pending: PendingView::Nothing, ..v };
            &&& r.io is None
            &&& r.app == match written {
                Ok(_) => AppView {
                    popup: PopupView {
                        editor: if kind == (SaveKind::Command { close: true }) {
                            None
                        } else {
                            Some(EditorView { dirty: false, ..e })
                        },
                        ..v.popup
                    },
                    ..at
                },
                Err(why) => AppView { flash: Some("note save failed: "@ + why), ..at },
            }
        },
{
    assert((EditorView { dirty: e.dirty, ..e }) == e);
    if v.pinned == Some(e) {
        assert((AppView { pinned: Some(e), ..v }) == v);
    }
    if v.popup.editor == Some(e) {
        assert((PopupView { editor: Some(e), ..v.popup }) == v.popup);
    }
}

/// Esc takes the popup's editor back to the list of notes, without writing.
pub proof fn law_escape_closes_the_open_note(v: AppView, e: EditorView)
    requires
        !v.pinned_focus,
        v.mode == Mode::Notes,
        v.popup.editor == Some(e),
        e.mode == NoteEditorMode::Normal,
        e.prompt is None,
    ensures
        list::pressed(v, list::alone(KeyCode::Esc)) == (Reaction {
            app: AppView { popup: PopupView { editor: None, ..v.popup }, ..v },
            requests: Seq::empty(),
        }),
{
    reveal(list::pressed);
    reveal(AppView::editor_keyed);
}

} // verus!
