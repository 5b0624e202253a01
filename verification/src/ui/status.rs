//! The status line: the mode, what the keys do, and what is on screen.
use crate::app::note_editor::{EditorView, NoteEditorMode, NoteEditorState};
use crate::app::notes_popup;
use crate::app::types::{DialogInputMode, Mode, View as Screen};
use crate::app::{App, AppView};
use crate::text;
use vstd::prelude::*;

verus! {

/// The sub-mode of an editor that may be open.
pub open spec fn sub_mode(e: Option<EditorView>) -> Option<NoteEditorMode> {
    match e {
        Some(e) => Some(e.mode),
        None => None,
    }
}

fn sub_mode_of(e: &Option<NoteEditorState>) -> (r: Option<NoteEditorMode>)
    ensures
        r == sub_mode(notes_popup::editor_view(*e)),
{
    match e {
        Some(e) => Some(e.mode()),
        None => None,
    }
}

/// The name of a mode.
pub open spec fn mode_name(
    mode: Mode,
    input: DialogInputMode,
    editor: Option<NoteEditorMode>,
) -> Seq<char> {
    match mode {
        Mode::Insert => match input {
            DialogInputMode::Normal => "NORMAL"@,
            DialogInputMode::Insert => "INSERT"@,
        },
        Mode::Notes => match editor {
            Some(NoteEditorMode::Normal) => "NORMAL"@,
            Some(NoteEditorMode::Insert) => "INSERT"@,
            None => "NOTES"@,
        },
        Mode::Normal => "NORMAL"@,
        Mode::Search => "SEARCH"@,
        Mode::Visual => "VISUAL"@,
        Mode::Help => "HELP"@,
        Mode::Settings => "SETTINGS"@,
        Mode::PromptProject => "PROJECT"@,
        Mode::PromptContext => "CONTEXT"@,
        Mode::PickProject => "PICK +PROJECT"@,
        Mode::PickContext => "PICK @CONTEXT"@,
        Mode::PromptRenameProject => "RENAME +PROJECT"@,
        Mode::PromptRenameContext => "RENAME @CONTEXT"@,
        Mode::PickSavedFilter => "PICK FILTER"@,
        Mode::PromptSaveFilter => "SAVE FILTER"@,
        Mode::CommandPalette => "COMMAND"@,
        Mode::Share => "SHARE"@,
        Mode::PickTheme => "PICK THEME"@,
        Mode::Welcome => "WELCOME"@,
    }
}

fn name_of_mode(mode: Mode, input: DialogInputMode, editor: Option<NoteEditorMode>) -> (r:
    &'static str)
    ensures
        r@ == mode_name(mode, input, editor),
{
    match mode {
        Mode::Insert => match input {
            DialogInputMode::Normal => "NORMAL",
            DialogInputMode::Insert => "INSERT",
        },
        Mode::Notes => match editor {
            Some(NoteEditorMode::Normal) => "NORMAL",
            Some(NoteEditorMode::Insert) => "INSERT",
            None => "NOTES",
        },
        Mode::Normal => "NORMAL",
        Mode::Search => "SEARCH",
        Mode::Visual => "VISUAL",
        Mode::Help => "HELP",
        Mode::Settings => "SETTINGS",
        Mode::PromptProject => "PROJECT",
        Mode::PromptContext => "CONTEXT",
        Mode::PickProject => "PICK +PROJECT",
        Mode::PickContext => "PICK @CONTEXT",
        Mode::PromptRenameProject => "RENAME +PROJECT",
        Mode::PromptRenameContext => "RENAME @CONTEXT",
        Mode::PickSavedFilter => "PICK FILTER",
        Mode::PromptSaveFilter => "SAVE FILTER",
        Mode::CommandPalette => "COMMAND",
        Mode::Share => "SHARE",
        Mode::PickTheme => "PICK THEME",
        Mode::Welcome => "WELCOME",
    }
}

/// What the keys do in a mode.
pub open spec fn mode_hint(
    mode: Mode,
    input: DialogInputMode,
    editor: Option<NoteEditorMode>,
) -> Seq<char> {
    match mode {
        Mode::Insert => match input {
            DialogInputMode::Normal => "h/l navigate · w/b/e word · i/a insert · Enter save · Esc cancel"@,
            DialogInputMode::Insert => "Enter save · Esc normal"@,
        },
        Mode::Notes => match editor {
            Some(NoteEditorMode::Normal) => "h/j/k/l or arrows move · i insert · Ctrl+S save · Esc back to list"@,
            Some(NoteEditorMode::Insert) => "type to edit · Enter newline · Ctrl+S save · Esc normal"@,
            None => "j/k navigate · e/i edit · n new · r rename · d delete · u unlink · Esc close"@,
        },
        Mode::Visual => "space toggle · x complete · dd delete · Esc cancel"@,
        Mode::Help => "? close help"@,
        Mode::Settings => "Esc back"@,
        Mode::PromptProject => "type +project name · Enter save · Esc cancel"@,
        Mode::PromptContext => "type @context name · Enter toggle · Esc cancel"@,
        Mode::PickProject => "j/k or ↑↓ cycle projects · r rename · Enter keep · Esc clear"@,
        Mode::PickContext => "j/k or ↑↓ cycle contexts · r rename · Enter keep · Esc clear"@,
        Mode::PickSavedFilter => "j/k or ↑↓ cycle filters · Enter keep · Esc revert"@,
        Mode::PromptSaveFilter => "type a filter name · Enter save · Esc cancel"@,
        Mode::CommandPalette => "type to filter · Enter run · Esc cancel"@,
        Mode::Share => "scan the QR · any key dismisses"@,
        Mode::Welcome => "c create ./todo.txt · s open sample · q quit"@,
        _ => "j/k · n new · r reschedule · x done · o notes · z pin · / search · ? help · u undo · q quit"@,
    }
}

fn hint_of_mode(mode: Mode, input: DialogInputMode, editor: Option<NoteEditorMode>) -> (r:
    &'static str)
    ensures
        r@ == mode_hint(mode, input, editor),
{
    match mode {
        Mode::Insert => match input {
            DialogInputMode::Normal => "h/l navigate · w/b/e word · i/a insert · Enter save · Esc cancel",
            DialogInputMode::Insert => "Enter save · Esc normal",
        },
        Mode::Notes => match editor {
            Some(NoteEditorMode::Normal) => "h/j/k/l or arrows move · i insert · Ctrl+S save · Esc back to list",
            Some(NoteEditorMode::Insert) => "type to edit · Enter newline · Ctrl+S save · Esc normal",
            None => "j/k navigate · e/i edit · n new · r rename · d delete · u unlink · Esc close",
        },
        Mode::Visual => "space toggle · x complete · dd delete · Esc cancel",
        Mode::Help => "? close help",
        Mode::Settings => "Esc back",
        Mode::PromptProject => "type +project name · Enter save · Esc cancel",
        Mode::PromptContext => "type @context name · Enter toggle · Esc cancel",
        Mode::PickProject => "j/k or ↑↓ cycle projects · r rename · Enter keep · Esc clear",
        Mode::PickContext => "j/k or ↑↓ cycle contexts · r rename · Enter keep · Esc clear",
        Mode::PickSavedFilter => "j/k or ↑↓ cycle filters · Enter keep · Esc revert",
        Mode::PromptSaveFilter => "type a filter name · Enter save · Esc cancel",
        Mode::CommandPalette => "type to filter · Enter run · Esc cancel",
        Mode::Share => "scan the QR · any key dismisses",
        Mode::Welcome => "c create ./todo.txt · s open sample · q quit",
        _ => "j/k · n new · r reschedule · x done · o notes · z pin · / search · ? help · u undo · q quit",
    }
}

/// What the keys do while one of `pins` pinned notes has the keyboard.
pub open spec fn pinned_hint(editor: Option<NoteEditorMode>, pins: int) -> Seq<char> {
    match editor {
        Some(NoteEditorMode::Normal) => if pins > 1 {
            "h/j/k/l or arrows move · i insert · Ctrl+S save · Tab/S-Tab switch tab · z unfocus · Z close tab"@
        } else {
            "h/j/k/l or arrows move · i insert · Ctrl+S save · z unfocus · Z close pinned"@
        },
        Some(NoteEditorMode::Insert) => "type to edit · Enter newline · Ctrl+S save · Esc normal"@,
        None => "z unfocus · Z close pinned"@,
    }
}

/// What the keys do while one of `pins` pinned notes has the keyboard.
pub fn hint_of_pinned(editor: Option<NoteEditorMode>, pins: usize) -> (r: &'static str)
    ensures
        r@ == pinned_hint(editor, pins as int),
{
    match editor {
        Some(NoteEditorMode::Normal) => if pins > 1 {
            "h/j/k/l or arrows move · i insert · Ctrl+S save · Tab/S-Tab switch tab · z unfocus · Z close tab"
        } else {
            "h/j/k/l or arrows move · i insert · Ctrl+S save · z unfocus · Z close pinned"
        },
        Some(NoteEditorMode::Insert) => "type to edit · Enter newline · Ctrl+S save · Esc normal",
        None => "z unfocus · Z close pinned",
    }
}

/// The label on the left: the mode, or that the archive is on screen, and the
/// message behind it.
pub open spec fn label(v: AppView) -> Seq<char> {
    let name = if v.view == Screen::Archive {
        "ARCHIVE"@
    } else {
        mode_name(v.mode, v.draft.input_mode, sub_mode(v.popup.editor))
    };
    match v.flash {
        Some(f) => name + " · "@ + f,
        None => name,
    }
}

/// The label on the left.
pub fn mode_label(app: &App) -> (r: String)
    ensures
        r@ == label(app@),
{
    let name = if app.view == Screen::Archive {
        "ARCHIVE"
    } else {
        name_of_mode(
            app.mode,
            app.draft.input_mode,
            sub_mode_of(&app.notes_popup.active_editor),
        )
    };
    match app.flash_active() {
        Some(f) => {
            let mut r = text::concat(name, " · ");
            r.append(f);
            r
        },
        None => name.to_owned(),
    }
}

/// The hint in the middle. A note that is pinned without the keyboard adds how to
/// close it.
pub open spec fn shown_hint(v: AppView) -> Seq<char> {
    if v.pinned_focus {
        pinned_hint(
            sub_mode(v.pinned),
            if v.pinned is Some {
                1
            } else {
                0
            },
        )
    } else {
        let h = mode_hint(v.mode, v.draft.input_mode, sub_mode(v.popup.editor));
        if v.pinned is Some {
            h + " · Z close pinned"@
        } else {
            h
        }
    }
}

/// The hint in the middle.
pub fn hint(app: &App) -> (r: String)
    ensures
        r@ == shown_hint(app@),
{
    if app.pinned_focus {
        let pins: usize = if app.pinned_note.is_some() {
            1
        } else {
            0
        };
        return hint_of_pinned(sub_mode_of(&app.pinned_note), pins).to_owned();
    }
    let h = hint_of_mode(
        app.mode,
        app.draft.input_mode,
        sub_mode_of(&app.notes_popup.active_editor),
    );
    if app.pinned_note.is_some() {
        text::concat(h, " · Z close pinned")
    } else {
        h.to_owned()
    }
}

/// The text on the right: how many tasks are on screen and selected, the date and
/// the program.
pub open spec fn right_text(v: AppView, today: Seq<char>, program: Seq<char>) -> Seq<char> {
    let shown = if v.view == Screen::Archive {
        text::number(v.archive.len(), 10) + " archived"@
    } else {
        text::number(v.visible.len(), 10) + " open"@
    };
    let selected = if v.selected.len() > 0 {
        " · "@ + text::number(v.selected.len(), 10) + " selected"@
    } else {
        Seq::empty()
    };
    shown + selected + " · "@ + today + " · "@ + program
}

/// The text on the right.
pub fn right(app: &App, today: &str, program: &str) -> (r: String)
    ensures
        r@ == right_text(app@, today@, program@),
{
    let mut r = if app.view == Screen::Archive {
        text::concat(text::decimal(app.archive.len()).as_str(), " archived")
    } else {
        text::concat(text::decimal(app.visible.len()).as_str(), " open")
    };
    let ghost shown = r@;
    if app.selection.selected.len() > 0 {
        r.append(" · ");
        r.append(text::decimal(app.selection.selected.len()).as_str());
        r.append(" selected");
        assert(r@ =~= shown + (" · "@ + text::number(app@.selected.len(), 10) + " selected"@));
    } else {
        assert(r@ =~= shown + Seq::empty());
    }
    r.append(" · ");
    r.append(today);
    r.append(" · ");
    r.append(program);
    r
}

/// What is said of a newer release.
pub open spec fn update_text(tag: Seq<char>) -> Seq<char> {
    " · ↑ "@ + tag + " (tuxedo update)"@
}

/// What is said of a newer release.
pub fn update_suffix(tag: &str) -> (r: String)
    ensures
        r@ == update_text(tag@),
{
    let mut r = text::concat(" · ↑ ", tag);
    r.append(" (tuxedo update)");
    r
}

/// The chip on the left: the label, and behind it the first key of a chord that
/// waits for its second.
pub open spec fn chip(v: AppView) -> Seq<char> {
    let suffix = match v.leader {
        Some(c) => " "@ + seq![c] + "…"@,
        None => Seq::empty(),
    };
    " "@ + label(v) + suffix + " "@
}

/// The chip on the left.
pub fn chip_text(app: &App) -> (r: String)
    ensures
        r@ == chip(app@),
{
    let mut r = text::concat(" ", mode_label(app).as_str());
    let ghost start = r@;
    match app.chord.leader {
        Some(c) => {
            r.append(" ");
            r.push(c);
            r.append("…");
            assert(r@ =~= start + (" "@ + seq![c] + "…"@));
        },
        None => {
            assert(r@ =~= start + Seq::empty());
        },
    }
    r.append(" ");
    r
}

/// How wide the three parts are.
#[derive(Debug, Clone, Copy, PartialEq, Eq, Structural)]
pub struct Widths {
    pub chip: u16,
    pub middle: u16,
    pub right: u16,
}

/// How wide the three parts are in a line of `total` columns: the outer two are
/// as wide as their texts, and the middle gets what is left.
pub fn widths(total: u16, chip: &str, right: &str, update: Option<&str>) -> (r: Widths)
    requires
        chip@.len() <= u16::MAX,
        right@.len() + (match update {
            Some(u) => u@.len(),
            None => 0,
        }) < u16::MAX,
    ensures
        r.chip == chip@.len(),
        r.right == right@.len() + (match update {
            Some(u) => u@.len(),
            None => 0,
        }) + 1,
        r.middle == (if total > r.chip + r.right {
            total - r.chip - r.right
        } else {
            0
        }),
{
    let chip_w: u16 = chip.unicode_len() as u16;
    let update_w: u16 = match update {
        Some(u) => u.unicode_len() as u16,
        None => 0,
    };
    let right_w: u16 = right.unicode_len() as u16 + update_w + 1;
    let middle: u16 = total.saturating_sub(chip_w).saturating_sub(right_w);
    Widths { chip: chip_w, middle, right: right_w }
}

/// What is said behind the search box.
pub open spec fn search_suggestion(matches: nat) -> Seq<char> {
    "  "@ + text::number(matches, 10) + " matches · Enter accept · Esc cancel"@
}

/// What is said behind the search box.
pub fn render_command_line(app: &App) -> (r: String)
    ensures
        r@ == search_suggestion(app@.visible.len()),
{
    let mut r = text::concat("  ", text::decimal(app.visible.len()).as_str());
    r.append(" matches · Enter accept · Esc cancel");
    r
}

} // verus!
