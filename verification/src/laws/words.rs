//! The words that commands go by: in the palette, in the help and on the status
//! line.
use crate::action::Action;
use crate::app::note_editor::NoteEditorMode;
use crate::app::palette;
use crate::app::palette::{NotesEntryAction, PaletteDispatch};
use crate::app::types::{DialogInputMode, Mode};
use crate::app::AppView;
use crate::ui::help;
use crate::ui::help::{HelpItem, SectionView};
use crate::ui::status;
use vstd::prelude::*;

verus! {

/// A command goes by a label in the palette: some row has both.
pub open spec fn goes_by(label: &'static str, dispatch: PaletteDispatch) -> bool {
    exists|i: int|
        #![trigger palette::catalogue()[i]]
        0 <= i < palette::catalogue().len() && palette::catalogue()[i].label == label
            && palette::catalogue()[i].dispatch == dispatch
}

proof fn lemma_labels_from_0()
    ensures
        goes_by("new task", PaletteDispatch::Global(Action::BeginAdd)),
        goes_by("edit current task (normal mode)", PaletteDispatch::Global(Action::BeginEdit)),
        goes_by("edit current task (insert mode)", PaletteDispatch::Global(Action::BeginEditInsert)),
        goes_by("toggle complete", PaletteDispatch::Global(Action::ToggleComplete)),
        goes_by("delete task", PaletteDispatch::Global(Action::Delete)),
        goes_by("cycle priority", PaletteDispatch::Global(Action::CyclePriority)),
        goes_by("move task down", PaletteDispatch::Global(Action::MoveTaskDown)),
        goes_by("move task up", PaletteDispatch::Global(Action::MoveTaskUp)),
        goes_by("add project to current task", PaletteDispatch::Global(Action::BeginPromptProject)),
        goes_by("add or remove context on current task", PaletteDispatch::Global(Action::BeginPromptContext)),
        goes_by("copy line to clipboard", PaletteDispatch::Global(Action::CopyLine)),
{
    reveal(palette::catalogue);
    assert(palette::catalogue()[0].label == "new task");
    assert(palette::catalogue()[1].label == "edit current task (normal mode)");
    assert(palette::catalogue()[2].label == "edit current task (insert mode)");
    assert(palette::catalogue()[3].label == "toggle complete");
    assert(palette::catalogue()[4].label == "delete task");
    assert(palette::catalogue()[5].label == "cycle priority");
    assert(palette::catalogue()[6].label == "move task down");
    assert(palette::catalogue()[7].label == "move task up");
    assert(palette::catalogue()[8].label == "add project to current task");
    assert(palette::catalogue()[9].label == "add or remove context on current task");
    assert(palette::catalogue()[10].label == "copy line to clipboard");
}

proof fn lemma_labels_from_11()
    ensures
        goes_by("copy body to clipboard", PaletteDispatch::Global(Action::CopyBody)),
        goes_by("open task notes", PaletteDispatch::Global(Action::OpenNotes)),
        goes_by("undo", PaletteDispatch::Global(Action::Undo)),
        goes_by("cursor down", PaletteDispatch::Global(Action::CursorDown)),
        goes_by("cursor up", PaletteDispatch::Global(Action::CursorUp)),
        goes_by("jump to first task", PaletteDispatch::Global(Action::CursorTop)),
        goes_by("jump to last task", PaletteDispatch::Global(Action::CursorBottom)),
        goes_by("page down", PaletteDispatch::Global(Action::HalfPageDown)),
        goes_by("page up", PaletteDispatch::Global(Action::HalfPageUp)),
        goes_by("fuzzy search", PaletteDispatch::Global(Action::BeginSearch)),
        goes_by("filter by project", PaletteDispatch::Global(Action::PickProject)),
{
    reveal(palette::catalogue);
    assert(palette::catalogue()[11].label == "copy body to clipboard");
    assert(palette::catalogue()[12].label == "open task notes");
    assert(palette::catalogue()[13].label == "undo");
    assert(palette::catalogue()[14].label == "cursor down");
    assert(palette::catalogue()[15].label == "cursor up");
    assert(palette::catalogue()[16].label == "jump to first task");
    assert(palette::catalogue()[17].label == "jump to last task");
    assert(palette::catalogue()[18].label == "page down");
    assert(palette::catalogue()[19].label == "page up");
    assert(palette::catalogue()[20].label == "fuzzy search");
    assert(palette::catalogue()[21].label == "filter by project");
}

proof fn lemma_labels_from_22()
    ensures
        goes_by("filter by context", PaletteDispatch::Global(Action::PickContext)),
        goes_by("pick saved filter", PaletteDispatch::Global(Action::PickSavedFilter)),
        goes_by("save search as filter", PaletteDispatch::Global(Action::SaveCurrentFilter)),
        goes_by("cycle sort", PaletteDispatch::Global(Action::CycleSort)),
        goes_by("toggle visual / multi-select", PaletteDispatch::Global(Action::ToggleVisual)),
        goes_by("toggle selected row", PaletteDispatch::Global(Action::ToggleSelected)),
        goes_by("list view", PaletteDispatch::Global(Action::GoList)),
        goes_by("toggle archive view", PaletteDispatch::Global(Action::ToggleArchiveView)),
        goes_by("archive completed tasks", PaletteDispatch::Global(Action::ArchiveCompleted)),
        goes_by("show done in list", PaletteDispatch::Global(Action::ToggleShowDone)),
        goes_by("show future in list", PaletteDispatch::Global(Action::ToggleShowFuture)),
{
    reveal(palette::catalogue);
    assert(palette::catalogue()[22].label == "filter by context");
    assert(palette::catalogue()[23].label == "pick saved filter");
    assert(palette::catalogue()[24].label == "save search as filter");
    assert(palette::catalogue()[25].label == "cycle sort");
    assert(palette::catalogue()[26].label == "toggle visual / multi-select");
    assert(palette::catalogue()[27].label == "toggle selected row");
    assert(palette::catalogue()[28].label == "list view");
    assert(palette::catalogue()[29].label == "toggle archive view");
    assert(palette::catalogue()[30].label == "archive completed tasks");
    assert(palette::catalogue()[31].label == "show done in list");
    assert(palette::catalogue()[32].label == "show future in list");
}

proof fn lemma_labels_from_33()
    ensures
        goes_by("toggle filter pane", PaletteDispatch::Global(Action::ToggleLeftPane)),
        goes_by("toggle detail pane", PaletteDispatch::Global(Action::ToggleRightPane)),
        goes_by("pick theme", PaletteDispatch::Global(Action::OpenThemePicker)),
        goes_by("cycle theme", PaletteDispatch::Global(Action::CycleTheme)),
        goes_by("cycle density", PaletteDispatch::Global(Action::CycleDensity)),
        goes_by("toggle line numbers", PaletteDispatch::Global(Action::ToggleLineNum)),
        goes_by("open help", PaletteDispatch::Global(Action::OpenHelp)),
        goes_by("open settings", PaletteDispatch::Global(Action::OpenSettings)),
        goes_by("open command palette", PaletteDispatch::Global(Action::OpenCommandPalette)),
        goes_by("show capture QR", PaletteDispatch::Global(Action::OpenShare)),
        goes_by("escape / clear", PaletteDispatch::Global(Action::EscapeStack)),
{
    reveal(palette::catalogue);
    assert(palette::catalogue()[33].label == "toggle filter pane");
    assert(palette::catalogue()[34].label == "toggle detail pane");
    assert(palette::catalogue()[35].label == "pick theme");
    assert(palette::catalogue()[36].label == "cycle theme");
    assert(palette::catalogue()[37].label == "cycle density");
    assert(palette::catalogue()[38].label == "toggle line numbers");
    assert(palette::catalogue()[39].label == "open help");
    assert(palette::catalogue()[40].label == "open settings");
    assert(palette::catalogue()[41].label == "open command palette");
    assert(palette::catalogue()[42].label == "show capture QR");
    assert(palette::catalogue()[43].label == "escape / clear");
}

proof fn lemma_labels_from_44()
    ensures
        goes_by("quit", PaletteDispatch::Global(Action::Quit)),
        goes_by("reschedule", PaletteDispatch::Global(Action::Reschedule)),
        goes_by("Change week start", PaletteDispatch::Global(Action::ChangeWeekStart)),
        goes_by("pin note / switch focus", PaletteDispatch::Global(Action::TogglePinFocus)),
        goes_by("close pinned note", PaletteDispatch::Global(Action::ClosePinnedNote)),
        goes_by("create note", PaletteDispatch::NotesAction(NotesEntryAction::Create)),
        goes_by("rename note", PaletteDispatch::NotesAction(NotesEntryAction::Rename)),
        goes_by("delete note", PaletteDispatch::NotesAction(NotesEntryAction::Delete)),
        goes_by("unlink note", PaletteDispatch::NotesAction(NotesEntryAction::Unlink)),
        goes_by("open note in editor (normal mode)", PaletteDispatch::NotesAction(NotesEntryAction::OpenEditorNormal)),
        goes_by("open note in editor (insert mode)", PaletteDispatch::NotesAction(NotesEntryAction::OpenEditorInsert)),
{
    reveal(palette::catalogue);
    assert(palette::catalogue()[44].label == "quit");
    assert(palette::catalogue()[45].label == "reschedule");
    assert(palette::catalogue()[46].label == "Change week start");
    assert(palette::catalogue()[47].label == "pin note / switch focus");
    assert(palette::catalogue()[48].label == "close pinned note");
    assert(palette::catalogue()[49].label == "create note");
    assert(palette::catalogue()[50].label == "rename note");
    assert(palette::catalogue()[51].label == "delete note");
    assert(palette::catalogue()[52].label == "unlink note");
    assert(palette::catalogue()[53].label == "open note in editor (normal mode)");
    assert(palette::catalogue()[54].label == "open note in editor (insert mode)");
}

/// Each command goes by its own name in the palette.
pub proof fn law_commands_go_by_their_names()
    ensures
        goes_by("new task", PaletteDispatch::Global(Action::BeginAdd)),
        goes_by("edit current task (normal mode)", PaletteDispatch::Global(Action::BeginEdit)),
        goes_by("edit current task (insert mode)", PaletteDispatch::Global(Action::BeginEditInsert)),
        goes_by("toggle complete", PaletteDispatch::Global(Action::ToggleComplete)),
        goes_by("delete task", PaletteDispatch::Global(Action::Delete)),
        goes_by("cycle priority", PaletteDispatch::Global(Action::CyclePriority)),
        goes_by("move task down", PaletteDispatch::Global(Action::MoveTaskDown)),
        goes_by("move task up", PaletteDispatch::Global(Action::MoveTaskUp)),
        goes_by("add project to current task", PaletteDispatch::Global(Action::BeginPromptProject)),
        goes_by("add or remove context on current task", PaletteDispatch::Global(Action::BeginPromptContext)),
        goes_by("copy line to clipboard", PaletteDispatch::Global(Action::CopyLine)),
        goes_by("copy body to clipboard", PaletteDispatch::Global(Action::CopyBody)),
        goes_by("open task notes", PaletteDispatch::Global(Action::OpenNotes)),
        goes_by("undo", PaletteDispatch::Global(Action::Undo)),
        goes_by("cursor down", PaletteDispatch::Global(Action::CursorDown)),
        goes_by("cursor up", PaletteDispatch::Global(Action::CursorUp)),
        goes_by("jump to first task", PaletteDispatch::Global(Action::CursorTop)),
        goes_by("jump to last task", PaletteDispatch::Global(Action::CursorBottom)),
        goes_by("page down", PaletteDispatch::Global(Action::HalfPageDown)),
        goes_by("page up", PaletteDispatch::Global(Action::HalfPageUp)),
        goes_by("fuzzy search", PaletteDispatch::Global(Action::BeginSearch)),
        goes_by("filter by project", PaletteDispatch::Global(Action::PickProject)),
        goes_by("filter by context", PaletteDispatch::Global(Action::PickContext)),
        goes_by("pick saved filter", PaletteDispatch::Global(Action::PickSavedFilter)),
        goes_by("save search as filter", PaletteDispatch::Global(Action::SaveCurrentFilter)),
        goes_by("cycle sort", PaletteDispatch::Global(Action::CycleSort)),
        goes_by("toggle visual / multi-select", PaletteDispatch::Global(Action::ToggleVisual)),
        goes_by("toggle selected row", PaletteDispatch::Global(Action::ToggleSelected)),
        goes_by("list view", PaletteDispatch::Global(Action::GoList)),
        goes_by("toggle archive view", PaletteDispatch::Global(Action::ToggleArchiveView)),
        goes_by("archive completed tasks", PaletteDispatch::Global(Action::ArchiveCompleted)),
        goes_by("show done in list", PaletteDispatch::Global(Action::ToggleShowDone)),
        goes_by("show future in list", PaletteDispatch::Global(Action::ToggleShowFuture)),
        goes_by("toggle filter pane", PaletteDispatch::Global(Action::ToggleLeftPane)),
        goes_by("toggle detail pane", PaletteDispatch::Global(Action::ToggleRightPane)),
        goes_by("pick theme", PaletteDispatch::Global(Action::OpenThemePicker)),
        goes_by("cycle theme", PaletteDispatch::Global(Action::CycleTheme)),
        goes_by("cycle density", PaletteDispatch::Global(Action::CycleDensity)),
        goes_by("toggle line numbers", PaletteDispatch::Global(Action::ToggleLineNum)),
        goes_by("open help", PaletteDispatch::Global(Action::OpenHelp)),
        goes_by("open settings", PaletteDispatch::Global(Action::OpenSettings)),
        goes_by("open command palette", PaletteDispatch::Global(Action::OpenCommandPalette)),
        goes_by("show capture QR", PaletteDispatch::Global(Action::OpenShare)),
        goes_by("escape / clear", PaletteDispatch::Global(Action::EscapeStack)),
        goes_by("quit", PaletteDispatch::Global(Action::Quit)),
        goes_by("reschedule", PaletteDispatch::Global(Action::Reschedule)),
        goes_by("Change week start", PaletteDispatch::Global(Action::ChangeWeekStart)),
        goes_by("pin note / switch focus", PaletteDispatch::Global(Action::TogglePinFocus)),
        goes_by("close pinned note", PaletteDispatch::Global(Action::ClosePinnedNote)),
        goes_by("create note", PaletteDispatch::NotesAction(NotesEntryAction::Create)),
        goes_by("rename note", PaletteDispatch::NotesAction(NotesEntryAction::Rename)),
        goes_by("delete note", PaletteDispatch::NotesAction(NotesEntryAction::Delete)),
        goes_by("unlink note", PaletteDispatch::NotesAction(NotesEntryAction::Unlink)),
        goes_by("open note in editor (normal mode)", PaletteDispatch::NotesAction(NotesEntryAction::OpenEditorNormal)),
        goes_by("open note in editor (insert mode)", PaletteDispatch::NotesAction(NotesEntryAction::OpenEditorInsert)),
{
    lemma_labels_from_0();
    lemma_labels_from_11();
    lemma_labels_from_22();
    lemma_labels_from_33();
    lemma_labels_from_44();
}

/// A row of the help says what keys do.
pub open spec fn explains(s: SectionView, i: int, keys: &'static str, what: &'static str) -> bool {
    0 <= i < s.items.len() && s.items[i] == (HelpItem { keys, what })
}

/// The help explains each key, under the title of what it is for.
pub proof fn law_help_explains_the_keys()
    ensures
        help::navigation_section().title == "NAVIGATION",
        help::navigation_section().items.len() == 3,
        explains(help::navigation_section(), 0, "j / k  (↓ / ↑)", "next / previous task"),
        explains(help::navigation_section(), 1, "gg / G", "first / last task"),
        explains(help::navigation_section(), 2, "Ctrl-d / Ctrl-u", "page down / up"),
        help::editing_section().title == "EDITING",
        help::editing_section().items.len() == 11,
        explains(help::editing_section(), 0, "n / o", "new task / open notes"),
        explains(help::editing_section(), 1, "e / i", "edit (normal / insert)"),
        explains(help::editing_section(), 2, "r", "reschedule task"),
        explains(help::editing_section(), 3, "x", "toggle complete"),
        explains(help::editing_section(), 4, "dd", "delete task"),
        explains(help::editing_section(), 5, "p", "cycle priority A→B→C→·"),
        explains(help::editing_section(), 6, "J / K", "move task down / up"),
        explains(help::editing_section(), 7, "c", "add/remove context"),
        explains(help::editing_section(), 8, "+", "add project"),
        explains(help::editing_section(), 9, "yy / yb", "copy line / body"),
        explains(help::editing_section(), 10, "u", "undo"),
        help::recurrence_section().title == "RECURRENCE (rec:)",
        help::recurrence_section().items.len() == 3,
        explains(help::recurrence_section(), 0, "j / k / Tab", "next / prev field"),
        explains(help::recurrence_section(), 1, "h / l / + / -", "change value"),
        explains(help::recurrence_section(), 2, "Enter / Esc", "save / cancel"),
        help::view_section().title == "VIEW",
        help::view_section().items.len() == 14,
        explains(help::view_section(), 0, "/", "fuzzy search"),
        explains(help::view_section(), 1, "fp / fc", "filter project/context"),
        explains(help::view_section(), 2, "ff / fs", "saved filter pick/save"),
        explains(help::view_section(), 3, "S", "cycle sort"),
        explains(help::view_section(), 4, "v", "visual / multi-select"),
        explains(help::view_section(), 5, "l", "list view"),
        explains(help::view_section(), 6, "a", "archive view"),
        explains(help::view_section(), 7, "A", "archive completed"),
        explains(help::view_section(), 8, "H", "show done in list"),
        explains(help::view_section(), 9, "F", "show future in list"),
        explains(help::view_section(), 10, "[ / ]", "toggle filter / detail"),
        explains(help::view_section(), 11, "T", "theme picker"),
        explains(help::view_section(), 12, "D", "cycle density"),
        explains(help::view_section(), 13, "L", "toggle line numbers"),
        help::system_section().title == "SYSTEM",
        help::system_section().items.len() == 4,
        explains(help::system_section(), 0, ": / Ctrl-P", "command palette"),
        explains(help::system_section(), 1, "s", "share capture QR"),
        explains(help::system_section(), 2, "? / ,", "help / settings"),
        explains(help::system_section(), 3, "q / Ctrl-c", "quit"),
        help::format_left_section().title == "FORMAT",
        help::format_left_section().items.len() == 4,
        explains(help::format_left_section(), 0, "(A)", "priority A-Z"),
        explains(help::format_left_section(), 1, "YYYY-MM-DD", "creation / done date"),
        explains(help::format_left_section(), 2, "+project", "project tag(s)"),
        explains(help::format_left_section(), 3, "@context", "context tag(s)"),
        help::format_right_section().title == "",
        help::format_right_section().items.len() == 4,
        explains(help::format_right_section(), 0, "due:YYYY-MM-DD", "due date (+1w = range)"),
        explains(help::format_right_section(), 1, "rec:Nu", "recur (u in d/w/m/y/b)"),
        explains(help::format_right_section(), 2, "rec:+Nu", "strict: anchor on due:"),
        explains(help::format_right_section(), 3, "x DATE BODY", "completed task prefix"),
{
}

/// What the status line advises in each mode.
pub proof fn law_hints(v: AppView)
    requires
        !v.pinned_focus,
        v.pinned is None,
    ensures
        ({
            let h = status::shown_hint(v);
            &&& v.mode == Mode::Visual ==> h == "space toggle · x complete · dd delete · Esc cancel"@
            &&& v.mode == Mode::Help ==> h == "? close help"@
            &&& v.mode == Mode::Settings ==> h == "Esc back"@
            &&& v.mode == Mode::PromptProject ==> h == "type +project name · Enter save · Esc cancel"@
            &&& v.mode == Mode::PromptContext ==> h == "type @context name · Enter toggle · Esc cancel"@
            &&& v.mode == Mode::PickProject ==> h == "j/k or ↑↓ cycle projects · r rename · Enter keep · Esc clear"@
            &&& v.mode == Mode::PickContext ==> h == "j/k or ↑↓ cycle contexts · r rename · Enter keep · Esc clear"@
            &&& v.mode == Mode::PickSavedFilter ==> h == "j/k or ↑↓ cycle filters · Enter keep · Esc revert"@
            &&& v.mode == Mode::PromptSaveFilter ==> h == "type a filter name · Enter save · Esc cancel"@
            &&& v.mode == Mode::CommandPalette ==> h == "type to filter · Enter run · Esc cancel"@
            &&& v.mode == Mode::Share ==> h == "scan the QR · any key dismisses"@
            &&& v.mode == Mode::Welcome ==> h == "c create ./todo.txt · s open sample · q quit"@
            &&& v.mode == Mode::Insert && v.draft.input_mode == DialogInputMode::Normal ==> h
                == "h/l navigate · w/b/e word · i/a insert · Enter save · Esc cancel"@
            &&& v.mode == Mode::Insert && v.draft.input_mode == DialogInputMode::Insert ==> h
                == "Enter save · Esc normal"@
            &&& v.mode == Mode::Notes && (v.popup.editor matches Some(e) && e.mode
                == NoteEditorMode::Normal) ==> h == "h/j/k/l or arrows move · i insert · Ctrl+S save · Esc back to list"@
            &&& v.mode == Mode::Notes && (v.popup.editor matches Some(e) && e.mode
                == NoteEditorMode::Insert) ==> h == "type to edit · Enter newline · Ctrl+S save · Esc normal"@
            &&& v.mode == Mode::Normal ==> h
                == "j/k · n new · r reschedule · x done · o notes · z pin · / search · ? help · u undo · q quit"@
            &&& v.mode == Mode::Search ==> h
                == "j/k · n new · r reschedule · x done · o notes · z pin · / search · ? help · u undo · q quit"@
            &&& v.mode == Mode::PickTheme ==> h
                == "j/k · n new · r reschedule · x done · o notes · z pin · / search · ? help · u undo · q quit"@
        }),
{
}

} // verus!
