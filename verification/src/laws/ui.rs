//! What is shown of notes, of the status and of the program's own affairs.
use crate::app::note_editor::{EditorView, NoteEditorMode};
use crate::app::notes_popup::{NotePromptKind, PopupView};
use crate::app::types::{DialogInputMode, Mode, View as Screen};
use crate::app::AppView;
use crate::dispatch::apply;
use crate::path;
use crate::run;
use crate::run::{Round, Start, Woken, EVENT_POLL};
use crate::text;
use crate::todo::Task;
use crate::ui;
use crate::ui::note_editor;
use crate::ui::notes_popup;
use crate::ui::help;
use crate::ui::help::SectionView;
use crate::ui::status;
use crate::ui::{SpanView, Tint};
use vstd::prelude::*;

verus! {

/// An editor shows its lines one below the other: from the first while the cursor
/// is within the first rows, and otherwise with the cursor's line in the last row.
pub proof fn law_editor_rows(e: EditorView, height: int, i: int)
    requires
        e.wf(),
        height > 0,
        0 <= i < note_editor::shown_lines(e, height).len(),
    ensures
        ({
            let first = if e.line < height {
                0
            } else {
                e.line - height + 1
            };
            let line = e.lines[first + i];
            let row = note_editor::shown_lines(e, height)[i];
            &&& 0 <= first + i < e.lines.len()
            &&& ui::line_text(row) == if first + i == e.line && e.col == line.len() {
                line + seq![' ']
            } else {
                line
            }
        }),
        note_editor::shown_lines(e, height).len() == ({
            let first = if e.line < height {
                0
            } else {
                e.line - height + 1
            };
            if e.lines.len() - first < height {
                e.lines.len() - first
            } else {
                height
            }
        }),
{
    let first = if e.line < height {
        0
    } else {
        e.line - height + 1
    };
    let line = e.lines[first + i];
    if first + i == e.line {
        note_editor::law_line_is_shown_as_it_is(line, true, e.col);
        assert(line.push(' ') =~= line + seq![' ']);
    } else {
        note_editor::law_line_is_shown_as_it_is(line, false, 0);
    }
}

/// The character under the cursor is marked and no other; behind the last one a
/// blank is.
pub proof fn law_cursor_is_marked(line: Seq<char>, col: int)
    requires
        0 <= col <= line.len(),
    ensures
        ({
            let at = if col > 0 {
                1int
            } else {
                0
            };
            let shown = note_editor::shown_line(line, true, col);
            &&& at < shown.len()
            &&& col > 0 ==> shown[0] == (SpanView { tint: Tint::Text, content: line.take(col) })
            &&& col < line.len() ==> shown[at] == (SpanView {
                tint: Tint::CursorCell,
                content: seq![line[col]],
            })
            &&& col == line.len() ==> shown[at] == (SpanView {
                tint: Tint::CursorBlank,
                content: seq![' '],
            })
            &&& forall|i: int|
                0 <= i < shown.len() && i != at ==> (#[trigger] shown[i]).tint == Tint::Text
        }),
        note_editor::shown_line(line, false, col) == seq![
            SpanView { tint: Tint::Text, content: line },
        ],
{
}

/// The tabs of pinned notes name them in order, and only the active one stands out.
pub proof fn law_tabs(paths: Seq<Seq<char>>, active: int, i: int)
    requires
        0 <= i < paths.len(),
    ensures
        note_editor::tabs(paths, active).len() == paths.len(),
        note_editor::tabs(paths, active)[i].content == " "@ + ui::shown_name(paths[i]) + " "@,
        note_editor::tabs(paths, active)[i].tint == Tint::Selected <==> i == active,
{
}

/// A path is shown by its last name, or whole where it has none.
pub proof fn law_shown_names(path: Seq<char>)
    ensures
        path::path_name(path) matches Some(name) ==> ui::shown_name(path) == name,
        path::path_name(path) is None ==> ui::shown_name(path) == path,
{
}

/// The popup shows what is asked for, else the question whether a note is to be
/// deleted, by its name, else its notes, of which the one under the cursor stands
/// out, else that there are none.
pub proof fn law_popup_rows(p: PopupView)
    ensures
        ({
            let rows = notes_popup::popup_rows(p);
            match (p.prompt, p.pending_delete) {
                (Some(typed), _) => rows.len() == 1 && rows[0].len() == 3 && rows[0][2] == (
                SpanView { tint: Tint::Input, content: typed }),
                (None, Some(index)) => {
                    &&& rows.len() == 1 && rows[0].len() == 1 && rows[0][0].tint == Tint::Question
                    &&& index < p.files.len() ==> (path::path_name(
                        p.files[index as int],
                    ) matches Some(name) ==> rows[0][0].content == "  Delete "@ + name
                        + "? (y/n)"@)
                },
                (None, None) => if p.files.len() == 0 {
                    rows == seq![
                        seq![SpanView { tint: Tint::Dim, content: "  No notes yet"@ }],
                    ]
                } else {
                    &&& rows.len() == p.files.len()
                    &&& forall|i: int|
                        0 <= i < p.files.len() ==> (#[trigger] rows[i]).len() == 1
                            && rows[i][0].content == "  "@ + ui::shown_name(p.files[i]) && (
                        rows[i][0].tint == Tint::Selected <==> i == p.cursor)
                },
            }
        }),
        notes_popup::popup_title(Some(NotePromptKind::Create)) == " NEW NOTE "@,
        forall|index: usize|
            #[trigger] notes_popup::popup_title(Some(NotePromptKind::Rename { index }))
                == " RENAME NOTE "@,
        notes_popup::popup_title(None) == " NOTES "@,
{
}

/// The status line names the mode, and behind it what there is to say.
pub proof fn law_mode_names(v: AppView)
    requires
        v.view == Screen::List,
    ensures
        v.flash is None ==> {
            let l = status::label(v);
            &&& v.mode == Mode::Normal ==> l == "NORMAL"@
            &&& v.mode == Mode::Visual ==> l == "VISUAL"@
            &&& v.mode == Mode::Search ==> l == "SEARCH"@
            &&& v.mode == Mode::Help ==> l == "HELP"@
            &&& v.mode == Mode::Settings ==> l == "SETTINGS"@
            &&& v.mode == Mode::PromptProject ==> l == "PROJECT"@
            &&& v.mode == Mode::PromptContext ==> l == "CONTEXT"@
            &&& v.mode == Mode::PickProject ==> l == "PICK +PROJECT"@
            &&& v.mode == Mode::PickContext ==> l == "PICK @CONTEXT"@
            &&& v.mode == Mode::PromptRenameProject ==> l == "RENAME +PROJECT"@
            &&& v.mode == Mode::PromptRenameContext ==> l == "RENAME @CONTEXT"@
            &&& v.mode == Mode::PickSavedFilter ==> l == "PICK FILTER"@
            &&& v.mode == Mode::PromptSaveFilter ==> l == "SAVE FILTER"@
            &&& v.mode == Mode::CommandPalette ==> l == "COMMAND"@
            &&& v.mode == Mode::Share ==> l == "SHARE"@
            &&& v.mode == Mode::PickTheme ==> l == "PICK THEME"@
            &&& v.mode == Mode::Welcome ==> l == "WELCOME"@
            &&& v.mode == Mode::Insert && v.draft.input_mode == DialogInputMode::Normal ==> l
                == "NORMAL"@
            &&& v.mode == Mode::Insert && v.draft.input_mode == DialogInputMode::Insert ==> l
                == "INSERT"@
            &&& v.mode == Mode::Notes && v.popup.editor is None ==> l == "NOTES"@
            &&& v.mode == Mode::Notes && (v.popup.editor matches Some(e) && e.mode
                == NoteEditorMode::Normal) ==> l == "NORMAL"@
            &&& v.mode == Mode::Notes && (v.popup.editor matches Some(e) && e.mode
                == NoteEditorMode::Insert) ==> l == "INSERT"@
        },
        v.flash matches Some(f) ==> status::label(v) == status::label(AppView { flash: None, ..v })
            + " · "@ + f,
{
}

/// While the archive is on screen the status line says so, whatever the mode.
pub proof fn law_archive_is_named(v: AppView)
    requires
        v.view == Screen::Archive,
        v.flash is None,
    ensures
        status::label(v) == "ARCHIVE"@,
{
}

/// Around the mode there is a blank, and a chord's first key is shown while it
/// waits.
pub proof fn law_chips(v: AppView)
    ensures
        v.leader is None ==> status::chip(v) == " "@ + status::label(v) + " "@,
        v.leader matches Some(c) ==> status::chip(v) == " "@ + status::label(v) + " "@ + seq![c]
            + "…"@ + " "@,
{
    let l = " "@ + status::label(v);
    if let Some(c) = v.leader {
        assert(l + (" "@ + seq![c] + "…"@) + " "@ =~= l + " "@ + seq![c] + "…"@ + " "@);
    } else {
        assert(l + Seq::<char>::empty() + " "@ =~= l + " "@);
    }
}

/// On the right the status line counts what is on screen and what is selected, and
/// names the day and the program.
pub proof fn law_status_on_the_right(v: AppView, today: Seq<char>, program: Seq<char>)
    ensures
        v.view == Screen::List && v.selected.len() == 0 ==> status::right_text(v, today, program)
            == text::number(v.visible.len(), 10) + " open"@ + " · "@ + today + " · "@ + program,
        v.view == Screen::List && v.selected.len() > 0 ==> status::right_text(v, today, program)
            == text::number(v.visible.len(), 10) + " open"@ + " · "@ + text::number(
            v.selected.len(),
            10,
        ) + " selected"@ + " · "@ + today + " · "@ + program,
        v.view == Screen::Archive && v.selected.len() == 0 ==> status::right_text(
            v,
            today,
            program,
        ) == text::number(v.archive.len(), 10) + " archived"@ + " · "@ + today + " · "@ + program,
{
    let open = text::number(v.visible.len(), 10) + " open"@;
    let gone = text::number(v.archive.len(), 10) + " archived"@;
    let picked = text::number(v.selected.len(), 10);
    assert(open + Seq::<char>::empty() =~= open);
    assert(gone + Seq::<char>::empty() =~= gone);
    assert(open + (" · "@ + picked + " selected"@) =~= open + " · "@ + picked + " selected"@);
}

/// What the status line advises in the modes of notes, and for a pinned note.
pub proof fn law_note_hints(v: AppView)
    ensures
        !v.pinned_focus && v.mode == Mode::Notes && v.popup.editor is None && v.pinned is None
            ==> status::shown_hint(v)
            == "j/k navigate · e/i edit · n new · r rename · d delete · u unlink · Esc close"@,
        !v.pinned_focus && v.pinned is Some ==> status::shown_hint(v) == status::shown_hint(
            AppView { pinned: None, ..v },
        ) + " · Z close pinned"@,
        v.pinned_focus ==> (v.pinned matches Some(e) ==> e.mode == NoteEditorMode::Normal
            ==> status::shown_hint(v)
            == "h/j/k/l or arrows move · i insert · Ctrl+S save · z unfocus · Z close pinned"@),
        v.pinned_focus ==> (v.pinned matches Some(e) ==> e.mode == NoteEditorMode::Insert
            ==> status::shown_hint(v)
            == "type to edit · Enter newline · Ctrl+S save · Esc normal"@),
        !v.pinned_focus && v.mode == Mode::Normal && v.pinned is None ==> status::shown_hint(v)
            == "j/k · n new · r reschedule · x done · o notes · z pin · / search · ? help · u undo · q quit"@,
        !v.pinned_focus && v.mode == Mode::Visual && v.pinned is None ==> status::shown_hint(v)
            == "space toggle · x complete · dd delete · Esc cancel"@,
{
}

/// What is said of a newer release and of a search.
pub proof fn law_notices(tag: Seq<char>, matches: nat)
    ensures
        status::update_text(tag) == " · ↑ "@ + tag + " (tuxedo update)"@,
        status::search_suggestion(matches) == "  "@ + text::number(matches, 10)
            + " matches · Enter accept · Esc cancel"@,
{
}

/// What the first argument asks for.
pub proof fn law_first_argument(a: Seq<char>)
    ensures
        run::start(None) == Start::Open,
        run::start(Some("--help"@)) == Start::Help,
        run::start(Some("-h"@)) == Start::Help,
        run::start(Some("--version"@)) == Start::Version,
        run::start(Some("-V"@)) == Start::Version,
        run::start(Some("update"@)) == Start::Update,
        run::start(Some("--sample"@)) == Start::Sample,
        a.len() > 0 && a[0] != '-' && a != "update"@ ==> run::start(Some(a)) == Start::Open,
        a.len() > 0 && a[0] == '-' && a != "--help"@ && a != "-h"@ && a != "--version"@ && a
            != "-V"@ && a != "--sample"@ ==> run::start(Some(a)) == Start::UnknownOption,
{
    reveal_strlit("--help");
    reveal_strlit("-h");
    reveal_strlit("--version");
    reveal_strlit("-V");
    reveal_strlit("update");
    reveal_strlit("--sample");
    assert("--help"@[2] == 'h' && "--version"@[2] == 'v' && "--sample"@[2] == 's' && "-h"@[1]
        == 'h' && "-V"@[1] == 'V' && "update"@[0] == 'u' && "--help"@[0] == '-' && "-h"@[0] == '-'
        && "--version"@[0] == '-' && "-V"@[0] == '-' && "--sample"@[0] == '-');
    assert("--help"@.len() == 6 && "-h"@.len() == 2 && "--version"@.len() == 9 && "-V"@.len() == 2
        && "update"@.len() == 6 && "--sample"@.len() == 8);
}

/// The wait for a key ends exactly when the next thing is due, or after a quarter of
/// a second where nothing is due sooner.
pub proof fn law_waits_end_when_something_is_due(f: u64, c: u64, now: u64)
    ensures
        EVENT_POLL == 250_000_000,
        run::timeout(None, None, now) == EVENT_POLL,
        now <= f && f - now <= EVENT_POLL ==> now + run::timeout(Some(f), None, now) == f
            && now + run::timeout(None, Some(f), now) == f,
        now <= f && f <= c && f - now <= EVENT_POLL ==> now + run::timeout(Some(f), Some(c), now)
            == f && now + run::timeout(Some(c), Some(f), now) == f,
        now < f && f - now > EVENT_POLL ==> run::timeout(Some(f), None, now) == EVENT_POLL,
        f < now ==> run::timeout(Some(f), Some(c), now) == 0 && run::timeout(
            Some(c),
            Some(f),
            now,
        ) == 0,
{
}

/// At the end of a round only what is over goes: the message, the chord's first key,
/// each by itself.
pub proof fn law_rounds(v: AppView, woken: Woken)
    ensures
        run::rounded(v, Round { woken, flash_over: false, chord_over: false }) == v,
        run::rounded(v, Round { woken, flash_over: true, chord_over: false }) == (AppView {
            flash: None,
            ..v
        }),
        run::rounded(v, Round { woken, flash_over: false, chord_over: true }) == (AppView {
            leader: None,
            ..v
        }),
        run::rounded(v, Round { woken, flash_over: true, chord_over: true }) == (AppView {
            flash: None,
            leader: None,
            ..v
        }),
        run::stirs(Woken::Key) && run::stirs(Woken::Resize) && !run::stirs(Woken::Other),
        run::stirs(Woken::Idle { reloaded: true }) && !run::stirs(Woken::Idle { reloaded: false }),
{
}

/// What is said of the configuration, and of themes that could not be loaded.
pub proof fn law_configuration_is_reported(why: Seq<char>, one: Seq<char>, all: Seq<Seq<char>>)
    ensures
        run::reload_message(Ok(())) == "config reloaded"@,
        run::reload_message(Err(why)) == "config reload failed: "@ + why,
        run::theme_warning(Seq::empty()) is None,
        run::theme_warning(seq![one]) == Some(one),
        all.len() > 1 ==> run::theme_warning(all) == Some(
            text::number(all.len(), 10) + " theme(s) skipped — check ~/.config/tuxedo/themes/"@,
        ),
{
}

/// Copying the selection copies the lines of the selected tasks, or their bodies, in
/// the order on screen, each on a line of its own.
pub proof fn law_copied_lines(
    visible: Seq<usize>,
    selected: Seq<usize>,
    tasks: Seq<Task>,
    abs: usize,
)
    ensures
        apply::picked(Seq::empty(), selected, tasks, false) == Seq::<Seq<char>>::empty(),
        selected.contains(abs) ==> apply::picked(visible.push(abs), selected, tasks, false)
            == apply::picked(visible, selected, tasks, false).push(tasks[abs as int].raw@),
        selected.contains(abs) ==> apply::picked(visible.push(abs), selected, tasks, true)
            == apply::picked(visible, selected, tasks, true).push(tasks[abs as int].body@),
        !selected.contains(abs) ==> apply::picked(visible.push(abs), selected, tasks, false)
            == apply::picked(visible, selected, tasks, false),
{
    assert(visible.push(abs).drop_last() =~= visible);
}

/// What is said of a copy: how many tasks it took, where more than one, and whether
/// only their bodies.
pub proof fn law_copies_are_reported(count: usize, why: Seq<char>, body_only: bool)
    ensures
        apply::copied_message(false, 1, Ok(())) == "copied"@,
        apply::copied_message(true, 1, Ok(())) == "copied (body)"@,
        count != 1 ==> apply::copied_message(false, count, Ok(())) == "copied "@ + text::number(
            count as nat,
            10,
        ),
        count != 1 ==> apply::copied_message(true, count, Ok(())) == "copied "@ + text::number(
            count as nat,
            10,
        ) + " (body)"@,
        apply::copied_message(body_only, count, Err(why)) == "copy failed: "@ + why,
{
    reveal_strlit("copied");
    reveal_strlit(" (body)");
    reveal_strlit("copied (body)");
    assert("copied"@ + " (body)"@ =~= "copied (body)"@);
}

/// A section of the help is its title, its rows in order, each with the keys before
/// what they do, and a blank line.
pub proof fn law_help_sections(s: SectionView, i: int)
    requires
        0 <= i < s.items.len(),
    ensures
        ({
            let lines = help::section_lines(s);
            &&& lines.len() == s.items.len() + 2
            &&& s.title@.len() > 0 ==> lines[0] == seq![
                SpanView { tint: Tint::Plain, content: "  "@ },
                SpanView { tint: Tint::Title, content: s.title@ },
            ]
            &&& s.title@.len() == 0 ==> lines[0] == seq![
                SpanView { tint: Tint::Plain, content: " "@ },
            ]
            &&& lines[i + 1] == seq![
                SpanView { tint: Tint::Plain, content: "    "@ },
                SpanView { tint: Tint::Key, content: help::padded(s.items[i].keys@, 18) },
                SpanView { tint: Tint::Text, content: s.items[i].what@ },
            ]
            &&& lines[s.items.len() as int + 1] == seq![
                SpanView { tint: Tint::Plain, content: " "@ },
            ]
        }),
{
}

/// Sections stand below each other in their order.
pub proof fn law_help_sections_follow_each_other(sections: Seq<SectionView>, s: SectionView)
    ensures
        help::sections_lines(sections.push(s)) == help::sections_lines(sections)
            + help::section_lines(s),
        help::sections_lines(Seq::empty()).len() == 0,
{
    assert(sections.push(s).drop_last() =~= sections);
}

/// What a tab and a row of the popup look like beside the one that stands out, and
/// the mark before what is being typed.
pub proof fn law_tints(paths: Seq<Seq<char>>, active: int, i: int, p: PopupView, typed: Seq<char>)
    requires
        0 <= i < paths.len(),
        p.prompt == Some(typed),
    ensures
        i != active ==> note_editor::tabs(paths, active)[i].tint == Tint::Tab,
        notes_popup::popup_rows(p)[0][0] == (SpanView { tint: Tint::Plain, content: "  "@ }),
        notes_popup::popup_rows(p)[0][1] == (SpanView { tint: Tint::Marker, content: "› "@ }),
{
}

/// With several pinned notes the hint says how to go from one to the next, and with
/// none at all only how to leave.
pub proof fn law_pinned_hints(pins: int)
    ensures
        pins > 1 ==> status::pinned_hint(Some(NoteEditorMode::Normal), pins)
            == "h/j/k/l or arrows move · i insert · Ctrl+S save · Tab/S-Tab switch tab · z unfocus · Z close tab"@,
        status::pinned_hint(None, pins) == "z unfocus · Z close pinned"@,
{
}

/// A column of the help is its sections below each other, without the blank line
/// behind the last.
pub proof fn law_help_column(sections: Seq<SectionView>, s: SectionView)
    ensures
        help::column(sections.push(s)) == help::sections_lines(sections) + help::section_lines(
            s,
        ).drop_last(),
{
    reveal_strlit(" ");
    law_help_sections_follow_each_other(sections, s);
    let all = help::sections_lines(sections.push(s));
    let own = help::section_lines(s);
    assert(all.last() == own.last());
    assert(own.last() == help::blank_line());
    assert(help::is_blank(own.last()));
    assert(all.drop_last() =~= help::sections_lines(sections) + own.drop_last());
}

} // verus!
