//! What is shown.
use tuxedo::app::io::Pending;
use tuxedo::app::note_editor::{NoteEditorMode, NoteEditorState};
use tuxedo::app::notes_popup::{NotePromptKind, NotesPopupState};
use tuxedo::app::palette::CommandPaletteState;
use tuxedo::app::types::{DialogInputMode, Mode, View};
use tuxedo::app::{App, Chord, Draft, Filter, Selection};
use tuxedo::todo::Task;
use tuxedo::ui::help::{pad_str, render_format, render_keys};
use tuxedo::ui::note_editor::{editor_title, render_editor, render_line, render_pinned};
use tuxedo::ui::notes_popup::{rows, title};
use tuxedo::ui::status::{
    chip_text, hint, hint_of_pinned, mode_label, render_command_line, right, update_suffix, widths,
};
use tuxedo::ui::{Span, Tint};

fn build_app() -> App {
    App {
        mode: Mode::Normal,
        view: View::List,
        cursor: 0,
        should_quit: false,
        visible: vec![0],
        tasks: vec![Task {
            raw: "(A) Buy milk".to_string(),
            body: "Buy milk".to_string(),
            done: false,
            priority: Some('A'),
            created_date: None,
            due: None,
            projects: vec![],
            contexts: vec![],
        }],
        archive: vec![],
        selection: Selection {
            selected: vec![],
            editing: None,
        },
        filter: Filter {
            project: None,
            context: None,
            search: String::new(),
        },
        chord: Chord { leader: None },
        draft: Draft {
            line: String::new(),
            input_mode: DialogInputMode::Insert,
            overlay: None,
            calendar_anchored: false,
            autocomplete: false,
        },
        command_palette: CommandPaletteState::default(),
        notes_popup: NotesPopupState::default(),
        pinned_note: None,
        pinned_focus: false,
        notes_dir: "/notes".to_string(),
        file_path: "todo.txt".to_string(),
        theme_count: 1,
        flash_text: None,
        pending: Pending::Nothing,
    }
}

fn flat(line: &[Span]) -> String {
    line.iter().map(|s| s.content.as_str()).collect()
}

fn screen(lines: &[Vec<Span>]) -> String {
    lines.iter().map(|l| flat(l) + "\n").collect()
}

fn note(name: &str, content: &str) -> NoteEditorState {
    NoteEditorState::load(
        format!("/n/{name}"),
        Some(content.to_string()),
        NoteEditorMode::Normal,
    )
}

#[test]
fn normal_mode_hint_advertises_notes_action() {
    let text = hint(&build_app());
    assert!(
        text.contains("o notes"),
        "Normal-mode hint bar should advertise the notes action ('o notes'): {text}"
    );
}

#[test]
fn the_label_names_the_mode_the_archive_and_the_message() {
    let mut app = build_app();
    assert_eq!(mode_label(&app), "NORMAL");
    app.mode = Mode::Insert;
    assert_eq!(mode_label(&app), "INSERT");
    app.draft.input_mode = DialogInputMode::Normal;
    assert_eq!(mode_label(&app), "NORMAL");
    app.mode = Mode::Notes;
    assert_eq!(mode_label(&app), "NOTES");
    app.notes_popup.active_editor = Some(note("a.md", ""));
    assert_eq!(mode_label(&app), "NORMAL");
    app.view = View::Archive;
    app.flash_text = Some("copied".to_string());
    assert_eq!(mode_label(&app), "ARCHIVE · copied");
    app.chord.leader = Some('g');
    assert_eq!(chip_text(&app), " ARCHIVE · copied g… ");
}

#[test]
fn the_hint_follows_the_pinned_note() {
    let mut app = build_app();
    app.pinned_note = Some(note("a.md", ""));
    assert!(hint(&app).ends_with(" · Z close pinned"));
    app.pinned_focus = true;
    assert_eq!(
        hint(&app),
        "h/j/k/l or arrows move · i insert · Ctrl+S save · z unfocus · Z close pinned"
    );
    assert!(hint_of_pinned(Some(NoteEditorMode::Normal), 2).contains("switch tab"));
    assert_eq!(hint_of_pinned(None, 0), "z unfocus · Z close pinned");
}

#[test]
fn the_right_part_counts_tasks() {
    let mut app = build_app();
    assert_eq!(right(&app, "2026-05-06", "tuxedo 1.0"), "1 open · 2026-05-06 · tuxedo 1.0");
    app.selection.selected = vec![0];
    app.view = View::Archive;
    assert_eq!(
        right(&app, "2026-05-06", "tuxedo 1.0"),
        "0 archived · 1 selected · 2026-05-06 · tuxedo 1.0"
    );
    assert_eq!(update_suffix("v2"), " · ↑ v2 (tuxedo update)");
    assert_eq!(
        render_command_line(&app),
        "  1 matches · Enter accept · Esc cancel"
    );
}

#[test]
fn the_middle_gets_what_is_left() {
    let w = widths(100, " NORMAL ", "1 open", None);
    assert_eq!((w.chip, w.middle, w.right), (8, 85, 7));
    let w = widths(100, " NORMAL ", "1 open", Some(" · ↑"));
    assert_eq!((w.chip, w.middle, w.right), (8, 81, 11));
    let w = widths(10, " NORMAL ", "1 open", None);
    assert_eq!(w.middle, 0);
}

#[test]
fn editing_section_advertises_the_o_notes_entry_point() {
    let text = screen(&render_keys(100));
    assert!(
        text.contains("n / o") && text.contains("new task / open notes"),
        "EDITING section should advertise 'o' → open notes, paired onto the 'n' row: {text}"
    );
}

#[test]
fn the_right_column_of_the_help_begins_in_the_middle() {
    let lines = render_keys(100);
    assert_eq!(flat(&lines[0]).chars().take(12).collect::<String>(), "  NAVIGATION");
    assert_eq!(flat(&lines[0]).chars().skip(50).collect::<String>(), "  VIEW");
    let format = render_format(100);
    assert_eq!(format.len(), 5);
    assert!(flat(&format[0]).starts_with("  FORMAT"));
    assert_eq!(
        flat(&format[1]).chars().skip(50).collect::<String>(),
        "    due:YYYY-MM-DD    due date (+1w = range)"
    );
    assert_eq!(pad_str("ab", 4), "ab  ");
    assert_eq!(pad_str("abcde", 4), "abcde");
}

#[test]
fn create_prompt_uses_new_note_title_with_no_md_explanation() {
    let mut state = NotesPopupState::default();
    state.begin_prompt(NotePromptKind::Create, String::new());
    for c in "readme".chars() {
        state.prompt_push(c);
    }
    let text = format!("{}\n{}", title(&state), screen(&rows(&state)));
    assert!(
        text.contains("NEW NOTE"),
        "create prompt should title itself NEW NOTE like ADD TASK: {text}"
    );
    assert!(
        !text.to_lowercase().contains(".md"),
        "create prompt should no longer explain .md auto-append: {text}"
    );
    assert!(
        text.contains("› readme") || text.contains("›readme"),
        "create prompt should show the ADD TASK-style › input marker: {text}"
    );
}

#[test]
fn rename_prompt_uses_rename_note_title() {
    let mut state = NotesPopupState::default();
    state.begin_prompt(NotePromptKind::Rename { index: 0 }, "old".to_string());
    let text = format!("{}\n{}", title(&state), screen(&rows(&state)));
    assert!(
        text.contains("RENAME NOTE"),
        "rename prompt should title itself RENAME NOTE like EDIT TASK: {text}"
    );
    assert!(
        !text.to_lowercase().contains(".md"),
        "rename prompt should no longer explain .md auto-append: {text}"
    );
}

#[test]
fn the_popup_shows_its_files_and_its_question() {
    let mut state = NotesPopupState::default();
    assert_eq!(title(&state), " NOTES ");
    assert_eq!(screen(&rows(&state)), "  No notes yet\n");
    state.files = vec!["/n/a.md".to_string(), "/n/b.md".to_string()];
    state.cursor = 1;
    let shown = rows(&state);
    assert_eq!(screen(&shown), "  a.md\n  b.md\n");
    assert_eq!(shown[0][0].tint, Tint::Text);
    assert_eq!(shown[1][0].tint, Tint::Selected);
    state.begin_delete_confirm();
    assert_eq!(screen(&rows(&state)), "  Delete b.md? (y/n)\n");
}

#[test]
fn render_pinned_shows_no_tab_bar_for_a_single_pinned_note() {
    assert_eq!(render_pinned(&vec!["/n/solo.md".to_string()], 0), None);
    assert_eq!(editor_title(&note("solo.md", "body")), " solo.md ");
}

#[test]
fn render_pinned_shows_a_tab_bar_listing_every_tab_when_more_than_one_is_pinned() {
    let paths = vec!["/n/first.md".to_string(), "/n/second.md".to_string()];
    let bar = render_pinned(&paths, 1).expect("tab bar");
    let text = format!("{}\n{}", flat(&bar), editor_title(&note("second.md", "body")));
    assert!(text.contains("first.md"), "inactive tab label shown: {text}");
    assert_eq!(
        text.matches("second.md").count(),
        2,
        "active tab shown in the strip AND as the editor's title: {text}"
    );
}

#[test]
fn render_pinned_highlights_the_active_tab_with_the_cursor_theme_color() {
    let paths = vec!["/n/first.md".to_string(), "/n/second.md".to_string()];
    let bar = render_pinned(&paths, 0).expect("tab bar");
    assert_eq!(bar[0].tint, Tint::Selected);
    assert_eq!(bar[1].tint, Tint::Tab);
}

#[test]
fn the_cursor_is_marked_and_always_on_screen() {
    assert_eq!(render_line("abc", false, 1).len(), 1);
    let line = render_line("abc", true, 1);
    assert_eq!(
        line.iter().map(|s| (s.tint, s.content.as_str())).collect::<Vec<_>>(),
        vec![(Tint::Text, "a"), (Tint::CursorCell, "b"), (Tint::Text, "c")]
    );
    let line = render_line("añ", true, 2);
    assert_eq!(flat(&line), "añ ");
    assert_eq!(line[1].tint, Tint::CursorBlank);

    let mut editor = note("a.md", "0\n1\n2\n3\n4\n");
    assert_eq!(screen(&render_editor(&editor, 3)), "0\n1\n2\n");
    for _ in 0..3 {
        editor.move_down();
    }
    assert_eq!(screen(&render_editor(&editor, 3)), "1\n2\n3\n");
    assert!(render_editor(&editor, 0).is_empty());
}
