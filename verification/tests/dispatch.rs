//! What keystrokes and commands do, and what they ask for.
use tuxedo::action::{Action, RecAction};
use tuxedo::app::io::{Io, Pending};
use tuxedo::app::notes_popup::NotesPopupState;
use tuxedo::app::palette::CommandPaletteState;
use tuxedo::app::types::{DialogInputMode, Mode, OverlayKind, View};
use tuxedo::app::{App, Chord, Draft, Filter, Selection};
use tuxedo::dispatch::actions::{resolve_normal_key, ResolvedKey};
use tuxedo::dispatch::apply::{apply_action, copied, copy_current_task, copy_payload};
use tuxedo::dispatch::line::{finish_add, handle_insert, AddOutcome};
use tuxedo::dispatch::request::{Op, Request, TextOp};
use tuxedo::dispatch::screens::{
    finish_create, finish_sample, finish_share, handle_command_palette, handle_help, handle_pick,
    handle_pick_theme, handle_prompt, handle_search, handle_settings, handle_welcome,
};
use tuxedo::dispatch::{handle_key, KeyContext};
use tuxedo::keys::{
    is_exit_key, resolve_edit_key, DraftEffect, EditAction, KeyCode, KeyEvent, KeyModifiers,
};
use tuxedo::run::{
    end_round, finish_reload, may_poll_config, must_draw, next_timeout, poll_config_reload,
    start_of, theme_message, Polled, Reload, Round, Start, Watched, Woken,
};
use tuxedo::todo::Task;

fn task(raw: &str) -> Task {
    let mut body: Vec<&str> = Vec::new();
    let mut projects = Vec::new();
    let mut contexts = Vec::new();
    let mut priority = None;
    let mut due = None;
    let done = raw.starts_with("x ");
    for (i, word) in raw.split_whitespace().enumerate() {
        if done && i < 3 {
            continue;
        }
        if i == 0 && word.len() == 3 && word.starts_with('(') && word.ends_with(')') {
            priority = word.chars().nth(1);
        } else if let Some(p) = word.strip_prefix('+') {
            projects.push(p.to_string());
        } else if let Some(c) = word.strip_prefix('@') {
            contexts.push(c.to_string());
        } else if let Some(d) = word.strip_prefix("due:") {
            due = Some(d.to_string());
        } else if !word.contains(':') {
            body.push(word);
        }
    }
    Task {
        raw: raw.to_string(),
        body: body.join(" "),
        done,
        priority,
        created_date: None,
        due,
        projects,
        contexts,
    }
}

fn app_with(lines: &[&str]) -> App {
    let tasks: Vec<Task> = lines.iter().map(|l| task(l)).collect();
    App {
        mode: Mode::Normal,
        view: View::List,
        cursor: 0,
        should_quit: false,
        visible: (0..tasks.len()).collect(),
        tasks,
        archive: Vec::new(),
        selection: Selection {
            selected: Vec::new(),
            editing: None,
        },
        filter: Filter {
            project: None,
            context: None,
            search: String::new(),
        },
        chord: Chord { leader: None },
        draft: Draft {
            line: String::new(),
            input_mode: DialogInputMode::Insert,
            overlay: None,
            calendar_anchored: false,
            autocomplete: false,
        },
        command_palette: CommandPaletteState::default(),
        notes_popup: NotesPopupState::default(),
        pinned_note: None,
        pinned_focus: false,
        notes_dir: "/notes".to_string(),
        file_path: "todo.txt".to_string(),
        theme_count: 3,
        flash_text: None,
        pending: Pending::Nothing,
    }
}

fn build_app() -> App {
    app_with(&["a", "b", "c"])
}

const NONE: KeyModifiers = KeyModifiers {
    control: false,
    alt: false,
    other: false,
};

fn press(code: KeyCode) -> KeyEvent {
    KeyEvent::new(code, NONE)
}

fn key(c: char) -> KeyEvent {
    press(KeyCode::Char(c))
}

fn ctrl(c: char) -> KeyEvent {
    let modifiers = KeyModifiers {
        control: true,
        alt: false,
        other: false,
    };
    KeyEvent::new(KeyCode::Char(c), modifiers)
}

const PLAIN: KeyContext = KeyContext {
    reloaded: false,
    custom: None,
    custom_recurrence: None,
};

fn alt(c: char) -> KeyEvent {
    let modifiers = KeyModifiers {
        control: false,
        alt: true,
        other: false,
    };
    KeyEvent::new(KeyCode::Char(c), modifiers)
}

fn resolve(app: &mut App, key: KeyEvent) -> Option<Action> {
    resolve_normal_key(app, key, None)
}

fn ops(list: &[Op]) -> Vec<Request> {
    list.iter().map(|op| Request::Do(*op)).collect()
}

fn text(op: TextOp, s: &str) -> Request {
    Request::Text(op, s.to_string())
}

/// The line editor, as far as these keys need it: the cursor stays at the end.
fn edit(line: &mut String, requests: &[Request]) {
    for r in requests {
        match r {
            Request::Do(Op::Edit(EditAction::Insert(c))) => line.push(*c),
            Request::Do(Op::Edit(EditAction::DeleteBackward)) => {
                line.pop();
            }
            Request::Do(Op::Edit(EditAction::KillToStart)) => line.clear(),
            _ => {}
        }
    }
}

fn archived(done: &[&str]) -> App {
    let mut app = app_with(&["a"]);
    app.archive = done.iter().map(|l| task(l)).collect();
    app.view = View::Archive;
    app.visible = (0..done.len()).collect();
    app
}

fn due_app() -> App {
    app_with(&["Buy milk due:2026-06-30"])
}

// ---- the welcome screen ------------------------------------------------------------------

#[test]
fn welcome_c_creates_cwd_file_and_enters_normal() {
    let mut app = app_with(&[]);
    app.mode = Mode::Welcome;
    assert_eq!(handle_welcome(&mut app, key('c')), ops(&[Op::CreateFile]));
    finish_create(&mut app, Ok(()));
    assert_eq!(app.mode, Mode::Normal);
    assert_eq!(app.file_path, "todo.txt", "`c` keeps the cwd target path");
    assert!(!app.should_quit);
}

#[test]
fn welcome_c_that_fails_says_why_and_stays() {
    let mut app = app_with(&[]);
    app.mode = Mode::Welcome;
    finish_create(&mut app, Err("denied".to_string()));
    assert_eq!(app.mode, Mode::Welcome);
    assert_eq!(app.flash_active(), Some("could not create todo.txt: denied"));
}

#[test]
fn welcome_s_opens_sample_and_enters_normal() {
    let mut app = app_with(&[]);
    app.mode = Mode::Welcome;
    assert_eq!(handle_welcome(&mut app, key('s')), ops(&[Op::OpenSample]));
    finish_sample(&mut app, Ok(()));
    assert_eq!(app.mode, Mode::Normal);
    finish_sample(&mut app, Err("gone".to_string()));
    assert_eq!(app.flash_active(), Some("could not open sample: gone"));
}

#[test]
fn welcome_q_and_esc_quit_without_creating_anything() {
    let mut app = app_with(&[]);
    assert!(handle_welcome(&mut app, key('q')).is_empty());
    assert!(app.should_quit, "`q` must quit");

    let mut app = app_with(&[]);
    assert!(handle_welcome(&mut app, press(KeyCode::Esc)).is_empty());
    assert!(app.should_quit, "Esc must quit");

    let mut app = app_with(&[]);
    assert!(handle_welcome(&mut app, key('x')).is_empty());
    assert!(!app.should_quit, "a stray key picks nothing");
}

// ---- settings, pickers, configuration ------------------------------------------------------

#[test]
fn settings_hinted_keys_apply_and_dialog_stays_open() {
    let mut app = build_app();
    app.mode = Mode::Settings;

    assert_eq!(
        handle_settings(&mut app, key('T')),
        ops(&[Op::CycleTheme]),
        "`T` must cycle the theme, per the settings screen's own hint"
    );
    assert_eq!(
        app.mode,
        Mode::Settings,
        "adjusting a setting must not close the dialog"
    );

    assert_eq!(
        handle_settings(&mut app, key('H')),
        ops(&[Op::ToggleShowDone, Op::RecomputeVisible, Op::SavePrefs]),
        "`H` must toggle show-done, per the settings screen's own hint"
    );
    assert_eq!(app.mode, Mode::Settings);

    handle_settings(&mut app, key('q'));
    assert_eq!(app.mode, Mode::Normal, "`q` must still close the dialog");
}

#[test]
fn pick_theme_t_cycles_like_j_and_esc_still_cancels() {
    let mut app = build_app();
    app.mode = Mode::PickTheme;
    let step = ops(&[Op::PickThemeStep { forward: true }]);
    assert_eq!(handle_pick_theme(&app, key('T')), step);
    assert_eq!(handle_pick_theme(&app, key('j')), step);
    assert_eq!(app.mode, Mode::PickTheme, "`T` must not close the dialog");
    assert_eq!(
        handle_pick_theme(&app, press(KeyCode::Esc)),
        ops(&[Op::PickThemeCancel])
    );
}

#[test]
fn only_projects_and_contexts_are_renamed_from_their_pickers() {
    let mut app = build_app();
    app.mode = Mode::PickProject;
    assert_eq!(handle_pick(&app, key('r')), ops(&[Op::BeginRenameProject]));
    app.mode = Mode::PickContext;
    assert_eq!(handle_pick(&app, key('r')), ops(&[Op::BeginRenameContext]));
    app.mode = Mode::PickSavedFilter;
    assert!(handle_pick(&app, key('r')).is_empty());
    assert_eq!(handle_pick(&app, press(KeyCode::Enter)), ops(&[Op::PickAccept]));
}

#[test]
fn config_reload_is_deferred_while_pick_theme_is_open() {
    let mut app = build_app();
    app.mode = Mode::PickTheme;
    assert!(!may_poll_config(&app));
    assert_eq!(
        poll_config_reload(&app, Some(Watched::Changed), true),
        Reload::No,
        "a reload must not be applied while the picker's live preview is unsaved"
    );

    app.mode = Mode::Normal;
    assert!(may_poll_config(&app));
    assert_eq!(
        poll_config_reload(&app, Some(Watched::Changed), true),
        Reload::Read,
        "the queued signal must still be applied once the picker closes"
    );
    assert_eq!(poll_config_reload(&app, Some(Watched::Changed), false), Reload::Redraw);
    finish_reload(&mut app, Ok(()));
    assert_eq!(app.flash_active(), Some("config reloaded"));
    finish_reload(&mut app, Err("bad".to_string()));
    assert_eq!(app.flash_active(), Some("config reload failed: bad"));
}

#[test]
fn disconnected_config_watcher_is_ignored() {
    let app = build_app();
    assert_eq!(poll_config_reload(&app, Some(Watched::Gone), true), Reload::No);
    assert_eq!(poll_config_reload(&app, Some(Watched::Unchanged), true), Reload::No);
    assert_eq!(poll_config_reload(&app, None, true), Reload::No);
}

#[test]
fn the_wait_for_a_key_ends_with_the_next_deadline() {
    assert_eq!(next_timeout(None, None, 7), 250_000_000);
    assert_eq!(next_timeout(Some(100), None, 40), 60);
    assert_eq!(next_timeout(Some(100), Some(90), 40), 50);
    assert_eq!(next_timeout(None, Some(10), 40), 0);
    assert_eq!(next_timeout(Some(900_000_000), None, 0), 250_000_000);
}

#[test]
fn arguments_choose_how_the_program_starts() {
    assert_eq!(start_of(None), Start::Open);
    assert_eq!(start_of(Some("todo.txt")), Start::Open);
    assert_eq!(start_of(Some("")), Start::Open);
    assert_eq!(start_of(Some("-h")), Start::Help);
    assert_eq!(start_of(Some("--help")), Start::Help);
    assert_eq!(start_of(Some("-V")), Start::Version);
    assert_eq!(start_of(Some("--version")), Start::Version);
    assert_eq!(start_of(Some("update")), Start::Update);
    assert_eq!(start_of(Some("--sample")), Start::Sample);
    assert_eq!(start_of(Some("--what")), Start::UnknownOption);
}

#[test]
fn theme_warnings_are_counted() {
    assert_eq!(theme_message(&vec![]), None);
    assert_eq!(theme_message(&vec!["one".to_string()]), Some("one".to_string()));
    assert_eq!(
        theme_message(&vec!["a".to_string(), "b".to_string()]),
        Some("2 theme(s) skipped — check ~/.config/tuxedo/themes/".to_string())
    );
}

// ---- the keys of the main list ---------------------------------------------------------------

#[test]
fn plain_keys_resolve_to_their_actions() {
    let mut app = build_app();
    assert_eq!(resolve(&mut app, key('q')), Some(Action::Quit));
    assert_eq!(resolve(&mut app, key('j')), Some(Action::CursorDown));
    assert_eq!(resolve(&mut app, key('J')), Some(Action::MoveTaskDown));
    assert_eq!(resolve(&mut app, key('K')), Some(Action::MoveTaskUp));
    assert_eq!(resolve(&mut app, key('?')), Some(Action::OpenHelp));
    assert_eq!(resolve(&mut app, ctrl('d')), Some(Action::HalfPageDown));
    assert_eq!(resolve(&mut app, key('n')), Some(Action::BeginAdd));
    assert_eq!(resolve(&mut app, key('a')), Some(Action::ToggleArchiveView));
    assert_eq!(resolve(&mut app, key('A')), Some(Action::ArchiveCompleted));
    assert_eq!(resolve(&mut app, key('S')), Some(Action::CycleSort));
}

#[test]
fn custom_keybinds_override_builtins() {
    let mut app = build_app();
    let custom = Some(ResolvedKey::Action(Action::OpenHelp));
    assert_eq!(
        resolve_normal_key(&mut app, key('q'), custom),
        Some(Action::OpenHelp)
    );
    assert_eq!(resolve_normal_key(&mut app, key('q'), Some(ResolvedKey::Pending)), None);
    assert_eq!(resolve(&mut app, ctrl('d')), Some(Action::HalfPageDown));
    assert_eq!(resolve(&mut app, key('n')), Some(Action::BeginAdd));
    assert_eq!(resolve(&mut app, key('r')), Some(Action::Reschedule));
    assert_eq!(resolve(&mut app, key('a')), Some(Action::ToggleArchiveView));
    assert_eq!(resolve(&mut app, key('A')), Some(Action::ArchiveCompleted));
    assert_eq!(resolve(&mut app, key('S')), Some(Action::CycleSort));
}

#[test]
fn capital_a_archives_only_when_completed_tasks_exist() {
    let mut app = build_app();
    assert!(apply_action(&mut app, Action::ArchiveCompleted).is_empty());
    assert_eq!(app.flash_active(), Some("no completed tasks to archive"));
    assert_eq!(app.tasks.len(), 3);

    let mut app = app_with(&["x 2026-05-08 done one", "b"]);
    assert_eq!(
        apply_action(&mut app, Action::ArchiveCompleted),
        ops(&[Op::ArchiveCompleted]),
        "completed task must be archived"
    );

    let mut app = archived(&["x 2026-05-02 2026-04-02 done"]);
    assert!(apply_action(&mut app, Action::ArchiveCompleted).is_empty());
    assert_eq!(app.flash_active(), Some("already in archive"));
}

#[test]
fn lowercase_l_returns_to_list_from_any_view() {
    let mut app = archived(&["x 2026-05-02 2026-04-02 done"]);
    assert_eq!(
        apply_action(&mut app, Action::GoList),
        ops(&[Op::SetView(View::List)])
    );
}

#[test]
fn lowercase_a_toggles_archive_view() {
    let mut app = build_app();
    assert_eq!(
        apply_action(&mut app, Action::ToggleArchiveView),
        ops(&[Op::SetView(View::Archive)])
    );
    app.view = View::Archive;
    assert_eq!(
        apply_action(&mut app, Action::ToggleArchiveView),
        ops(&[Op::SetView(View::List)])
    );
}

#[test]
fn gg_chord_only_fires_on_second_press() {
    let mut app = build_app();
    assert_eq!(resolve(&mut app, key('g')), None);
    assert_eq!(resolve(&mut app, key('g')), Some(Action::CursorTop));
}

#[test]
fn fp_chord_routes_to_pick_project() {
    let mut app = build_app();
    assert_eq!(resolve(&mut app, key('f')), Some(Action::ArmF));
    apply_action(&mut app, Action::ArmF);
    assert_eq!(resolve(&mut app, key('p')), Some(Action::PickProject));
}

#[test]
fn p_without_chord_cycles_priority() {
    let mut app = build_app();
    assert_eq!(resolve(&mut app, key('p')), Some(Action::CyclePriority));
}

#[test]
fn unknown_key_returns_none() {
    let mut app = build_app();
    assert_eq!(resolve(&mut app, press(KeyCode::Other)), None);
}

#[test]
fn yy_chord_only_fires_on_second_press() {
    let mut app = build_app();
    assert_eq!(resolve(&mut app, key('y')), None);
    assert_eq!(resolve(&mut app, key('y')), Some(Action::CopyLine));
}

#[test]
fn yb_chord_routes_to_copy_body() {
    let mut app = build_app();
    assert_eq!(resolve(&mut app, key('y')), None);
    assert_eq!(resolve(&mut app, key('b')), Some(Action::CopyBody));
}

#[test]
fn visual_copy_payload_uses_display_order() {
    let mut app = app_with(&["(B) Second @phone", "(A) First +work"]);
    app.visible = vec![1, 0];
    app.mode = Mode::Visual;
    app.selection.toggle(0);
    app.selection.toggle(1);

    assert_eq!(
        copy_payload(&app, false).as_deref(),
        Some("(A) First +work\n(B) Second @phone")
    );
    assert_eq!(copy_payload(&app, true).as_deref(), Some("First\nSecond"));
    assert_eq!(
        copy_current_task(&mut app, true),
        vec![text(TextOp::Copy { body_only: true, count: 2 }, "First\nSecond")]
    );
}

#[test]
fn no_task_is_selected_twice() {
    let mut app = build_app();
    app.mode = Mode::Visual;
    for abs in [2, 0, 2, 1, 2] {
        app.cursor = abs;
        assert!(apply_action(&mut app, Action::ToggleSelected).is_empty());
    }
    assert_eq!(app.selection.selected, vec![0, 1, 2]);
    assert_eq!(copy_payload(&app, false).as_deref(), Some("a\nb\nc"));
    app.selection.toggle(0);
    assert!(!app.selection.is_selected(0));
    assert!(app.selection.is_selected(1));
    assert_eq!(copy_payload(&app, false).as_deref(), Some("b\nc"));
}

#[test]
fn visual_copy_rejects_hidden_selections() {
    let mut app = app_with(&["first +work", "hidden +home"]);
    app.mode = Mode::Visual;
    app.selection.toggle(0);
    app.selection.toggle(1);
    app.visible = vec![0];

    assert_eq!(copy_payload(&app, false), None);
    copy_current_task(&mut app, false);
    assert_eq!(app.flash_active(), Some("selection includes hidden tasks"));
}

#[test]
fn copies_say_what_they_took() {
    let mut app = build_app();
    assert_eq!(
        apply_action(&mut app, Action::CopyLine),
        vec![text(TextOp::Copy { body_only: false, count: 1 }, "a")]
    );
    for (body_only, count, message) in [
        (false, 1, "copied"),
        (true, 1, "copied (body)"),
        (false, 12, "copied 12"),
        (true, 12, "copied 12 (body)"),
    ] {
        copied(&mut app, body_only, count, Ok(()));
        assert_eq!(app.flash_active(), Some(message));
    }
    copied(&mut app, false, 1, Err("no clipboard".to_string()));
    assert_eq!(app.flash_active(), Some("copy failed: no clipboard"));
}

#[test]
fn plain_b_without_y_armed_is_unhandled() {
    let mut app = build_app();
    assert_eq!(resolve(&mut app, key('b')), None);
}

#[test]
fn cursor_actions_clamp_to_visible_range() {
    let mut app = build_app();
    apply_action(&mut app, Action::CursorBottom);
    assert_eq!(app.cursor, 2);
    apply_action(&mut app, Action::CursorDown);
    assert_eq!(app.cursor, 2);
    apply_action(&mut app, Action::CursorTop);
    assert_eq!(app.cursor, 0);
    apply_action(&mut app, Action::CursorUp);
    assert_eq!(app.cursor, 0);
    apply_action(&mut app, Action::HalfPageDown);
    assert_eq!(app.cursor, 2);
    apply_action(&mut app, Action::HalfPageUp);
    assert_eq!(app.cursor, 0);
}

#[test]
fn cursor_navigation_works_in_archive() {
    let mut app = archived(&["x 2026-05-01 2026-04-01 first", "x 2026-05-02 2026-04-02 second"]);
    assert_eq!(app.cursor, 0);
    apply_action(&mut app, Action::CursorDown);
    assert_eq!(app.cursor, 1, "Archive view must allow CursorDown");
    apply_action(&mut app, Action::CursorTop);
    assert_eq!(app.cursor, 0);
}

#[test]
fn archive_x_unarchives_task_under_cursor() {
    let mut app = archived(&["x 2026-05-02 2026-04-02 done one"]);
    assert_eq!(
        apply_action(&mut app, Action::ToggleComplete),
        ops(&[Op::Unarchive(0)])
    );
}

#[test]
fn archive_dd_permanently_deletes_task_under_cursor() {
    let mut app = archived(&["x 2026-05-02 2026-04-02 done one"]);
    assert_eq!(
        apply_action(&mut app, Action::Delete),
        ops(&[Op::ArchiveDelete(0)])
    );
    assert_eq!(app.tasks.len(), 1, "todo.txt must be untouched");
}

#[test]
fn archive_mutations_flash_readonly() {
    let mut app = archived(&["x 2026-05-02 2026-04-02 done one"]);
    for action in [Action::BeginEdit, Action::CyclePriority, Action::MoveTaskDown] {
        app.flash_text = None;
        assert!(apply_action(&mut app, action).is_empty());
        assert_eq!(app.flash_active(), Some("read-only in archive"));
    }
    assert!(app.archive[0].done);
}

#[test]
fn rescheduling_is_refused_in_the_archive() {
    let mut app = archived(&["x 2026-05-02 2026-04-02 done one"]);
    app.tasks = vec![task("still open due:2026-06-01")];
    assert!(apply_action(&mut app, Action::Reschedule).is_empty());
    assert_eq!(app.flash_active(), Some("read-only in archive"));
    assert_eq!(app.mode, Mode::Normal);
    assert_eq!(app.selection.editing, None);
}

#[test]
fn lowercase_r_reschedules_task_with_due_date() {
    let mut app = due_app();
    assert_eq!(app.tasks.len(), 1);
    assert_eq!(app.tasks[0].due.as_deref(), Some("2026-06-30"));
    assert_eq!(app.mode, Mode::Normal);

    assert_eq!(resolve(&mut app, key('r')), Some(Action::Reschedule));
    assert_eq!(
        apply_action(&mut app, Action::Reschedule),
        vec![
            text(TextOp::SetDraftInsert, "Buy milk due:2026-06-30"),
            Request::Do(Op::OpenDueCalendar)
        ]
    );
    assert_eq!(app.mode, Mode::Insert);
    assert_eq!(app.selection.editing, Some(0));
}

#[test]
fn lowercase_r_reschedules_task_without_due_date() {
    let mut app = build_app();
    assert_eq!(app.tasks.len(), 3);
    assert_eq!(app.tasks[0].due.as_deref(), None);
    assert_eq!(app.mode, Mode::Normal);

    assert_eq!(resolve(&mut app, key('r')), Some(Action::Reschedule));
    assert_eq!(
        apply_action(&mut app, Action::Reschedule),
        vec![text(TextOp::SetDraftInsert, "a"), Request::Do(Op::OpenDueCalendar)]
    );
    assert_eq!(app.mode, Mode::Insert);

    let mut app = app_with(&[]);
    assert!(apply_action(&mut app, Action::Reschedule).is_empty());
    assert_eq!(app.mode, Mode::Normal);
}

#[test]
fn begin_add_seeds_draft_from_active_filter() {
    let mut app = build_app();
    app.filter.project = Some("work".to_string());
    app.filter.context = Some("home".to_string());
    let requests = apply_action(&mut app, Action::BeginAdd);
    assert_eq!(app.mode, Mode::Insert);
    assert_eq!(requests, vec![text(TextOp::SetDraftInsert, "+work @home ")]);
}

#[test]
fn begin_add_leaves_draft_empty_without_a_filter() {
    let mut app = build_app();
    let requests = apply_action(&mut app, Action::BeginAdd);
    assert_eq!(app.mode, Mode::Insert);
    assert_eq!(requests, vec![text(TextOp::SetDraftInsert, "")]);
}

#[test]
fn capital_w_toggles_week_start() {
    let mut app = build_app();
    assert_eq!(resolve(&mut app, key('W')), Some(Action::ChangeWeekStart));
    assert_eq!(
        apply_action(&mut app, Action::ChangeWeekStart),
        ops(&[Op::ToggleWeekStart, Op::RecomputeVisible])
    );
}

#[test]
fn lowercase_o_resolves_to_open_notes_and_capital_o_is_freed() {
    let mut app = build_app();
    assert_eq!(resolve(&mut app, key('o')), Some(Action::OpenNotes));
    assert_eq!(resolve(&mut app, key('O')), None);
}

#[test]
fn resolve_z_and_shift_z_resolve_to_pin_actions() {
    let mut app = build_app();
    assert_eq!(resolve(&mut app, key('z')), Some(Action::TogglePinFocus));
    assert_eq!(resolve(&mut app, key('Z')), Some(Action::ClosePinnedNote));
}

#[test]
fn escape_leaves_the_filter_then_the_search_then_the_selection_then_the_mode() {
    let mut app = build_app();
    app.filter.project = Some("p".to_string());
    app.filter.search = "s".to_string();
    app.selection.selected = vec![1];
    app.mode = Mode::Visual;
    assert_eq!(
        apply_action(&mut app, Action::EscapeStack),
        ops(&[Op::ClearProjectFilter, Op::ClearContextFilter])
    );
    app.filter.project = None;
    assert_eq!(
        apply_action(&mut app, Action::EscapeStack),
        ops(&[Op::ClearDraft, Op::ClearSearch])
    );
    app.filter.search = String::new();
    assert!(apply_action(&mut app, Action::EscapeStack).is_empty());
    assert!(app.selection.selected.is_empty());
    assert!(apply_action(&mut app, Action::EscapeStack).is_empty());
    assert_eq!(app.mode, Mode::Normal);
    app.view = View::Archive;
    assert_eq!(
        apply_action(&mut app, Action::EscapeStack),
        ops(&[Op::SetView(View::List)])
    );
}

#[test]
fn selected_tasks_take_the_commands_in_visual_mode() {
    let mut app = build_app();
    apply_action(&mut app, Action::ToggleVisual);
    assert_eq!(app.mode, Mode::Visual);
    apply_action(&mut app, Action::ToggleSelected);
    assert_eq!(app.selection.selected, vec![0]);
    assert!(app.selection.is_selected(0));
    assert_eq!(
        apply_action(&mut app, Action::ToggleComplete),
        ops(&[Op::CompleteSelected])
    );
    assert_eq!(apply_action(&mut app, Action::Delete), ops(&[Op::DeleteSelected]));
    apply_action(&mut app, Action::ToggleSelected);
    assert!(app.selection.selected.is_empty());
    assert_eq!(apply_action(&mut app, Action::Delete), ops(&[Op::Delete(0)]));
}

#[test]
fn commands_that_need_something_say_what_is_missing() {
    let mut app = build_app();
    app.theme_count = 1;
    assert!(apply_action(&mut app, Action::OpenThemePicker).is_empty());
    assert_eq!(app.flash_active(), Some("only one theme"));
    assert!(apply_action(&mut app, Action::SaveCurrentFilter).is_empty());
    assert_eq!(app.flash_active(), Some("no active search to save"));
    app.filter.search = "milk".to_string();
    assert_eq!(
        apply_action(&mut app, Action::SaveCurrentFilter),
        ops(&[Op::ClearDraft])
    );
    assert_eq!(app.mode, Mode::PromptSaveFilter);
}

#[test]
fn sharing_is_shown_once_it_started() {
    let mut app = build_app();
    assert_eq!(apply_action(&mut app, Action::OpenShare), ops(&[Op::StartShare]));
    finish_share(&mut app, Err("no network".to_string()));
    assert_eq!(app.flash_active(), Some("share unavailable: no network"));
    assert_eq!(app.mode, Mode::Normal);
    finish_share(&mut app, Ok(()));
    assert_eq!(app.mode, Mode::Share);
    handle_key(&mut app, key('x'), PLAIN);
    assert_eq!(app.mode, Mode::Normal);
}

#[test]
fn every_key_of_the_list_brings_the_cursor_back() {
    let mut app = build_app();
    assert_eq!(handle_key(&mut app, key('x'), PLAIN), ops(&[Op::ToggleComplete(0), Op::ClampCursor]));
    assert_eq!(handle_key(&mut app, key('g'), PLAIN), ops(&[Op::ClampCursor]));
    assert_eq!(app.chord.leader, Some('g'));
}

// ---- the line editor ----------------------------------------------------------------------------

#[test]
fn ctrl_emacs_keys_resolve_to_edit_actions() {
    assert_eq!(resolve_edit_key(ctrl('a')), Some(EditAction::MoveHome));
    assert_eq!(resolve_edit_key(ctrl('e')), Some(EditAction::MoveEnd));
    assert_eq!(resolve_edit_key(ctrl('b')), Some(EditAction::MoveLeft));
    assert_eq!(resolve_edit_key(ctrl('f')), Some(EditAction::MoveRight));
    assert_eq!(resolve_edit_key(ctrl('h')), Some(EditAction::DeleteBackward));
    assert_eq!(resolve_edit_key(ctrl('d')), Some(EditAction::DeleteForward));
    assert_eq!(resolve_edit_key(ctrl('w')), Some(EditAction::DeleteWordBackward));
    assert_eq!(resolve_edit_key(ctrl('u')), Some(EditAction::KillToStart));
    assert_eq!(resolve_edit_key(ctrl('k')), Some(EditAction::KillToEnd));
}

#[test]
fn alt_word_keys_resolve_to_word_actions() {
    assert_eq!(resolve_edit_key(alt('b')), Some(EditAction::MoveWordBackward));
    assert_eq!(resolve_edit_key(alt('f')), Some(EditAction::MoveWordForward));
    assert_eq!(resolve_edit_key(alt('d')), Some(EditAction::DeleteWordForward));
}

#[test]
fn unmapped_ctrl_chord_is_swallowed_not_typed() {
    assert_eq!(resolve_edit_key(ctrl('g')), None);
    assert_eq!(resolve_edit_key(ctrl('z')), None);
}

#[test]
fn plain_and_shifted_chars_insert() {
    assert_eq!(resolve_edit_key(key('x')), Some(EditAction::Insert('x')));
    let shifted = KeyEvent::new(
        KeyCode::Char('A'),
        KeyModifiers {
            control: false,
            alt: false,
            other: true,
        },
    );
    assert_eq!(resolve_edit_key(shifted), Some(EditAction::Insert('A')));
}

#[test]
fn altgr_char_inserts_not_swallowed() {
    let altgr = |c| {
        KeyEvent::new(
            KeyCode::Char(c),
            KeyModifiers {
                control: true,
                alt: true,
                other: false,
            },
        )
    };
    assert_eq!(resolve_edit_key(altgr('e')), Some(EditAction::Insert('e')));
    assert_eq!(resolve_edit_key(altgr('€')), Some(EditAction::Insert('€')));
}

#[test]
fn only_ctrl_c_alone_and_q_leave() {
    assert!(is_exit_key(key('q')));
    assert!(is_exit_key(ctrl('c')));
    assert!(!is_exit_key(key('c')));
    assert!(!is_exit_key(alt('c')));
    assert_eq!(EditAction::MoveEnd.effect(), DraftEffect::CursorMoved);
    assert_eq!(EditAction::KillToEnd.effect(), DraftEffect::TextChanged);
}

#[test]
fn ctrl_h_deletes_instead_of_inserting_in_insert_mode() {
    let mut app = build_app();
    app.mode = Mode::Insert;
    let mut line = String::new();
    for k in [key('a'), key('b'), ctrl('h')] {
        let requests = handle_insert(&mut app, k, None);
        edit(&mut line, &requests);
    }
    assert_eq!(line, "a");
}

#[test]
fn ctrl_u_clears_to_start_in_search_mode() {
    let mut app = build_app();
    app.mode = Mode::Search;
    let mut line = String::new();
    for c in "abc".chars() {
        let requests = handle_search(&mut app, key(c));
        edit(&mut line, &requests);
    }
    assert_eq!(line, "abc");
    let requests = handle_search(&mut app, ctrl('u'));
    edit(&mut line, &requests);
    assert_eq!(line, "");
    assert_eq!(requests, ops(&[Op::Edit(EditAction::KillToStart), Op::SearchDraft]));
    assert_eq!(
        handle_search(&mut app, press(KeyCode::Left)),
        ops(&[Op::Edit(EditAction::MoveLeft)]),
        "moving the cursor must not search again"
    );
}

#[test]
fn rec_builder_hl_changes_value_and_jk_moves_focus() {
    let mut app = build_app();
    app.mode = Mode::Insert;
    app.draft.overlay = Some(OverlayKind::RecurrenceBuilder);
    let next = ops(&[Op::RecurrenceAdjust { forward: true }]);
    let prev = ops(&[Op::RecurrenceAdjust { forward: false }]);
    let down = ops(&[Op::RecurrenceFocus { forward: true }]);
    let up = ops(&[Op::RecurrenceFocus { forward: false }]);
    assert_eq!(handle_insert(&mut app, key('l'), None), next);
    assert_eq!(handle_insert(&mut app, press(KeyCode::Left), None), prev);
    assert_eq!(handle_insert(&mut app, key('j'), None), down);
    assert_eq!(handle_insert(&mut app, press(KeyCode::Tab), None), down);
    assert_eq!(handle_insert(&mut app, key('k'), None), up);
    assert_eq!(handle_insert(&mut app, press(KeyCode::Enter), None), ops(&[Op::RecurrenceAccept]));
    assert_eq!(handle_insert(&mut app, press(KeyCode::Esc), None), ops(&[Op::RecurrenceCancel]));
    assert!(handle_insert(&mut app, key('?'), None).is_empty());
}

#[test]
fn rec_builder_custom_binding_wins_over_builtin() {
    let mut app = build_app();
    app.mode = Mode::Insert;
    app.draft.overlay = Some(OverlayKind::RecurrenceBuilder);
    assert_eq!(
        handle_insert(&mut app, key('l'), Some(RecAction::FocusNext)),
        ops(&[Op::RecurrenceFocus { forward: true }]),
        "rebound l must not touch the interval"
    );
    assert_eq!(
        handle_insert(&mut app, key('k'), None),
        ops(&[Op::RecurrenceFocus { forward: false }])
    );
}

#[test]
fn submitting_a_line_saves_the_task_it_came_from_or_adds_one() {
    let mut app = build_app();
    app.mode = Mode::Insert;
    app.selection.editing = Some(2);
    assert_eq!(
        handle_insert(&mut app, press(KeyCode::Enter), None),
        ops(&[Op::SaveEdit(2), Op::ClearDraft])
    );
    assert_eq!(app.mode, Mode::Normal);
    assert_eq!(app.selection.editing, None);

    app.mode = Mode::Insert;
    assert_eq!(
        handle_insert(&mut app, press(KeyCode::Enter), None),
        ops(&[Op::AddFromDraft])
    );
    assert!(finish_add(&mut app, AddOutcome::Parsed).is_empty());
    assert_eq!(app.mode, Mode::Insert, "a rewritten line waits to be confirmed");
    assert_eq!(finish_add(&mut app, AddOutcome::Saved), ops(&[Op::ClearDraft]));
    assert_eq!(app.mode, Mode::Normal);
}

#[test]
fn commands_in_the_line_editor_follow_the_chord() {
    let mut app = build_app();
    app.mode = Mode::Insert;
    app.draft.input_mode = DialogInputMode::Normal;
    let word = Op::Edit(EditAction::DeleteWordForward);
    assert_eq!(
        handle_insert(&mut app, key('w'), None),
        ops(&[Op::Edit(EditAction::MoveWordForward)])
    );
    assert!(handle_insert(&mut app, key('d'), None).is_empty());
    assert_eq!(handle_insert(&mut app, key('w'), None), ops(&[word]));
    assert_eq!(app.chord.leader, None);
    assert!(handle_insert(&mut app, key('c'), None).is_empty());
    assert_eq!(
        handle_insert(&mut app, key('w'), None),
        ops(&[word, Op::SetInputMode(DialogInputMode::Insert)])
    );
    assert_eq!(
        handle_insert(&mut app, key('A'), None),
        ops(&[
            Op::Edit(EditAction::MoveEnd),
            Op::SetInputMode(DialogInputMode::Insert)
        ])
    );
}

#[test]
fn slashes_and_colons_may_open_pickers() {
    let mut app = build_app();
    app.mode = Mode::Insert;
    assert_eq!(
        handle_insert(&mut app, key('/'), None),
        ops(&[Op::Edit(EditAction::Insert('/')), Op::OpenSlashMenuIfGrown])
    );
    assert_eq!(
        handle_insert(&mut app, key(':'), None),
        ops(&[Op::Edit(EditAction::Insert(':')), Op::OpenKvOverlayIfGrown])
    );
    assert!(handle_insert(&mut app, ctrl('/'), None).is_empty());
    assert_eq!(
        handle_insert(&mut app, press(KeyCode::Esc), None),
        ops(&[Op::SetInputMode(DialogInputMode::Normal)])
    );
}

#[test]
fn pickers_over_the_line_take_their_keys() {
    let mut app = build_app();
    app.mode = Mode::Insert;
    app.draft.overlay = Some(OverlayKind::SlashMenu);
    assert_eq!(
        handle_insert(&mut app, ctrl('n'), None),
        ops(&[Op::SlashStep { forward: true }])
    );
    assert_eq!(
        handle_insert(&mut app, key('n'), None),
        ops(&[Op::Edit(EditAction::Insert('n')), Op::SlashRevalidate])
    );
    assert_eq!(
        handle_insert(&mut app, press(KeyCode::Tab), None),
        ops(&[Op::SlashAccept])
    );
    app.draft.overlay = Some(OverlayKind::PriorityChooser);
    assert_eq!(
        handle_insert(&mut app, key('k'), None),
        ops(&[Op::PriorityStep { forward: false }])
    );
    app.draft.overlay = Some(OverlayKind::Calendar);
    assert_eq!(
        handle_insert(&mut app, key('w'), None),
        ops(&[Op::CalendarSetRelative { days: 7 }])
    );
    assert_eq!(
        handle_insert(&mut app, key('k'), None),
        ops(&[Op::CalendarWeek { forward: false }])
    );
    assert!(handle_insert(&mut app, key('3'), None).is_empty());
    app.draft.calendar_anchored = true;
    assert_eq!(
        handle_insert(&mut app, key('3'), None),
        ops(&[Op::Edit(EditAction::Insert('3')), Op::CalendarSyncFromDraft])
    );
}

#[test]
fn completions_come_before_the_line() {
    let mut app = build_app();
    app.mode = Mode::Insert;
    app.draft.autocomplete = true;
    assert_eq!(
        handle_insert(&mut app, press(KeyCode::Tab), None),
        ops(&[Op::AutocompleteAccept, Op::SuppressAutocomplete])
    );
    assert_eq!(
        handle_insert(&mut app, press(KeyCode::Enter), None),
        ops(&[Op::AddFromDraft])
    );
    assert_eq!(
        handle_insert(&mut app, press(KeyCode::Up), None),
        ops(&[Op::AutocompleteStep { forward: false }])
    );
    assert_eq!(
        handle_insert(&mut app, press(KeyCode::Esc), None),
        ops(&[Op::SuppressAutocomplete])
    );
    app.mode = Mode::PromptProject;
    assert_eq!(
        handle_prompt(&mut app, press(KeyCode::Tab)),
        ops(&[Op::AutocompleteAccept])
    );
}

// ---- prompts, help, the palette -----------------------------------------------------------------

#[test]
fn prompts_hand_their_text_over() {
    for (mode, op) in [
        (Mode::PromptProject, TextOp::AddProject),
        (Mode::PromptContext, TextOp::ToggleContext),
        (Mode::PromptSaveFilter, TextOp::SaveFilter),
        (Mode::PromptRenameProject, TextOp::RenameProject),
        (Mode::PromptRenameContext, TextOp::RenameContext),
    ] {
        let mut app = build_app();
        app.mode = mode;
        app.draft.line = "work".to_string();
        assert_eq!(
            handle_key(&mut app, press(KeyCode::Enter), PLAIN),
            vec![Request::Do(Op::ClearDraft), text(op, "work")]
        );
        assert_eq!(app.mode, Mode::Normal);
    }
}

#[test]
fn help_closes_on_its_own_keys_only() {
    let mut app = build_app();
    app.mode = Mode::Help;
    handle_help(&mut app, key('j'));
    assert_eq!(app.mode, Mode::Help);
    handle_help(&mut app, key('?'));
    assert_eq!(app.mode, Mode::Normal);
}

#[test]
fn the_palette_runs_what_is_highlighted_in_the_mode_it_came_from() {
    let mut app = build_app();
    app.mode = Mode::Visual;
    app.selection.selected = vec![1];
    assert_eq!(
        apply_action(&mut app, Action::OpenCommandPalette),
        ops(&[Op::ClearDraft])
    );
    assert_eq!(app.mode, Mode::CommandPalette);
    assert_eq!(
        handle_command_palette(&mut app, key('j')),
        ops(&[Op::Edit(EditAction::Insert('j')), Op::RefreshPalette])
    );
    app.command_palette.refresh("delete task");
    assert_eq!(
        handle_command_palette(&mut app, press(KeyCode::Enter)),
        ops(&[Op::ClearDraft, Op::DeleteSelected])
    );
    assert_eq!(app.mode, Mode::Visual);

    apply_action(&mut app, Action::OpenCommandPalette);
    handle_command_palette(&mut app, press(KeyCode::Down));
    assert_eq!(app.command_palette.cursor, 1);
    handle_command_palette(&mut app, ctrl('p'));
    assert_eq!(app.command_palette.cursor, 0);
    assert_eq!(
        handle_command_palette(&mut app, press(KeyCode::Esc)),
        ops(&[Op::ClearDraft])
    );
    assert_eq!(app.mode, Mode::Visual);
}

#[test]
fn the_palette_reaches_the_notes_popup() {
    let mut app = build_app();
    app.mode = Mode::Notes;
    app.notes_popup = NotesPopupState::new(vec!["a.md".to_string()]);
    for (label, check) in [("create note", 0), ("rename note", 1), ("delete note", 2)] {
        app.command_palette.open(Mode::Notes);
        app.mode = Mode::CommandPalette;
        app.command_palette.refresh(label);
        assert_eq!(
            handle_command_palette(&mut app, press(KeyCode::Enter)),
            ops(&[Op::ClearDraft])
        );
        assert_eq!(app.mode, Mode::Notes);
        match check {
            0 => assert_eq!(app.notes_popup.prompt, Some(String::new())),
            1 => assert_eq!(app.notes_popup.prompt.as_deref(), Some("a.md")),
            _ => assert_eq!(app.notes_popup.pending_delete, Some(0)),
        }
        app.notes_popup.cancel_prompt();
    }
    app.command_palette.open(Mode::Notes);
    app.mode = Mode::CommandPalette;
    app.command_palette.refresh("open note in editor (insert");
    assert_eq!(
        handle_command_palette(&mut app, press(KeyCode::Enter)),
        vec![
            Request::Do(Op::ClearDraft),
            Request::Io(Io::ReadFile {
                path: "a.md".to_string()
            })
        ]
    );
}

#[test]
fn the_screen_is_drawn_where_something_changed() {
    let quiet = Polled {
        today: false,
        archive: false,
        update: false,
        config: Reload::No,
    };
    assert!(!must_draw(false, quiet));
    assert!(must_draw(true, quiet));
    assert!(must_draw(false, Polled { today: true, ..quiet }));
    assert!(must_draw(false, Polled { archive: true, ..quiet }));
    assert!(must_draw(false, Polled { update: true, ..quiet }));
    assert!(must_draw(false, Polled { config: Reload::Redraw, ..quiet }));
    assert!(must_draw(false, Polled { config: Reload::Read, ..quiet }));
}

#[test]
fn a_round_takes_away_what_is_over() {
    let round = |woken: Woken| Round {
        woken,
        flash_over: false,
        chord_over: false,
    };
    let mut app = build_app();
    app.flash("hi".to_string());
    app.chord.arm('g');
    assert!(end_round(&mut app, round(Woken::Key)));
    assert!(end_round(&mut app, round(Woken::Resize)));
    assert!(!end_round(&mut app, round(Woken::Other)));
    assert!(!end_round(&mut app, round(Woken::Idle { reloaded: false })));
    assert!(end_round(&mut app, round(Woken::Idle { reloaded: true })));
    assert_eq!(app.flash_active(), Some("hi"));
    assert_eq!(app.chord.leader, Some('g'));
    assert!(end_round(
        &mut app,
        Round {
            flash_over: true,
            ..round(Woken::Other)
        }
    ));
    assert_eq!(app.flash_active(), None);
    assert_eq!(app.chord.leader, Some('g'));
    assert!(end_round(
        &mut app,
        Round {
            chord_over: true,
            ..round(Woken::Other)
        }
    ));
    assert_eq!(app.chord.leader, None);
}

#[test]
fn a_cancelled_palette_brings_the_mode_and_the_selection_back() {
    let mut app = build_app();
    app.mode = Mode::Visual;
    app.selection.toggle(2);
    let opened = apply_action(&mut app, Action::OpenCommandPalette);
    assert_eq!(app.mode, Mode::CommandPalette);
    assert_eq!(opened, vec![Request::Do(Op::ClearDraft)]);
    let _ = handle_command_palette(&mut app, press(KeyCode::Esc));
    assert_eq!(app.mode, Mode::Visual);
    assert_eq!(app.selection.selected, vec![2]);
    assert_eq!(app.cursor, 0);
}

#[test]
fn moving_in_the_search_box_does_not_search() {
    let mut app = build_app();
    app.mode = Mode::Search;
    let moved = handle_search(&mut app, press(KeyCode::Left));
    assert!(!moved.contains(&Request::Do(Op::SearchDraft)));
    let typed = handle_search(&mut app, key('a'));
    assert!(typed.contains(&Request::Do(Op::SearchDraft)));
}
