//! The notes popup against a disk in memory: its operations, its keys, the editor
//! in it and the pinned note.
use std::collections::{BTreeMap, BTreeSet};
use tuxedo::action::Action;
use tuxedo::app::io::{Io, IoReply, IoRequest, LineEdit, Pending};
use tuxedo::app::note_editor::NoteEditorMode;
use tuxedo::app::notes_popup::{normalize_note_file_name, NotePromptKind, NotesPopupState};
use tuxedo::app::palette::CommandPaletteState;
use tuxedo::app::types::{DialogInputMode, Mode, View};
use tuxedo::app::{App, Chord, Draft, Filter, Selection};
use tuxedo::dispatch::apply::apply_action;
use tuxedo::dispatch::notes::handle_notes;
use tuxedo::dispatch::request::{Op, Request};
use tuxedo::dispatch::{handle_key, KeyContext};
use tuxedo::keys::{KeyCode, KeyEvent, KeyModifiers};
use tuxedo::note::notes_id_from_raw;
use tuxedo::todo::Task;

fn task(raw: &str) -> Task {
    let mut body: Vec<&str> = Vec::new();
    let mut projects = Vec::new();
    let mut contexts = Vec::new();
    let mut priority = None;
    let mut due = None;
    let done = raw.starts_with("x ");
    for (i, word) in raw.split_whitespace().enumerate() {
        if done && i < 3 {
            continue;
        }
        if i == 0 && word.len() == 3 && word.starts_with('(') && word.ends_with(')') {
            priority = word.chars().nth(1);
        } else if let Some(p) = word.strip_prefix('+') {
            projects.push(p.to_string());
        } else if let Some(c) = word.strip_prefix('@') {
            contexts.push(c.to_string());
        } else if let Some(d) = word.strip_prefix("due:") {
            due = Some(d.to_string());
        } else if !word.contains(':') {
            body.push(word);
        }
    }
    Task {
        raw: raw.to_string(),
        body: body.join(" "),
        done,
        priority,
        created_date: None,
        due,
        projects,
        contexts,
    }
}

fn app_with(lines: &[&str]) -> App {
    let tasks: Vec<Task> = lines.iter().map(|l| task(l)).collect();
    App {
        mode: Mode::Normal,
        view: View::List,
        cursor: 0,
        should_quit: false,
        visible: (0..tasks.len()).collect(),
        tasks,
        archive: Vec::new(),
        selection: Selection {
            selected: Vec::new(),
            editing: None,
        },
        filter: Filter {
            project: None,
            context: None,
            search: String::new(),
        },
        chord: Chord { leader: None },
        draft: Draft {
            line: String::new(),
            input_mode: DialogInputMode::Insert,
            overlay: None,
            calendar_anchored: false,
            autocomplete: false,
        },
        command_palette: CommandPaletteState::default(),
        notes_popup: NotesPopupState::default(),
        pinned_note: None,
        pinned_focus: false,
        notes_dir: "/notes".to_string(),
        file_path: "todo.txt".to_string(),
        theme_count: 3,
        flash_text: None,
        pending: Pending::Nothing,
    }
}

fn build_app() -> App {
    app_with(&["a", "b", "c"])
}

const NONE: KeyModifiers = KeyModifiers {
    control: false,
    alt: false,
    other: false,
};

fn press(code: KeyCode) -> KeyEvent {
    KeyEvent::new(code, NONE)
}

fn key(c: char) -> KeyEvent {
    press(KeyCode::Char(c))
}

fn ctrl(c: char) -> KeyEvent {
    let modifiers = KeyModifiers {
        control: true,
        alt: false,
        other: false,
    };
    KeyEvent::new(KeyCode::Char(c), modifiers)
}

const PLAIN: KeyContext = KeyContext {
    reloaded: false,
    custom: None,
    custom_recurrence: None,
};

/// A disk in memory, and a task list beside it.
struct Host {
    files: BTreeMap<String, String>,
    dirs: BTreeSet<String>,
    refuse: Option<&'static str>,
    line_edit: Option<LineEdit<String>>,
}

impl Host {
    fn new(files: &[(&str, &str)]) -> Host {
        let mut host = Host {
            files: BTreeMap::new(),
            dirs: BTreeSet::new(),
            refuse: None,
            line_edit: None,
        };
        for (path, content) in files {
            host.files.insert(path.to_string(), content.to_string());
        }
        host
    }

    fn has(&self, path: &str) -> bool {
        let inside = format!("{path}/");
        self.files.contains_key(path)
            || self.dirs.contains(path)
            || self.files.keys().any(|f| f.starts_with(&inside))
    }

    fn read(&self, path: &str) -> &str {
        &self.files[path]
    }

    fn done(&self, what: &'static str) -> Result<(), String> {
        if self.refuse == Some(what) {
            Err("refused".to_string())
        } else {
            Ok(())
        }
    }

    fn edit(&mut self, app: &mut App, abs: usize, raw: String) -> IoReply {
        IoReply::Edited(match self.line_edit.take() {
            Some(outcome) => outcome,
            None => {
                app.tasks[abs].raw = raw;
                LineEdit::Saved
            }
        })
    }

    fn perform(&mut self, app: &mut App, io: IoRequest) -> IoReply {
        match io {
            Io::MoveFile { from, to, dir } => {
                let r = self.done("move");
                if r.is_ok() {
                    self.dirs.insert(dir);
                    match self.files.remove(&from) {
                        Some(content) => {
                            self.files.insert(to, content);
                        }
                        None => return IoReply::Done(Err("not found".to_string())),
                    }
                }
                IoReply::Done(r)
            }
            Io::RenameFile { from, to } => {
                let r = self.done("rename");
                if r.is_ok() {
                    let content = self.files.remove(&from).expect("file to rename");
                    self.files.insert(to, content);
                }
                IoReply::Done(r)
            }
            Io::MakeDir { dir } => {
                let r = self.done("mkdir");
                if r.is_ok() {
                    self.dirs.insert(dir);
                }
                IoReply::Done(r)
            }
            Io::WriteFile { path, content } => {
                let r = self.done("write");
                if r.is_ok() {
                    self.files.insert(path, content);
                }
                IoReply::Done(r)
            }
            Io::ReadFile { path } => IoReply::Content(self.files.get(&path).cloned()),
            Io::RemoveFile { path } => {
                let r = self.done("remove");
                if r.is_ok() {
                    self.files.remove(&path);
                }
                IoReply::Done(r)
            }
            Io::Exists { path } => IoReply::Found(self.has(&path)),
            Io::ListFiles { dir } => {
                let inside = format!("{dir}/");
                IoReply::Names(
                    self.files
                        .keys()
                        .filter_map(|f| f.strip_prefix(&inside))
                        .filter(|n| !n.contains('/'))
                        .map(|n| n.to_string())
                        .collect(),
                )
            }
            Io::EditLine { abs, raw } => self.edit(app, abs, raw),
            Io::AppendToLine { abs, token } => {
                let raw = format!("{} {token}", app.tasks[abs].raw);
                self.edit(app, abs, raw)
            }
        }
    }

    fn run(&mut self, app: &mut App, first: Option<IoRequest>) {
        let mut next = first;
        while let Some(io) = next {
            let reply = self.perform(app, io);
            next = app.resume(reply);
        }
        assert_eq!(app.pending, Pending::Nothing);
    }

    fn serve(&mut self, app: &mut App, requests: Vec<Request>) {
        for r in requests {
            match r {
                Request::Io(io) => self.run(app, Some(io)),
                Request::Do(Op::OpenNotes) => self.open(app),
                _ => {}
            }
        }
    }

    fn open(&mut self, app: &mut App) {
        let first = app.open_notes_for_current(1, 2);
        self.run(app, first);
    }

    fn notes(&mut self, app: &mut App, key: KeyEvent) {
        let requests = handle_notes(app, key);
        self.serve(app, requests);
    }

    fn press(&mut self, app: &mut App, key: KeyEvent) {
        let requests = handle_key(app, key, PLAIN);
        self.serve(app, requests);
    }

    fn confirm(&mut self, app: &mut App) {
        let first = app.confirm_note_prompt();
        self.run(app, first);
    }

    fn edit_normal(&mut self, app: &mut App) {
        let first = app.open_note_editor_normal();
        self.run(app, first);
    }

    fn edit_insert(&mut self, app: &mut App) {
        let first = app.open_note_editor_insert();
        self.run(app, first);
    }

    fn unlink(&mut self, app: &mut App) {
        let first = app.unlink_selected_note();
        self.run(app, first);
    }

    fn delete(&mut self, app: &mut App) {
        let first = app.confirm_delete_note();
        self.run(app, first);
    }
}

const LINKED: &str = "Write PR summary +work notes:abc123/";
const FOLDER: &str = "/notes/tasks/abc123";

fn paths(list: &[&str]) -> Vec<String> {
    list.iter().map(|s| s.to_string()).collect()
}

fn in_folder(list: &[&str]) -> Vec<String> {
    list.iter().map(|s| format!("{FOLDER}/{s}")).collect()
}

fn two_notes() -> (App, Host) {
    let mut host = Host::new(&[
        ("/notes/tasks/abc123/a.md", "content a"),
        ("/notes/tasks/abc123/b.md", "content b"),
    ]);
    let mut app = app_with(&[LINKED]);
    host.open(&mut app);
    (app, host)
}

fn one_note(content: &str) -> (App, Host) {
    let mut host = Host::new(&[("/notes/tasks/abc123/a.md", content)]);
    let mut app = app_with(&[LINKED]);
    host.open(&mut app);
    (app, host)
}

fn unlinked_task() -> (App, Host) {
    let mut host = Host::new(&[]);
    let mut app = app_with(&["Write PR summary +work"]);
    host.open(&mut app);
    (app, host)
}

fn open_editor() -> (App, Host) {
    let (mut app, mut host) = two_notes();
    host.notes(&mut app, key('e'));
    assert!(app.notes_popup.active_editor.is_some());
    (app, host)
}

fn archive_app(raw: &str) -> App {
    let mut app = app_with(&["a"]);
    app.archive = vec![task(raw)];
    app.view = View::Archive;
    app.visible = vec![0];
    app
}

fn push(app: &mut App, s: &str) {
    for c in s.chars() {
        app.notes_popup.prompt_push(c);
    }
}

fn folder_dir(app: &App) -> String {
    app.notes_popup.folder.as_ref().expect("folder resolved").dir.clone()
}

#[test]
fn open_notes_for_current_lists_md_files_from_existing_folder() {
    let (app, _) = two_notes();
    assert_eq!(app.mode, Mode::Notes);
    assert_eq!(app.notes_popup.files, in_folder(&["a.md", "b.md"]));
    assert_eq!(app.notes_popup.cursor, 0);
}

#[test]
fn open_notes_for_current_with_no_token_and_missing_folder_is_empty_without_panicking() {
    let mut host = Host::new(&[]);
    let mut app = app_with(&["Write PR summary +work @desk"]);

    host.open(&mut app);

    assert_eq!(app.mode, Mode::Notes);
    assert!(app.notes_popup.files.is_empty());
    assert!(!host.has("/notes"), "resolving the folder must not create it");
}

#[test]
fn open_notes_without_a_task_does_nothing() {
    let mut app = app_with(&[]);
    assert_eq!(app.open_notes_for_current(0, 0), None);
    assert_eq!(app.mode, Mode::Normal);
}

#[test]
fn move_down_and_up_clamp_at_bounds() {
    let mut state = NotesPopupState::new(paths(&["a.md", "b.md", "c.md"]));
    state.move_up();
    assert_eq!(state.cursor, 0, "cursor must not go below 0");

    state.move_down();
    state.move_down();
    assert_eq!(state.cursor, 2);
    state.move_down();
    assert_eq!(state.cursor, 2, "cursor must clamp at the last index");

    state.move_up();
    assert_eq!(state.cursor, 1);
}

#[test]
fn move_down_and_up_on_empty_list_is_noop() {
    let mut state = NotesPopupState::default();
    state.move_down();
    assert_eq!(state.cursor, 0);
    state.move_up();
    assert_eq!(state.cursor, 0);
}

#[test]
fn note_names_end_in_md_once() {
    assert_eq!(normalize_note_file_name("foo"), "foo.md");
    assert_eq!(normalize_note_file_name("foo.md"), "foo.md");
    assert_eq!(normalize_note_file_name("FOO.MD"), "FOO.MD");
    assert_eq!(normalize_note_file_name("md"), "md.md");
    assert_eq!(normalize_note_file_name(""), ".md");
}

#[test]
fn confirm_new_note_prompt_appends_md_extension_when_missing() {
    let (mut app, mut host) = unlinked_task();
    let dir = folder_dir(&app);

    app.begin_new_note_prompt();
    push(&mut app, "foo");
    host.confirm(&mut app);

    assert!(host.has(&format!("{dir}/foo.md")));
    assert!(!host.has(&format!("{dir}/foo.md.md")));
    assert!(app.notes_popup.prompt.is_none());
}

#[test]
fn confirm_new_note_prompt_does_not_double_extension_when_already_present() {
    let (mut app, mut host) = unlinked_task();
    let dir = folder_dir(&app);

    app.begin_new_note_prompt();
    push(&mut app, "foo.md");
    host.confirm(&mut app);

    assert!(host.has(&format!("{dir}/foo.md")));
    assert!(!host.has(&format!("{dir}/foo.md.md")));
}

#[test]
fn cancel_new_note_prompt_creates_nothing() {
    let (mut app, host) = unlinked_task();

    app.begin_new_note_prompt();
    push(&mut app, "foo");
    app.cancel_note_prompt();

    assert!(app.notes_popup.prompt.is_none());
    assert!(!host.has("/notes"), "cancelling must not create the notes dir");
}

#[test]
fn confirm_new_note_prompt_on_empty_input_is_noop_and_stays_in_prompt() {
    let (mut app, mut host) = unlinked_task();

    app.begin_new_note_prompt();
    host.confirm(&mut app);

    assert_eq!(app.notes_popup.prompt, Some(String::new()));
    assert!(!host.has("/notes"));
}

#[test]
fn confirm_new_note_prompt_first_note_creates_folder_writes_template_and_appends_token() {
    let (mut app, mut host) = unlinked_task();
    assert!(!app.notes_popup.folder.as_ref().expect("folder resolved").existed_in_task);

    app.begin_new_note_prompt();
    push(&mut app, "foo");
    host.confirm(&mut app);

    let folder = app.notes_popup.folder.clone().expect("folder resolved");
    assert!(folder.existed_in_task);
    let content = host.read(&format!("{}/foo.md", folder.dir));
    assert!(content.starts_with("# Write PR summary\n"));
    assert!(content.contains("## My notes\n\n"));

    let raw = &app.tasks[0].raw;
    assert!(
        raw.contains(&format!("notes:{}/", folder.id)),
        "task line should gain the notes:<id>/ token: {raw}"
    );
    assert_eq!(notes_id_from_raw(raw), Some(folder.id.clone()));
    assert_eq!(
        app.notes_popup.files,
        vec![format!("{}/foo.md", folder.dir)],
        "popup file list must refresh after create"
    );
}

#[test]
fn confirm_new_note_prompt_second_note_reuses_existing_folder_without_rewriting_line() {
    let (mut app, mut host) = one_note("a");

    app.begin_new_note_prompt();
    push(&mut app, "b");
    host.confirm(&mut app);

    assert!(host.has("/notes/tasks/abc123/b.md"));
    assert_eq!(app.tasks[0].raw, LINKED, "line must not be rewritten");
    assert_eq!(app.notes_popup.files, in_folder(&["a.md", "b.md"]));
}

#[test]
fn confirm_new_note_prompt_blocked_in_archive_view() {
    let mut host = Host::new(&[]);
    let mut app = archive_app("x 2026-05-01 2026-04-01 archived task");
    host.open(&mut app);

    app.begin_new_note_prompt();
    push(&mut app, "foo");
    host.confirm(&mut app);

    assert_eq!(app.flash_active(), Some("archived task has no note"));
    assert!(!host.has("/notes"), "nothing should be written to disk");
    assert!(app.notes_popup.prompt.is_none(), "prompt still closes");
}

#[test]
fn each_failure_of_creating_a_note_is_said() {
    for (step, message) in [
        ("mkdir", "note mkdir failed: refused"),
        ("write", "note write failed: refused"),
    ] {
        let (mut app, mut host) = unlinked_task();
        host.refuse = Some(step);
        app.begin_new_note_prompt();
        push(&mut app, "foo");
        host.confirm(&mut app);
        assert_eq!(app.flash_active(), Some(message));
        assert!(app.notes_popup.prompt.is_none());
        assert_eq!(app.tasks[0].raw, "Write PR summary +work");
    }
    let (mut app, mut host) = unlinked_task();
    host.line_edit = Some(LineEdit::Failed("locked".to_string()));
    app.begin_new_note_prompt();
    push(&mut app, "foo");
    host.confirm(&mut app);
    assert_eq!(app.flash_active(), Some("note link failed: locked"));
    assert_eq!(app.notes_popup.files.len(), 1);
}

#[test]
fn a_link_that_failed_is_made_by_the_next_note() {
    for outcome in [
        LineEdit::Failed("locked".to_string()),
        LineEdit::Aborted,
        LineEdit::Unchanged,
    ] {
        let (mut app, mut host) = unlinked_task();
        host.line_edit = Some(outcome);
        app.begin_new_note_prompt();
        push(&mut app, "foo");
        host.confirm(&mut app);
        assert!(!app.notes_popup.folder.as_ref().expect("folder").existed_in_task);
        assert_eq!(notes_id_from_raw(&app.tasks[0].raw), None);

        app.begin_new_note_prompt();
        push(&mut app, "bar");
        host.confirm(&mut app);
        let folder = app.notes_popup.folder.clone().expect("folder");
        assert!(folder.existed_in_task);
        assert_eq!(notes_id_from_raw(&app.tasks[0].raw), Some(folder.id));
        assert_eq!(app.notes_popup.files.len(), 2);
    }
}

#[test]
fn a_directory_is_no_note() {
    let mut host = Host::new(&[
        ("/notes/tasks/abc123/a.md", "content a"),
        ("/notes/tasks/abc123/x.md/inner.md", "inside"),
    ]);
    let mut app = app_with(&[LINKED]);
    host.open(&mut app);
    assert_eq!(app.notes_popup.files, in_folder(&["a.md"]));
}

#[test]
fn asking_to_delete_from_an_empty_list_changes_nothing() {
    let mut popup = NotesPopupState::new(Vec::new());
    popup.pending_delete = Some(3);
    popup.begin_delete_confirm();
    assert_eq!(popup.pending_delete, Some(3));
    let mut popup = NotesPopupState::new(in_folder(&["a.md", "b.md"]));
    popup.move_down();
    popup.begin_delete_confirm();
    assert_eq!(popup.pending_delete, Some(1));
}

#[test]
fn open_notes_for_current_migrates_legacy_note_token() {
    let mut host = Host::new(&[(
        "/notes/projects/example.md",
        "# Existing\n\nlegacy content\n",
    )]);
    let mut app = app_with(&["Write PR summary +work note:projects/example.md"]);

    host.open(&mut app);

    assert!(
        !host.has("/notes/projects/example.md"),
        "legacy file must be moved, not copied"
    );
    let folder = app.notes_popup.folder.clone().expect("folder resolved");
    assert!(folder.existed_in_task);
    let migrated = format!("{}/example.md", folder.dir);
    assert_eq!(host.read(&migrated), "# Existing\n\nlegacy content\n");
    assert_eq!(app.notes_popup.files, vec![migrated]);

    let raw = &app.tasks[0].raw;
    assert!(
        !raw.contains("note:projects/example.md"),
        "legacy token must be removed: {raw}"
    );
    assert!(
        raw.contains(&format!("notes:{}/", folder.id)),
        "new token must be present: {raw}"
    );
}

#[test]
fn open_notes_for_current_does_not_migrate_a_task_that_already_has_a_notes_token() {
    let (app, _) = one_note("a");
    assert_eq!(app.tasks[0].raw, LINKED);
    assert_eq!(app.notes_popup.files, in_folder(&["a.md"]));
}

#[test]
fn open_notes_for_current_does_not_migrate_from_archive_view() {
    let mut host = Host::new(&[("/notes/projects/example.md", "legacy content")]);
    let archived_raw = "x 2026-05-01 2026-04-01 archived task note:projects/example.md";
    let mut app = archive_app(archived_raw);

    host.open(&mut app);

    assert!(
        host.has("/notes/projects/example.md"),
        "legacy file must be left in place"
    );
    assert_eq!(app.archive[0].raw, archived_raw);
}

#[test]
fn a_migration_that_fails_opens_the_popup_all_the_same() {
    let mut host = Host::new(&[("/notes/x.md", "legacy")]);
    host.refuse = Some("move");
    let mut app = app_with(&["a note:x.md"]);
    host.open(&mut app);
    assert_eq!(app.mode, Mode::Notes);
    assert!(!app.notes_popup.folder.as_ref().expect("folder").existed_in_task);
    assert_eq!(app.flash_active(), None);

    let mut host = Host::new(&[("/notes/x.md", "legacy")]);
    host.line_edit = Some(LineEdit::Failed("locked".to_string()));
    let mut app = app_with(&["a note:x.md"]);
    host.open(&mut app);
    assert_eq!(app.flash_active(), Some("note migration failed: locked"));
    assert!(!app.notes_popup.folder.as_ref().expect("folder").existed_in_task);

    for outcome in [LineEdit::Aborted, LineEdit::Unchanged] {
        let mut host = Host::new(&[("/notes/x.md", "legacy")]);
        host.line_edit = Some(outcome);
        let mut app = app_with(&["a note:x.md"]);
        host.open(&mut app);
        assert_eq!(app.flash_active(), None);
        assert!(!app.notes_popup.folder.as_ref().expect("folder").existed_in_task);
    }

    let mut host = Host::new(&[]);
    let mut app = app_with(&["a note:.."]);
    host.open(&mut app);
    assert_eq!(app.mode, Mode::Notes);
    assert_eq!(app.tasks[0].raw, "a note:..");
}

#[test]
fn begin_rename_prompt_prefills_current_file_name() {
    let (mut app, _) = two_notes();

    app.begin_rename_prompt();

    assert_eq!(app.notes_popup.prompt.as_deref(), Some("a.md"));
    assert_eq!(
        app.notes_popup.prompt_kind,
        Some(NotePromptKind::Rename { index: 0 })
    );
}

#[test]
fn confirm_rename_note_renames_file_on_disk_and_refreshes_list() {
    let (mut app, mut host) = two_notes();

    app.begin_rename_prompt();
    app.notes_popup.prompt = Some(String::new());
    push(&mut app, "renamed");
    host.confirm(&mut app);

    assert!(!host.has("/notes/tasks/abc123/a.md"));
    assert_eq!(host.read("/notes/tasks/abc123/renamed.md"), "content a");
    assert_eq!(app.notes_popup.files, in_folder(&["b.md", "renamed.md"]));
    assert_eq!(
        app.notes_popup.selected(),
        Some(&"/notes/tasks/abc123/renamed.md".to_string()),
        "cursor should still point at the renamed file"
    );
    assert!(app.notes_popup.prompt.is_none());
}

#[test]
fn confirm_rename_note_appends_md_extension_when_missing() {
    let (mut app, mut host) = two_notes();

    app.begin_rename_prompt();
    app.notes_popup.prompt = Some(String::new());
    push(&mut app, "renamed");
    host.confirm(&mut app);

    assert!(host.has("/notes/tasks/abc123/renamed.md"));
    assert!(!host.has("/notes/tasks/abc123/renamed.md.md"));
}

#[test]
fn confirm_rename_note_refuses_collision_with_another_existing_file() {
    let (mut app, mut host) = two_notes();

    app.begin_rename_prompt();
    app.notes_popup.prompt = Some(String::new());
    push(&mut app, "b");
    host.confirm(&mut app);

    assert_eq!(app.flash_active(), Some("a note named b.md already exists"));
    assert!(
        app.notes_popup.prompt.is_some(),
        "must stay in the prompt on a collision"
    );
    assert_eq!(host.read("/notes/tasks/abc123/a.md"), "content a");
    assert_eq!(host.read("/notes/tasks/abc123/b.md"), "content b");
}

#[test]
fn confirm_rename_note_to_its_own_current_name_is_a_harmless_noop() {
    let (mut app, mut host) = two_notes();

    app.begin_rename_prompt();
    host.confirm(&mut app);

    assert!(app.flash_active().is_none());
    assert_eq!(host.read("/notes/tasks/abc123/a.md"), "content a");
    assert!(app.notes_popup.prompt.is_none());
}

#[test]
fn a_rename_that_fails_is_said_and_closes_the_prompt() {
    let (mut app, mut host) = two_notes();
    host.refuse = Some("rename");
    app.begin_rename_prompt();
    push(&mut app, "x");
    host.confirm(&mut app);
    assert_eq!(app.flash_active(), Some("note rename failed: refused"));
    assert!(app.notes_popup.prompt.is_none());
    assert_eq!(app.notes_popup.files, in_folder(&["a.md", "b.md"]));
}

#[test]
fn cancel_note_prompt_during_rename_changes_nothing_on_disk() {
    let (mut app, host) = two_notes();

    app.begin_rename_prompt();
    app.notes_popup.prompt = Some(String::new());
    push(&mut app, "renamed");
    app.cancel_note_prompt();

    assert!(host.has("/notes/tasks/abc123/a.md"));
    assert!(!host.has("/notes/tasks/abc123/renamed.md"));
    assert!(app.notes_popup.prompt.is_none());
    assert!(app.notes_popup.prompt_kind.is_none());
}

#[test]
fn begin_rename_prompt_on_empty_list_is_noop() {
    let (mut app, _) = unlinked_task();

    app.begin_rename_prompt();

    assert!(app.notes_popup.prompt.is_none());
    assert!(app.notes_popup.prompt_kind.is_none());
}

#[test]
fn confirm_delete_note_removes_file_and_clamps_cursor_on_last_row() {
    let (mut app, mut host) = two_notes();
    app.notes_popup.cursor = 1;

    app.begin_delete_note_confirm();
    assert_eq!(app.notes_popup.pending_delete, Some(1));

    host.delete(&mut app);

    assert!(!host.has("/notes/tasks/abc123/b.md"));
    assert_eq!(app.notes_popup.files, in_folder(&["a.md"]));
    assert_eq!(app.notes_popup.cursor, 0, "cursor must clamp back onto a.md");
    assert!(app.notes_popup.pending_delete.is_none());
}

#[test]
fn delete_confirm_n_leaves_file_untouched_and_returns_to_browsing() {
    let (mut app, host) = two_notes();

    app.begin_delete_note_confirm();
    app.cancel_delete_note_confirm();

    assert!(host.has("/notes/tasks/abc123/a.md"));
    assert!(app.notes_popup.pending_delete.is_none());
    assert_eq!(app.notes_popup.files.len(), 2, "list untouched");

    app.notes_popup.move_down();
    assert_eq!(app.notes_popup.cursor, 1);
}

#[test]
fn begin_delete_note_confirm_on_empty_list_is_noop() {
    let (mut app, _) = unlinked_task();
    app.begin_delete_note_confirm();
    assert!(app.notes_popup.pending_delete.is_none());
}

#[test]
fn a_deletion_that_fails_is_said() {
    let (mut app, mut host) = two_notes();
    host.refuse = Some("remove");
    app.begin_delete_note_confirm();
    host.delete(&mut app);
    assert_eq!(app.flash_active(), Some("note delete failed: refused"));
    assert!(app.notes_popup.pending_delete.is_none());
    assert_eq!(app.notes_popup.files.len(), 2);
}

#[test]
fn unlink_selected_note_moves_file_out_of_task_folder_and_clamps_cursor() {
    let (mut app, mut host) = two_notes();
    app.notes_popup.cursor = 1;

    host.unlink(&mut app);

    assert!(!host.has("/notes/tasks/abc123/b.md"));
    assert_eq!(host.read("/notes/unlinked/b.md"), "content b");
    assert_eq!(
        app.notes_popup.files,
        in_folder(&["a.md"]),
        "no longer listed in the task's notes"
    );
    assert_eq!(app.notes_popup.cursor, 0, "cursor must clamp");
}

#[test]
fn unlink_selected_note_prefixes_with_task_id_on_name_collision_across_tasks() {
    let (mut app, mut host) = two_notes();
    host.files
        .insert("/notes/unlinked/a.md".to_string(), "from a different task".to_string());

    host.unlink(&mut app);

    assert_eq!(
        host.read("/notes/unlinked/a.md"),
        "from a different task",
        "the pre-existing unlinked file from another task must survive"
    );
    assert_eq!(host.read("/notes/unlinked/abc123-a.md"), "content a");
}

#[test]
fn unlink_selected_note_on_empty_list_is_noop() {
    let (mut app, mut host) = unlinked_task();

    host.unlink(&mut app);

    assert!(app.notes_popup.files.is_empty());
    assert!(!host.has("/notes/unlinked"));
}

#[test]
fn an_unlinking_that_fails_is_said() {
    let (mut app, mut host) = two_notes();
    host.refuse = Some("move");
    host.unlink(&mut app);
    assert_eq!(app.flash_active(), Some("note unlink failed: refused"));
    assert_eq!(app.notes_popup.files.len(), 2);
}

#[test]
fn an_answer_that_nothing_waits_for_changes_nothing() {
    let (mut app, _) = two_notes();
    assert_eq!(app.resume(IoReply::Found(true)), None);
    assert_eq!(app.notes_popup.files.len(), 2);
    assert_eq!(app.flash_active(), None);
}

// ---- the editor ----------------------------------------------------------------------

#[test]
fn open_note_editor_normal_loads_selected_file_in_normal_mode() {
    let (mut app, mut host) = one_note("content a");

    host.edit_normal(&mut app);

    let editor = app.notes_popup.active_editor.as_ref().expect("editor open");
    assert_eq!(editor.mode(), NoteEditorMode::Normal);
    assert_eq!(editor.lines(), &["content a"]);
}

#[test]
fn open_note_editor_insert_loads_selected_file_in_insert_mode() {
    let (mut app, mut host) = one_note("content a");

    host.edit_insert(&mut app);

    let editor = app.notes_popup.active_editor.as_ref().expect("editor open");
    assert_eq!(editor.mode(), NoteEditorMode::Insert);
}

#[test]
fn open_note_editor_on_empty_list_is_noop() {
    let (mut app, mut host) = unlinked_task();
    host.edit_normal(&mut app);
    assert!(app.notes_popup.active_editor.is_none());
}

#[test]
fn close_note_editor_clears_active_editor() {
    let (mut app, mut host) = one_note("content a");
    host.edit_normal(&mut app);

    app.close_note_editor();

    assert!(app.notes_popup.active_editor.is_none());
}

#[test]
fn save_note_editor_persists_edits_to_disk() {
    let (mut app, mut host) = one_note("content a");
    host.edit_insert(&mut app);
    for _ in 0.."content a".len() {
        app.note_editor_move_right();
    }
    for c in " appended".chars() {
        app.note_editor_insert_char(c);
    }

    let first = app.save_note_editor();
    host.run(&mut app, first);

    assert_eq!(host.read("/notes/tasks/abc123/a.md"), "content a appended\n");
    assert!(!app.notes_popup.active_editor.as_ref().expect("open").dirty());
}

#[test]
fn editor_operations_reach_the_open_note() {
    let (mut app, mut host) = one_note("ab");
    host.edit_normal(&mut app);
    app.note_editor_enter_insert();
    app.note_editor_move_right();
    app.note_editor_split_line();
    app.note_editor_move_up();
    app.note_editor_move_down();
    app.note_editor_move_left();
    app.note_editor_backspace();
    app.note_editor_esc_to_normal();
    let editor = app.notes_popup.active_editor.as_ref().expect("open");
    assert_eq!(editor.lines(), &["ab"]);
    assert_eq!(editor.cursor_col(), 1);
    assert_eq!(editor.mode(), NoteEditorMode::Normal);
}

#[test]
fn a_save_that_fails_is_said_and_keeps_the_editor() {
    let (mut app, mut host) = one_note("");
    host.edit_insert(&mut app);
    app.note_editor_insert_char('x');
    host.refuse = Some("write");
    host.notes(&mut app, ctrl('s'));
    assert_eq!(app.flash_active(), Some("note save failed: refused"));
    assert!(app.notes_popup.active_editor.as_ref().expect("open").dirty());
}

#[test]
fn commands_in_the_editor_write_and_close() {
    let (mut app, mut host) = one_note("");
    host.notes(&mut app, key('i'));
    host.notes(&mut app, key('x'));
    host.notes(&mut app, press(KeyCode::Esc));
    for c in ":wq".chars() {
        host.notes(&mut app, key(c));
    }
    assert_eq!(
        app.notes_popup.active_editor.as_ref().expect("open").command_prompt(),
        Some("wq")
    );
    host.refuse = Some("write");
    host.notes(&mut app, press(KeyCode::Enter));
    assert!(app.notes_popup.active_editor.is_some(), "a failed save never closes");
    assert_eq!(app.flash_active(), Some("note save failed: refused"));

    host.refuse = None;
    for c in ":x".chars() {
        host.notes(&mut app, key(c));
    }
    host.notes(&mut app, press(KeyCode::Enter));
    assert!(app.notes_popup.active_editor.is_none());
    assert_eq!(host.read("/notes/tasks/abc123/a.md"), "x\n");
    assert_eq!(app.mode, Mode::Notes);
}

#[test]
fn an_open_command_prompt_takes_the_pin_key_as_text() {
    let (mut app, mut host) = open_editor();
    host.notes(&mut app, key(':'));
    host.notes(&mut app, key('z'));
    assert!(app.pinned_note.is_none());
    host.notes(&mut app, press(KeyCode::Enter));
    assert_eq!(app.flash_active(), Some("unknown command: z"));
    host.notes(&mut app, key(':'));
    host.notes(&mut app, press(KeyCode::Backspace));
    host.notes(&mut app, press(KeyCode::Esc));
    assert!(app.notes_popup.active_editor.is_some());
    host.notes(&mut app, key(':'));
    host.notes(&mut app, key('q'));
    host.notes(&mut app, press(KeyCode::Enter));
    assert!(app.notes_popup.active_editor.is_none());
}

// ---- the pinned note -------------------------------------------------------------------

fn pinned() -> (App, Host) {
    let (mut app, mut host) = one_note("content a");
    host.edit_normal(&mut app);
    (app, host)
}

#[test]
fn toggle_pin_focus_pins_the_active_floating_editor() {
    let (mut app, _) = pinned();

    app.toggle_pin_focus();

    assert!(app.notes_popup.active_editor.is_none(), "moved out of the popup");
    let note = app.pinned_note.as_ref().expect("note pinned");
    assert_eq!(note.lines(), &["content a"]);
    assert_eq!(app.mode, Mode::Normal, "popup closes back to Mode::Normal");
    assert!(app.pinned_focus, "newly pinned note gets focus");
}

#[test]
fn toggle_pin_focus_is_noop_with_nothing_pinned_and_no_active_editor() {
    let mut app = app_with(&["Write PR summary +work"]);
    app.toggle_pin_focus();
    assert!(app.pinned_note.is_none());
    assert!(!app.pinned_focus);
}

#[test]
fn toggle_pin_focus_while_pinned_and_unfocused_focuses_it() {
    let (mut app, _) = pinned();
    app.toggle_pin_focus();
    app.pinned_focus = false;

    app.toggle_pin_focus();

    assert!(app.pinned_focus);
    assert!(app.pinned_note.is_some(), "still pinned");
}

#[test]
fn toggle_pin_focus_while_pinned_and_focused_unfocuses_it() {
    let (mut app, _) = pinned();
    app.toggle_pin_focus();

    app.toggle_pin_focus();

    assert!(!app.pinned_focus, "focus moves back to the main app");
    assert!(app.pinned_note.is_some(), "note stays pinned, just unfocused");
}

#[test]
fn close_pinned_note_removes_pin_whether_focused_or_not() {
    let (mut app, _) = pinned();
    app.toggle_pin_focus();

    app.close_pinned_note();

    assert!(app.pinned_note.is_none());
    assert!(!app.pinned_focus);
}

#[test]
fn close_pinned_note_removes_pin_when_unfocused() {
    let (mut app, _) = pinned();
    app.toggle_pin_focus();
    app.toggle_pin_focus();

    app.close_pinned_note();

    assert!(app.pinned_note.is_none());
    assert!(!app.pinned_focus);
}

#[test]
fn close_pinned_note_is_noop_with_nothing_pinned() {
    let mut app = app_with(&["Write PR summary +work"]);
    app.close_pinned_note();
    assert!(app.pinned_note.is_none());
    assert!(!app.pinned_focus);
}

#[test]
fn pinned_note_field_is_directly_mutable_for_key_routing() {
    let (mut app, _) = pinned();
    app.toggle_pin_focus();

    let editor = app.pinned_note.as_mut().expect("pinned note accessible");
    editor.enter_insert();

    assert_eq!(
        app.pinned_note.as_ref().expect("still pinned").mode(),
        NoteEditorMode::Insert
    );
}

// ---- keys in the popup -------------------------------------------------------------------

#[test]
fn open_notes_action_enters_notes_mode() {
    let mut host = Host::new(&[]);
    let mut app = build_app();
    let requests = apply_action(&mut app, Action::OpenNotes);
    host.serve(&mut app, requests);
    assert_eq!(app.mode, Mode::Notes);
}

#[test]
fn handle_notes_up_down_moves_cursor_and_esc_returns_to_normal() {
    let mut host = Host::new(&[]);
    let mut app = build_app();
    app.notes_popup = NotesPopupState::new(paths(&["a.md", "b.md"]));
    app.mode = Mode::Notes;

    host.notes(&mut app, key('j'));
    assert_eq!(app.notes_popup.cursor, 1);
    host.notes(&mut app, key('k'));
    assert_eq!(app.notes_popup.cursor, 0);

    host.notes(&mut app, press(KeyCode::Esc));
    assert_eq!(app.mode, Mode::Normal);
}

#[test]
fn handle_notes_n_key_opens_prompt_and_esc_cancels_back_to_the_list() {
    let mut host = Host::new(&[]);
    let mut app = build_app();
    app.mode = Mode::Notes;

    host.notes(&mut app, key('n'));
    assert_eq!(app.notes_popup.prompt, Some(String::new()));

    for c in "foo".chars() {
        host.notes(&mut app, key(c));
    }
    assert_eq!(app.notes_popup.prompt.as_deref(), Some("foo"));

    host.notes(&mut app, press(KeyCode::Esc));
    assert_eq!(
        app.notes_popup.prompt, None,
        "Esc cancels the prompt without creating anything"
    );
    assert_eq!(
        app.mode,
        Mode::Notes,
        "Esc from the prompt returns to the list, not Mode::Normal"
    );
}

#[test]
fn handle_notes_prompt_enter_on_empty_input_is_a_noop() {
    let mut host = Host::new(&[]);
    let mut app = build_app();
    app.mode = Mode::Notes;

    host.notes(&mut app, key('n'));
    host.notes(&mut app, press(KeyCode::Enter));

    assert_eq!(
        app.notes_popup.prompt,
        Some(String::new()),
        "Enter on an empty name must stay in the prompt, not close it"
    );
    assert_eq!(app.mode, Mode::Notes);
}

#[test]
fn handle_notes_prompt_backspace_removes_last_char() {
    let mut host = Host::new(&[]);
    let mut app = build_app();
    app.mode = Mode::Notes;

    host.notes(&mut app, key('n'));
    host.notes(&mut app, key('a'));
    host.notes(&mut app, key('b'));
    host.notes(&mut app, press(KeyCode::Backspace));

    assert_eq!(app.notes_popup.prompt.as_deref(), Some("a"));
}

#[test]
fn handle_notes_r_key_opens_rename_prompt_prefilled_with_current_name() {
    let mut host = Host::new(&[]);
    let mut app = build_app();
    app.notes_popup = NotesPopupState::new(paths(&["foo.md", "bar.md"]));
    app.mode = Mode::Notes;

    host.notes(&mut app, key('r'));

    assert_eq!(app.notes_popup.prompt.as_deref(), Some("foo.md"));
    assert_eq!(app.mode, Mode::Notes);
}

#[test]
fn handle_notes_d_key_opens_delete_confirm_and_n_returns_to_browsing() {
    let mut host = Host::new(&[]);
    let mut app = build_app();
    app.notes_popup = NotesPopupState::new(paths(&["foo.md", "bar.md"]));
    app.mode = Mode::Notes;

    host.notes(&mut app, key('d'));
    assert_eq!(app.notes_popup.pending_delete, Some(0));

    host.notes(&mut app, key('q'));
    assert_eq!(app.notes_popup.pending_delete, Some(0), "a stray key is ignored");

    host.notes(&mut app, key('n'));
    assert!(app.notes_popup.pending_delete.is_none());

    host.notes(&mut app, key('j'));
    assert_eq!(app.notes_popup.cursor, 1);
}

#[test]
fn handle_notes_d_key_on_empty_list_does_not_enter_confirm_state() {
    let mut host = Host::new(&[]);
    let mut app = build_app();
    app.notes_popup = NotesPopupState::default();
    app.mode = Mode::Notes;

    host.notes(&mut app, key('d'));

    assert!(app.notes_popup.pending_delete.is_none());
    assert_eq!(app.mode, Mode::Notes);
}

#[test]
fn handle_notes_delete_confirm_y_deletes_selected_file_and_refreshes_list() {
    let (mut app, mut host) = two_notes();

    host.notes(&mut app, key('d'));
    host.notes(&mut app, key('y'));

    assert!(!host.has("/notes/tasks/abc123/a.md"));
    assert_eq!(app.notes_popup.files, in_folder(&["b.md"]));
    assert!(app.notes_popup.pending_delete.is_none());
    assert_eq!(app.mode, Mode::Notes);
}

#[test]
fn handle_notes_u_key_unlinks_selected_file_into_unlinked_dir() {
    let (mut app, mut host) = two_notes();

    host.notes(&mut app, key('u'));

    assert!(!host.has("/notes/tasks/abc123/a.md"));
    assert_eq!(host.read("/notes/unlinked/a.md"), "content a");
    assert_eq!(app.notes_popup.files, in_folder(&["b.md"]));
    assert_eq!(app.mode, Mode::Notes, "u never leaves the popup");
}

#[test]
fn handle_notes_rename_prompt_enter_renames_file_via_full_key_routing() {
    let (mut app, mut host) = two_notes();

    host.notes(&mut app, key('r'));
    assert_eq!(app.notes_popup.prompt.as_deref(), Some("a.md"));
    for _ in 0..5 {
        host.notes(&mut app, press(KeyCode::Backspace));
    }
    for c in "renamed".chars() {
        host.notes(&mut app, key(c));
    }
    host.notes(&mut app, press(KeyCode::Enter));

    assert!(!host.has("/notes/tasks/abc123/a.md"));
    assert!(host.has("/notes/tasks/abc123/renamed.md"));
    assert!(app.notes_popup.prompt.is_none());
    assert_eq!(app.mode, Mode::Notes);
}

#[test]
fn handle_notes_e_key_opens_editor_in_normal_submode() {
    let (mut app, mut host) = two_notes();

    host.notes(&mut app, key('e'));

    let editor = app.notes_popup.active_editor.as_ref().expect("editor opened");
    assert_eq!(editor.mode(), NoteEditorMode::Normal);
    assert_eq!(editor.lines(), &["content a"]);
    assert_eq!(app.mode, Mode::Notes, "still nested inside Mode::Notes");
}

#[test]
fn handle_notes_i_key_opens_editor_in_insert_submode() {
    let (mut app, mut host) = two_notes();

    host.notes(&mut app, key('i'));

    let editor = app.notes_popup.active_editor.as_ref().expect("editor opened");
    assert_eq!(editor.mode(), NoteEditorMode::Insert);
}

#[test]
fn while_editor_is_active_list_keys_do_not_leak_to_the_list() {
    let (mut app, mut host) = two_notes();

    host.notes(&mut app, key('e'));
    assert_eq!(app.notes_popup.cursor, 0);

    host.notes(&mut app, key('n'));
    host.notes(&mut app, key('r'));
    host.notes(&mut app, key('d'));
    host.notes(&mut app, key('u'));

    assert_eq!(
        app.notes_popup.cursor, 0,
        "list cursor must be untouched by editor-mode keys"
    );
    assert_eq!(app.notes_popup.files.len(), 2, "no file was deleted/unlinked");
    assert!(host.has("/notes/tasks/abc123/a.md"));
    assert!(host.has("/notes/tasks/abc123/b.md"));
    assert!(
        app.notes_popup.prompt.is_none(),
        "no rename/create prompt must have opened"
    );
    assert!(app.notes_popup.pending_delete.is_none());
    assert!(app.notes_popup.active_editor.is_some(), "still inside the editor");
}

#[test]
fn two_step_esc_leaves_editor_to_list_then_list_to_mode_normal() {
    let (mut app, mut host) = two_notes();

    host.notes(&mut app, key('e'));
    assert!(app.notes_popup.active_editor.is_some());

    host.notes(&mut app, press(KeyCode::Esc));
    assert!(
        app.notes_popup.active_editor.is_none(),
        "first Esc leaves the editor"
    );
    assert_eq!(
        app.mode,
        Mode::Notes,
        "first Esc must not close the whole popup"
    );

    host.notes(&mut app, press(KeyCode::Esc));
    assert_eq!(
        app.mode,
        Mode::Normal,
        "second Esc from the bare list closes the popup"
    );
}

#[test]
fn esc_from_insert_submode_returns_to_editor_normal_not_the_list() {
    let (mut app, mut host) = two_notes();

    host.notes(&mut app, key('i'));
    assert_eq!(
        app.notes_popup.active_editor.as_ref().expect("editor open").mode(),
        NoteEditorMode::Insert
    );

    host.notes(&mut app, press(KeyCode::Esc));

    let editor = app
        .notes_popup
        .active_editor
        .as_ref()
        .expect("Esc from Insert must not leave the editor");
    assert_eq!(editor.mode(), NoteEditorMode::Normal);
    assert_eq!(app.mode, Mode::Notes);
}

#[test]
fn typing_in_insert_submode_edits_the_buffer_via_full_key_routing() {
    let (mut app, mut host) = one_note("");

    host.notes(&mut app, key('i'));
    for c in "hi".chars() {
        host.notes(&mut app, key(c));
    }
    host.notes(&mut app, press(KeyCode::Enter));
    for c in "there".chars() {
        host.notes(&mut app, key(c));
    }
    host.notes(&mut app, press(KeyCode::Backspace));

    let editor = app.notes_popup.active_editor.as_ref().expect("still editing");
    assert_eq!(editor.lines(), &["hi", "ther"]);
}

#[test]
fn ctrl_s_saves_the_editor_buffer_to_disk_in_either_submode() {
    let (mut app, mut host) = one_note("");

    host.notes(&mut app, key('i'));
    for c in "saved!".chars() {
        host.notes(&mut app, key(c));
    }
    host.notes(&mut app, ctrl('s'));
    assert_eq!(host.read("/notes/tasks/abc123/a.md"), "saved!\n");

    host.notes(&mut app, key('?'));
    host.notes(&mut app, press(KeyCode::Esc));
    host.notes(&mut app, ctrl('s'));
    assert_eq!(host.read("/notes/tasks/abc123/a.md"), "saved!?\n");
}

#[test]
fn handle_key_z_pins_the_active_editor_and_closes_the_popup() {
    let (mut app, mut host) = open_editor();

    host.press(&mut app, key('z'));

    assert!(app.notes_popup.active_editor.is_none(), "moved out of the popup");
    assert!(app.pinned_note.is_some(), "note now pinned");
    assert!(app.pinned_focus, "newly pinned note gets focus");
    assert_eq!(app.mode, Mode::Normal, "popup closes to Mode::Normal");
}

#[test]
fn handle_key_z_with_nothing_pinned_and_no_active_editor_is_noop() {
    let mut host = Host::new(&[]);
    let mut app = build_app();
    host.press(&mut app, key('z'));
    assert!(app.pinned_note.is_none());
    assert!(!app.pinned_focus);
}

#[test]
fn handle_key_shift_z_with_nothing_pinned_is_noop() {
    let mut host = Host::new(&[]);
    let mut app = build_app();
    host.press(&mut app, key('Z'));
    assert!(app.pinned_note.is_none());
    assert!(!app.pinned_focus);
}

#[test]
fn handle_key_z_toggles_focus_off_then_back_on_while_pinned() {
    let (mut app, mut host) = open_editor();
    host.press(&mut app, key('z'));
    assert!(app.pinned_focus);

    host.press(&mut app, key('z'));
    assert!(!app.pinned_focus, "focus moves back to the main app");
    assert!(app.pinned_note.is_some(), "note stays pinned, just unfocused");

    host.press(&mut app, key('z'));
    assert!(app.pinned_focus, "z re-focuses the pinned note");
}

#[test]
fn handle_key_shift_z_closes_pin_while_focused() {
    let (mut app, mut host) = open_editor();
    host.press(&mut app, key('z'));
    assert!(app.pinned_focus);

    host.press(&mut app, key('Z'));

    assert!(app.pinned_note.is_none(), "pin removed entirely");
    assert!(!app.pinned_focus);
}

#[test]
fn handle_key_shift_z_closes_pin_while_unfocused() {
    let (mut app, mut host) = open_editor();
    host.press(&mut app, key('z'));
    app.pinned_focus = false;

    host.press(&mut app, key('Z'));

    assert!(app.pinned_note.is_none(), "pin removed entirely");
    assert!(!app.pinned_focus);
}

#[test]
fn while_pinned_focus_true_ordinary_main_list_keys_do_not_leak_to_the_list() {
    let (mut app, mut host) = open_editor();
    host.press(&mut app, key('z'));
    let cursor_before = app.cursor;

    host.press(&mut app, key('j'));
    host.press(&mut app, key('n'));
    host.press(&mut app, key('o'));

    assert_eq!(app.cursor, cursor_before, "main list cursor must be untouched");
    assert_eq!(app.mode, Mode::Normal, "must not have opened Insert or Notes");
    assert!(app.pinned_focus, "still focused on the pinned note");
}

#[test]
fn while_pinned_and_unfocused_ordinary_main_list_keys_work_normally() {
    let (mut app, mut host) = open_editor();
    host.press(&mut app, key('z'));
    host.press(&mut app, key('z'));
    assert!(!app.pinned_focus);

    host.press(&mut app, key('n'));

    assert_eq!(
        app.mode,
        Mode::Insert,
        "main list keys must work normally while pinned but unfocused"
    );
    assert!(app.pinned_note.is_some(), "note remains pinned");
}

#[test]
fn typing_saving_and_motions_work_identically_via_the_pinned_note() {
    let (mut app, mut host) = one_note("");
    host.notes(&mut app, key('e'));
    host.notes(&mut app, key('z'));
    assert!(app.pinned_focus);
    assert!(app.notes_popup.active_editor.is_none());
    assert_eq!(
        app.pinned_note.as_ref().expect("pinned").mode(),
        NoteEditorMode::Normal
    );

    host.press(&mut app, key('i'));
    assert_eq!(
        app.pinned_note.as_ref().expect("pinned").mode(),
        NoteEditorMode::Insert
    );

    for c in "hi".chars() {
        host.press(&mut app, key(c));
    }
    host.press(&mut app, press(KeyCode::Enter));
    for c in "there".chars() {
        host.press(&mut app, key(c));
    }
    host.press(&mut app, press(KeyCode::Backspace));

    assert_eq!(
        app.pinned_note.as_ref().expect("still pinned").lines(),
        &["hi", "ther"]
    );

    host.press(&mut app, ctrl('s'));

    assert_eq!(host.read("/notes/tasks/abc123/a.md"), "hi\nther\n");
}

#[test]
fn esc_hands_the_keyboard_back_and_keeps_the_pin() {
    let (mut app, mut host) = open_editor();
    host.press(&mut app, key('z'));
    host.press(&mut app, press(KeyCode::Esc));
    assert!(!app.pinned_focus);
    assert!(app.pinned_note.is_some());
}

#[test]
fn a_reload_consumes_the_key() {
    let mut app = build_app();
    let context = KeyContext {
        reloaded: true,
        custom: None,
        custom_recurrence: None,
    };
    assert!(handle_key(&mut app, key('q'), context).is_empty());
    assert!(!app.should_quit);
}

#[test]
fn commands_end_the_same_way_in_the_pinned_note() {
    let (mut app, mut host) = pinned();
    app.toggle_pin_focus();
    for (command, refuse, open, said) in [
        (":w", None, true, None),
        (":wq", Some("write"), true, Some("note save failed: refused")),
        (":w", Some("write"), true, Some("note save failed: refused")),
        (":wq", None, false, None),
    ] {
        app.flash_text = None;
        host.refuse = refuse;
        for c in command.chars() {
            host.press(&mut app, key(c));
        }
        host.press(&mut app, press(KeyCode::Enter));
        assert_eq!(app.pinned_note.is_some(), open, "{command}");
        assert_eq!(app.flash_active(), said, "{command}");
    }
    assert!(!app.pinned_focus);
}
