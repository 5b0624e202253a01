//! Notes folders, their links, their listing and their template.
use tuxedo::note::{
    fallback_notes_id, folder_for_task, generate_notes_id, hex_encode, id_from_entropy,
    legacy_note_rel_from_raw, list_notes, migrate_legacy_note, migrated_raw, note_template,
    notes_dir_from_config, notes_id_from_raw, notes_token, unlink_target, NotesEnv,
};
use tuxedo::path;
use tuxedo::text;
use tuxedo::todo::Task;

fn env(notes_dir: Option<&str>, home: Option<&str>) -> NotesEnv {
    NotesEnv {
        notes_dir: notes_dir.map(|s| s.to_string()),
        home: home.map(|s| s.to_string()),
    }
}

fn plain(raw: &str) -> Task {
    Task {
        raw: raw.to_string(),
        body: "Do thing".to_string(),
        done: false,
        priority: None,
        created_date: None,
        due: None,
        projects: vec!["Proj".to_string()],
        contexts: vec!["ctx".to_string()],
    }
}

fn names(list: &[&str]) -> Vec<String> {
    list.iter().map(|s| s.to_string()).collect()
}

#[test]
fn notes_dir_prefers_configured_value() {
    let dir = notes_dir_from_config(Some("/tmp/custom-notes"), &env(Some("/other"), Some("/home/me")));
    assert_eq!(dir, "/tmp/custom-notes");
}

#[test]
fn notes_dir_expands_configured_tilde() {
    let dir = notes_dir_from_config(Some("~/notes-work"), &env(None, Some("/home/me")));
    assert_eq!(dir, "/home/me/notes-work");
    assert_eq!(notes_dir_from_config(Some("~"), &env(None, Some("/home/me"))), "/home/me");
    assert_eq!(notes_dir_from_config(Some("~/x"), &env(None, None)), "~/x");
}

#[test]
fn template_contains_title_metadata_and_preserved_notes_section() {
    let task = Task {
        raw: "(B) Flow +EstudoViabilidade @charlie @clickup due:2026-06-23 clickup:86ahz8gcg"
            .to_string(),
        body: "Flow".to_string(),
        done: false,
        priority: Some('B'),
        created_date: None,
        due: Some("2026-06-23".to_string()),
        projects: vec!["EstudoViabilidade".to_string()],
        contexts: vec!["charlie".to_string(), "clickup".to_string()],
    };
    let rendered = note_template(&task);

    assert!(rendered.starts_with("# Flow\n"));
    assert!(rendered.contains("- Priority: B\n"));
    assert!(rendered.contains("- Due: 2026-06-23\n"));
    assert!(rendered.contains("- Projects: +EstudoViabilidade\n"));
    assert!(rendered.contains("- Contexts: @charlie @clickup\n"));
    assert!(rendered.contains("- ClickUp: 86ahz8gcg\n"));
    assert!(rendered.contains("## My notes\n\n"));
}

#[test]
fn template_of_a_task_without_a_body_is_titled_task() {
    let mut task = plain("+Proj");
    task.body = String::new();
    assert!(note_template(&task).starts_with("# Task\n\n## Metadata\n\n"));
}

#[test]
fn notes_id_from_raw_finds_id_from_token() {
    let raw = "Write PR summary +work notes:a1b2c3d4/";
    assert_eq!(notes_id_from_raw(raw), Some("a1b2c3d4".to_string()));
}

#[test]
fn notes_id_from_raw_returns_none_when_absent() {
    let raw = "Write PR summary +work";
    assert_eq!(notes_id_from_raw(raw), None);
}

#[test]
fn folder_for_task_resolves_existing_notes_token() {
    let task = plain("Do thing +Proj @ctx notes:deadbeef/");
    let folder = folder_for_task(&task, "/home/me/notes", 0, 0);

    assert_eq!(folder.id, "deadbeef");
    assert_eq!(folder.dir, "/home/me/notes/tasks/deadbeef");
    assert!(folder.existed_in_task);
}

#[test]
fn folder_for_task_generates_fresh_id_when_no_notes_token() {
    let task = plain("Do thing +Proj @ctx");
    let folder = folder_for_task(&task, "/home/me/notes", 0, 0);

    assert!(!folder.existed_in_task);
    assert!(!folder.id.is_empty());
    assert!(folder.dir.starts_with("/home/me/notes/tasks"));
    assert_eq!(folder.dir, format!("/home/me/notes/tasks/{}", folder.id));
}

#[test]
fn generate_notes_id_produces_distinct_values_without_title_input() {
    let mut ids = std::collections::HashSet::new();
    for _ in 0..100 {
        ids.insert(generate_notes_id(0, 0));
    }
    assert_eq!(ids.len(), 100);
}

#[test]
fn ids_are_sixteen_hexadecimal_digits() {
    let id = generate_notes_id(0, 0);
    assert_eq!(id.len(), 16);
    assert!(id.chars().all(|c| c.is_ascii_hexdigit() && !c.is_ascii_uppercase()));
    assert_eq!(hex_encode(&vec![0x00, 0x0f, 0xa0, 0xff]), "000fa0ff");
}

#[test]
fn ids_fall_back_to_clock_and_counter() {
    assert_eq!(fallback_notes_id(0x1a2b, 0x1f), "1a2b1f");
    assert_eq!(fallback_notes_id(0, 0), "00");
    assert_eq!(id_from_entropy(None, 255, 1), "ff1");
    assert_eq!(id_from_entropy(Some(vec![1, 2]), 255, 1), "0102");
}

#[test]
fn list_notes_returns_only_md_files_sorted() {
    let files = list_notes("/n", &names(&["b.md", "a.md", "ignore.txt", "c.MD"]));
    assert_eq!(files, names(&["/n/a.md", "/n/b.md"]));
}

#[test]
fn list_notes_on_missing_dir_returns_empty() {
    assert_eq!(list_notes("/missing", &Vec::new()), Vec::<String>::new());
}

#[test]
fn migrate_legacy_note_moves_file_into_new_dir() {
    let target = migrate_legacy_note("/base/legacy.md", "/base/tasks/newid");
    assert_eq!(target, Ok("/base/tasks/newid/legacy.md".to_string()));
}

#[test]
fn a_path_without_a_name_cannot_be_migrated() {
    assert_eq!(
        migrate_legacy_note("/base/..", "/base/tasks/newid"),
        Err("old_path has no file name".to_string())
    );
}

#[test]
fn a_linked_line_resolves_to_its_folder() {
    let linked = format!("Write PR summary +work {}", notes_token("ab12"));
    assert_eq!(notes_id_from_raw(&linked), Some("ab12".to_string()));
}

#[test]
fn migrating_a_line_drops_the_legacy_token_and_links_the_folder() {
    let raw = "Write PR +work note:projects/example.md";
    let rel = legacy_note_rel_from_raw(raw).expect("legacy token");
    assert_eq!(rel, "projects/example.md");
    let line = migrated_raw(raw, &rel, "ff00");
    assert_eq!(line, "Write PR +work notes:ff00/");
    assert_eq!(notes_id_from_raw(&line), Some("ff00".to_string()));
    assert_eq!(legacy_note_rel_from_raw("a note:\"x.md\""), Some("x.md".to_string()));
    assert_eq!(legacy_note_rel_from_raw("a note:"), None);
}

#[test]
fn unlinked_notes_keep_their_name_unless_it_is_taken() {
    assert_eq!(unlink_target("/n", "a.md", "id9", false), "/n/unlinked/a.md");
    assert_eq!(unlink_target("/n", "a.md", "id9", true), "/n/unlinked/id9-a.md");
}

#[test]
fn paths_join_and_compare_by_component() {
    assert_eq!(path::join("/a", "b"), "/a/b");
    assert_eq!(path::join("/a/", "b"), "/a/b");
    assert_eq!(path::join("/a", "/b"), "/b");
    assert_eq!(path::file_name("/a/b.md"), Some("b.md".to_string()));
    assert_eq!(path::file_name("/a/.."), None);
    assert!(path::same("/a//b/", "/a/./b"));
    assert!(!path::same("/a/b", "a/b"));
    assert!(!path::same("./a", "a"));
}

#[test]
fn text_helpers_follow_unicode() {
    assert!(text::eq_folded('É', 'é'));
    assert!(text::eq_folded('A', 'a'));
    assert!(!text::eq_folded('a', 'b'));
    assert_eq!(text::byte_offset("añb", 2), 3);
    assert_eq!(text::decimal(0), "0");
    assert_eq!(text::decimal(1204), "1204");
    assert_eq!(text::hexadecimal(0xbeef), "beef");
    assert_eq!(text::trim("  a b \n"), "a b");
}

#[test]
fn words_that_name_no_id_are_passed_over() {
    assert_eq!(
        notes_id_from_raw("Buy milk notes:todo notes:a1b2/"),
        Some("a1b2".to_string())
    );
    assert_eq!(notes_id_from_raw("notes:/ notes:\"x/\" notes:y/"), Some("x".to_string()));
    assert_eq!(notes_id_from_raw("Buy milk notes:todo"), None);
    let linked = format!("Buy milk notes:todo {}", notes_token("a1b2"));
    assert_eq!(notes_id_from_raw(&linked), Some("a1b2".to_string()));
    let migrated = migrated_raw("Buy note:x.md notes:todo", "x.md", "a1b2");
    assert_eq!(migrated, "Buy notes:todo notes:a1b2/");
    assert_eq!(notes_id_from_raw(&migrated), Some("a1b2".to_string()));
    assert_eq!(
        legacy_note_rel_from_raw("a note: note:b.md note:c.md"),
        Some("b.md".to_string())
    );
}
