//! The embedded note editor.
use tuxedo::app::note_editor::{
    lines_from_content, NoteCommand, NoteCommandResult, NoteEditorMode, NoteEditorState,
};

fn opened(content: Option<&str>, mode: NoteEditorMode) -> NoteEditorState {
    NoteEditorState::load("note.md".to_string(), content.map(|c| c.to_string()), mode)
}

fn typing(editor: &mut NoteEditorState, s: &str) {
    for c in s.chars() {
        editor.insert_char(c);
    }
}

/// Runs the `:`-command in the prompt, with a disk that takes every write or
/// refuses it; what was written comes along.
fn run_command(editor: &mut NoteEditorState, disk: Result<(), String>) -> (NoteCommandResult, Option<String>) {
    match editor.execute_command_prompt() {
        NoteCommand::Done(r) => (r, None),
        NoteCommand::Save { close } => {
            let content = editor.content();
            let written = disk.is_ok();
            let r = editor.finish_command(close, disk);
            (r, if written { Some(content) } else { None })
        }
    }
}

#[test]
fn load_splits_file_content_into_lines() {
    let editor = opened(Some("first\nsecond\nthird\n"), NoteEditorMode::Normal);

    assert_eq!(editor.lines(), &["first", "second", "third"]);
    assert_eq!(editor.cursor_line(), 0);
    assert_eq!(editor.cursor_col(), 0);
    assert!(!editor.dirty());
}

#[test]
fn load_missing_file_gives_single_empty_line_without_panicking() {
    let editor = opened(None, NoteEditorMode::Normal);
    assert_eq!(editor.lines(), &[String::new()]);
}

#[test]
fn load_empty_file_gives_single_empty_line_without_panicking() {
    let editor = opened(Some(""), NoteEditorMode::Normal);
    assert_eq!(editor.lines(), &[String::new()]);
}

#[test]
fn load_starts_in_the_requested_mode() {
    let normal = opened(Some("hello\n"), NoteEditorMode::Normal);
    assert_eq!(normal.mode(), NoteEditorMode::Normal);
    let insert = opened(Some("hello\n"), NoteEditorMode::Insert);
    assert_eq!(insert.mode(), NoteEditorMode::Insert);
}

#[test]
fn only_one_newline_at_the_end_is_dropped() {
    assert_eq!(lines_from_content("a\n\n"), vec!["a".to_string(), String::new()]);
    assert_eq!(lines_from_content("\n"), vec![String::new()]);
    assert_eq!(lines_from_content("a"), vec!["a".to_string()]);
}

#[test]
fn save_writes_lines_joined_with_newlines_to_disk() {
    let mut editor = opened(None, NoteEditorMode::Normal);
    editor.insert_char('a');
    editor.split_line();
    editor.insert_char('b');

    assert_eq!(editor.content(), "a\nb\n");
    editor.save(Ok(())).expect("save");
    assert!(!editor.dirty());
}

#[test]
fn a_failed_save_leaves_the_buffer_dirty() {
    let mut editor = opened(None, NoteEditorMode::Normal);
    editor.insert_char('a');
    assert_eq!(editor.save(Err("disk full".to_string())), Err("disk full".to_string()));
    assert!(editor.dirty());
}

#[test]
fn save_then_load_round_trips_the_same_lines() {
    let mut editor = opened(None, NoteEditorMode::Normal);
    typing(&mut editor, "hello");
    editor.split_line();
    typing(&mut editor, "world");
    let written = editor.content();

    let reloaded = opened(Some(&written), NoteEditorMode::Normal);

    assert_eq!(reloaded.lines(), &["hello", "world"]);
}

#[test]
fn insert_char_inserts_at_cursor_and_advances() {
    let mut editor = opened(None, NoteEditorMode::Insert);
    editor.insert_char('a');
    editor.insert_char('c');
    editor.move_left();
    editor.insert_char('b');

    assert_eq!(editor.lines(), &["abc"]);
    assert_eq!(editor.cursor_col(), 2);
    assert!(editor.dirty());
}

#[test]
fn enter_splits_the_current_line_in_two() {
    let mut editor = opened(None, NoteEditorMode::Insert);
    typing(&mut editor, "hello world");
    for _ in 0.."world".len() {
        editor.move_left();
    }
    editor.split_line();

    assert_eq!(editor.lines(), &["hello ", "world"]);
    assert_eq!(editor.cursor_line(), 1);
    assert_eq!(editor.cursor_col(), 0);
}

#[test]
fn backspace_deletes_the_character_before_the_cursor() {
    let mut editor = opened(None, NoteEditorMode::Insert);
    typing(&mut editor, "abc");
    editor.backspace();

    assert_eq!(editor.lines(), &["ab"]);
    assert_eq!(editor.cursor_col(), 2);
}

#[test]
fn backspace_at_column_zero_joins_with_previous_line() {
    let mut editor = opened(None, NoteEditorMode::Insert);
    typing(&mut editor, "hello");
    editor.split_line();
    typing(&mut editor, "world");
    editor.move_left();
    for _ in 0.."world".len() - 1 {
        editor.move_left();
    }
    assert_eq!(editor.cursor_col(), 0);

    editor.backspace();

    assert_eq!(editor.lines(), &["helloworld"]);
    assert_eq!(editor.cursor_line(), 0);
    assert_eq!(editor.cursor_col(), 5, "cursor lands at the join point");
}

#[test]
fn backspace_at_very_start_of_buffer_is_noop_without_panicking() {
    let mut editor = opened(None, NoteEditorMode::Normal);

    editor.backspace();

    assert_eq!(editor.lines(), &[String::new()]);
    assert_eq!(editor.cursor_line(), 0);
    assert_eq!(editor.cursor_col(), 0);
    assert!(!editor.dirty());
}

#[test]
fn move_up_and_down_clamp_at_buffer_bounds() {
    let mut editor = opened(Some("a\nb\nc\n"), NoteEditorMode::Normal);

    editor.move_up();
    assert_eq!(editor.cursor_line(), 0, "must not go negative");

    editor.move_down();
    editor.move_down();
    assert_eq!(editor.cursor_line(), 2);
    editor.move_down();
    assert_eq!(editor.cursor_line(), 2, "must clamp at the last line");
}

#[test]
fn move_left_and_right_clamp_at_line_bounds() {
    let mut editor = opened(Some("ab\n"), NoteEditorMode::Normal);

    editor.move_left();
    assert_eq!(editor.cursor_col(), 0, "must not go negative");

    editor.move_right();
    editor.move_right();
    assert_eq!(editor.cursor_col(), 2);
    editor.move_right();
    assert_eq!(editor.cursor_col(), 2, "must clamp at the line's length");
}

#[test]
fn moving_to_a_shorter_line_clamps_the_column() {
    let mut editor = opened(Some("hello\nhi\n"), NoteEditorMode::Normal);
    editor.move_right();
    editor.move_right();
    editor.move_right();
    editor.move_right();
    assert_eq!(editor.cursor_col(), 4);

    editor.move_down();

    assert_eq!(editor.cursor_line(), 1);
    assert_eq!(editor.cursor_col(), 2, "clamped to \"hi\"'s length");
}

#[test]
fn enter_insert_switches_mode_and_esc_returns_to_normal() {
    let mut editor = opened(None, NoteEditorMode::Normal);

    editor.enter_insert();
    assert_eq!(editor.mode(), NoteEditorMode::Insert);

    editor.esc_to_normal();
    assert_eq!(
        editor.mode(),
        NoteEditorMode::Normal,
        "Esc from Insert returns to Normal, not out of the editor"
    );
}

#[test]
fn accented_text_can_be_inserted_moved_through_and_saved_without_panicking() {
    let mut editor = opened(None, NoteEditorMode::Insert);
    typing(&mut editor, "café con leche y años");
    for _ in 0.."café con leche y años".chars().count() {
        editor.move_left();
    }
    assert_eq!(editor.cursor_col(), 0);
    for _ in 0.."café con leche y años".chars().count() {
        editor.move_right();
    }
    editor.insert_char('ñ');
    editor.backspace();

    let saved = editor.content();
    assert_eq!(saved, "café con leche y años\n");

    let reloaded = opened(Some(&saved), NoteEditorMode::Normal);
    assert_eq!(reloaded.lines(), &["café con leche y años"]);
}

#[test]
fn split_and_backspace_join_are_utf8_safe_around_multibyte_chars() {
    let mut editor = opened(None, NoteEditorMode::Insert);
    typing(&mut editor, "años");
    editor.move_left();
    editor.move_left();
    editor.split_line();
    assert_eq!(editor.lines(), &["añ", "os"]);

    editor.backspace();

    assert_eq!(editor.lines(), &["años"]);
    assert_eq!(editor.cursor_col(), 2);
}

#[test]
fn command_prompt_starts_closed_and_open_gives_an_empty_buffer() {
    let mut editor = opened(None, NoteEditorMode::Normal);
    assert_eq!(editor.command_prompt(), None);

    editor.open_command_prompt();
    assert_eq!(editor.command_prompt(), Some(""));
}

#[test]
fn command_prompt_push_and_backspace_edit_the_buffer() {
    let mut editor = opened(None, NoteEditorMode::Normal);
    editor.open_command_prompt();

    editor.command_prompt_push('w');
    editor.command_prompt_push('q');
    assert_eq!(editor.command_prompt(), Some("wq"));

    editor.command_prompt_backspace();
    assert_eq!(editor.command_prompt(), Some("w"));
}

#[test]
fn command_prompt_push_and_backspace_are_noops_when_prompt_is_closed() {
    let mut editor = opened(None, NoteEditorMode::Normal);

    editor.command_prompt_push('w');
    editor.command_prompt_backspace();

    assert_eq!(editor.command_prompt(), None);
}

#[test]
fn cancel_command_prompt_discards_the_buffer_without_side_effects() {
    let mut editor = opened(Some("content\n"), NoteEditorMode::Normal);
    editor.open_command_prompt();
    editor.command_prompt_push('w');

    editor.cancel_command_prompt();

    assert_eq!(editor.command_prompt(), None);
    assert!(!editor.dirty());
    assert_eq!(editor.content(), "content\n");
}

#[test]
fn execute_command_prompt_w_saves_and_returns_ok() {
    let mut editor = opened(None, NoteEditorMode::Insert);
    typing(&mut editor, "hello");
    editor.esc_to_normal();
    editor.open_command_prompt();
    editor.command_prompt_push('w');

    let (result, written) = run_command(&mut editor, Ok(()));

    assert_eq!(result, NoteCommandResult::Completed);
    assert_eq!(editor.command_prompt(), None, "prompt closed either way");
    assert_eq!(written, Some("hello\n".to_string()));
}

#[test]
fn execute_command_prompt_q_requests_close_without_saving() {
    let mut editor = opened(None, NoteEditorMode::Insert);
    editor.insert_char('a');
    editor.esc_to_normal();
    editor.open_command_prompt();
    editor.command_prompt_push('q');

    let (result, written) = run_command(&mut editor, Ok(()));

    assert_eq!(result, NoteCommandResult::CloseRequested);
    assert_eq!(written, None, "q never saves");
}

#[test]
fn execute_command_prompt_wq_and_x_save_then_request_close() {
    for cmd in ["wq", "x"] {
        let mut editor = opened(None, NoteEditorMode::Insert);
        typing(&mut editor, "saved");
        editor.esc_to_normal();
        editor.open_command_prompt();
        for c in cmd.chars() {
            editor.command_prompt_push(c);
        }

        let (result, written) = run_command(&mut editor, Ok(()));

        assert_eq!(result, NoteCommandResult::CloseRequested, "cmd = {cmd}");
        assert_eq!(written, Some("saved\n".to_string()), "cmd = {cmd}");
    }
}

#[test]
fn execute_command_prompt_wq_save_failure_stays_open_with_flashed_error() {
    let mut editor = opened(None, NoteEditorMode::Normal);
    editor.open_command_prompt();
    for c in "wq".chars() {
        editor.command_prompt_push(c);
    }

    let (result, _) = run_command(&mut editor, Err("is a directory".to_string()));

    match result {
        NoteCommandResult::Error(msg) => {
            assert_eq!(msg, "note save failed: is a directory")
        }
        other => panic!("expected Error, got {other:?}"),
    }
}

#[test]
fn execute_command_prompt_unknown_command_flashes_error_and_does_not_close() {
    let mut editor = opened(None, NoteEditorMode::Normal);
    editor.open_command_prompt();
    for c in "zz".chars() {
        editor.command_prompt_push(c);
    }

    let (result, _) = run_command(&mut editor, Ok(()));

    assert_eq!(
        result,
        NoteCommandResult::Error("unknown command: zz".to_string())
    );
}

#[test]
fn execute_command_prompt_empty_command_flashes_a_sensible_error() {
    let mut editor = opened(None, NoteEditorMode::Normal);
    editor.open_command_prompt();

    let (result, _) = run_command(&mut editor, Ok(()));

    assert_eq!(result, NoteCommandResult::Error("no command".to_string()));
}
