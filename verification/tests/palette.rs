//! The command palette.
use tuxedo::action::Action;
use tuxedo::app::palette::{
    entries, filtered, CommandPaletteState, NotesEntryAction, PaletteDispatch,
};
use tuxedo::app::types::Mode;
use tuxedo::search::subseq_match_ci;

fn labels(needle: &str, prior: Mode) -> Vec<&'static str> {
    let rows = entries();
    filtered(needle, prior).iter().map(|h| rows[h.entry_idx].label).collect()
}

#[test]
fn empty_needle_in_normal_mode_returns_only_global_entries() {
    let rows = entries();
    let global_count = rows
        .iter()
        .filter(|e| matches!(e.dispatch, PaletteDispatch::Global(_)))
        .count();
    let hits = filtered("", Mode::Normal);
    assert_eq!(hits.len(), global_count);
    for h in &hits {
        assert!(
            matches!(rows[h.entry_idx].dispatch, PaletteDispatch::Global(_)),
            "Mode::Normal must never surface a NotesAction entry"
        );
    }
}

#[test]
fn empty_needle_in_notes_mode_returns_every_entry() {
    let hits = filtered("", Mode::Notes);
    assert_eq!(
        hits.len(),
        entries().len(),
        "Mode::Notes must surface both Global and NotesAction entries"
    );
}

#[test]
fn notes_actions_visible_only_when_prior_mode_is_notes() {
    let rows = entries();
    let visible_in_notes: Vec<&str> = filtered("", Mode::Notes)
        .iter()
        .filter(|h| matches!(rows[h.entry_idx].dispatch, PaletteDispatch::NotesAction(_)))
        .map(|h| rows[h.entry_idx].label)
        .collect();
    assert!(visible_in_notes.contains(&"create note"));
    assert!(visible_in_notes.contains(&"rename note"));
    assert!(visible_in_notes.contains(&"delete note"));
    assert!(visible_in_notes.contains(&"unlink note"));
    assert!(visible_in_notes.contains(&"open note in editor (normal mode)"));
    assert!(visible_in_notes.contains(&"open note in editor (insert mode)"));

    for prior in [Mode::Normal, Mode::Visual] {
        let hits = filtered("", prior);
        assert!(
            hits.iter()
                .all(|h| !matches!(rows[h.entry_idx].dispatch, PaletteDispatch::NotesAction(_))),
            "NotesAction entries must be hidden when prior mode is {prior:?}"
        );
    }
}

#[test]
fn global_entries_remain_visible_regardless_of_prior_mode() {
    let rows = entries();
    let normal_count = filtered("", Mode::Normal).len();
    let global_in_notes = filtered("", Mode::Notes)
        .iter()
        .filter(|h| matches!(rows[h.entry_idx].dispatch, PaletteDispatch::Global(_)))
        .count();
    assert_eq!(
        normal_count, global_in_notes,
        "every Global entry visible from Mode::Normal must also be visible from Mode::Notes"
    );
}

#[test]
fn matches_subsequence_in_label() {
    let rows = entries();
    let hits = filtered("arch", Mode::Normal);
    assert!(!hits.is_empty());
    for h in &hits {
        let label = rows[h.entry_idx].label.to_lowercase();
        let mut needle = "arch".chars();
        let mut cur = needle.next();
        for ch in label.chars() {
            if Some(ch) == cur {
                cur = needle.next();
            }
        }
        assert!(
            cur.is_none(),
            "label {:?} should match 'arch'",
            rows[h.entry_idx].label
        );
    }
}

#[test]
fn no_match_returns_empty() {
    assert!(filtered("zzzqqq", Mode::Normal).is_empty());
}

#[test]
fn start_of_label_ranks_above_mid_label() {
    let labels = labels("arch", Mode::Normal);
    assert_eq!(labels.first().copied(), Some("archive completed tasks"));
}

#[test]
fn word_boundary_ranks_above_mid_word() {
    let labels = labels("arch", Mode::Normal);
    let toggle = labels
        .iter()
        .position(|&l| l == "toggle archive view")
        .expect("toggle archive view in results");
    let fuzzy = labels
        .iter()
        .position(|&l| l == "fuzzy search")
        .expect("fuzzy search in results");
    assert!(
        toggle < fuzzy,
        "word-boundary match (toggle archive view) should rank above mid-word match (fuzzy search)"
    );
}

#[test]
fn tighter_match_ranks_above_gappier_within_tier() {
    let labels = labels("ye", Mode::Normal);
    let theme = labels.iter().position(|&l| l == "cycle theme");
    let density = labels.iter().position(|&l| l == "cycle density");
    if let (Some(t), Some(d)) = (theme, density) {
        assert!(t < d, "tighter span should rank first within a tier");
    }
}

#[test]
fn case_insensitive_match() {
    let upper = filtered("ARCH", Mode::Normal);
    let lower = filtered("arch", Mode::Normal);
    assert_eq!(upper.len(), lower.len());
    let upper_ids: Vec<usize> = upper.iter().map(|h| h.entry_idx).collect();
    let lower_ids: Vec<usize> = lower.iter().map(|h| h.entry_idx).collect();
    assert_eq!(upper_ids, lower_ids);
}

#[test]
fn entries_cover_every_meaningful_action() {
    let actions: Vec<Action> = entries()
        .iter()
        .filter_map(|e| match e.dispatch {
            PaletteDispatch::Global(a) => Some(a),
            PaletteDispatch::NotesAction(_) => None,
        })
        .collect();
    let required = [
        Action::Quit,
        Action::CursorDown,
        Action::CursorUp,
        Action::CursorTop,
        Action::CursorBottom,
        Action::HalfPageDown,
        Action::HalfPageUp,
        Action::BeginAdd,
        Action::BeginEdit,
        Action::BeginEditInsert,
        Action::ToggleComplete,
        Action::Delete,
        Action::CyclePriority,
        Action::MoveTaskDown,
        Action::MoveTaskUp,
        Action::BeginSearch,
        Action::OpenHelp,
        Action::OpenSettings,
        Action::OpenCommandPalette,
        Action::Undo,
        Action::ToggleVisual,
        Action::ToggleSelected,
        Action::GoList,
        Action::ToggleArchiveView,
        Action::ArchiveCompleted,
        Action::PickProject,
        Action::PickContext,
        Action::CycleSort,
        Action::BeginPromptProject,
        Action::BeginPromptContext,
        Action::ToggleLeftPane,
        Action::ToggleRightPane,
        Action::CycleTheme,
        Action::CycleDensity,
        Action::ToggleLineNum,
        Action::ToggleShowDone,
        Action::ToggleShowFuture,
        Action::CopyLine,
        Action::CopyBody,
        Action::OpenNotes,
        Action::EscapeStack,
        Action::OpenShare,
        Action::OpenThemePicker,
        Action::Reschedule,
    ];
    for a in required {
        assert!(actions.contains(&a), "missing palette entry for {a:?}");
    }
}

#[test]
fn entries_cover_every_notes_action() {
    let notes_actions: Vec<NotesEntryAction> = entries()
        .iter()
        .filter_map(|e| match e.dispatch {
            PaletteDispatch::NotesAction(a) => Some(a),
            PaletteDispatch::Global(_) => None,
        })
        .collect();
    let required = [
        NotesEntryAction::Create,
        NotesEntryAction::Rename,
        NotesEntryAction::Delete,
        NotesEntryAction::Unlink,
        NotesEntryAction::OpenEditorNormal,
        NotesEntryAction::OpenEditorInsert,
    ];
    for a in required {
        assert!(
            notes_actions.contains(&a),
            "missing palette entry for NotesEntryAction::{a:?}"
        );
    }
}

#[test]
fn subsequence_positions_are_leftmost_bytes() {
    assert_eq!(subseq_match_ci("toggle archive", "ARCH"), Some(vec![7, 8, 9, 10]));
    assert_eq!(subseq_match_ci("añb", "B"), Some(vec![3]));
    assert_eq!(subseq_match_ci("abc", "ca"), None);
    assert_eq!(subseq_match_ci("abc", ""), Some(vec![]));
}

#[test]
fn hits_carry_the_matched_positions() {
    let rows = entries();
    let hits = filtered("undo", Mode::Normal);
    assert_eq!(rows[hits[0].entry_idx].label, "undo");
    assert_eq!(hits[0].match_positions, vec![0, 1, 2, 3]);
    assert!(filtered("", Mode::Normal).iter().all(|h| h.match_positions.is_empty()));
}

#[test]
fn palette_steps_wrap_and_refresh_resets_the_highlight() {
    let mut state = CommandPaletteState::default();
    state.step(1);
    assert_eq!(state.cursor, 0, "no hits, no step");
    state.open(Mode::Visual);
    let n = state.hits().len();
    state.step(-1);
    assert_eq!(state.cursor, n - 1);
    state.step(1);
    assert_eq!(state.cursor, 0);
    state.step(3);
    state.refresh("");
    assert_eq!(state.cursor, 3, "the same needle changes nothing");
    state.refresh("undo");
    assert_eq!(state.cursor, 0);
    assert_eq!(state.current_dispatch(), Some(PaletteDispatch::Global(Action::Undo)));
    state.refresh("zzzqqq");
    assert_eq!(state.current_dispatch(), None);
    assert_eq!(state.prior(), Some(Mode::Visual));
    assert_eq!(state.take_prior(), Mode::Visual);
    assert_eq!(state.take_prior(), Mode::Normal);
}

#[test]
fn the_pinned_note_is_reached_from_the_palette() {
    let rows = entries();
    for action in [Action::TogglePinFocus, Action::ClosePinnedNote] {
        for prior in [Mode::Normal, Mode::Visual, Mode::Notes] {
            assert!(filtered("", prior)
                .iter()
                .any(|h| rows[h.entry_idx].dispatch == PaletteDispatch::Global(action)));
        }
    }
    assert!(!rows
        .iter()
        .any(|e| e.dispatch == PaletteDispatch::Global(Action::ArmF)));
}

#[test]
fn other_modes_list_what_the_notes_popup_does_without_its_operations() {
    let rows = entries();
    for needle in ["", "n", "no", "e", "arch", "zzz"] {
        let expected: Vec<usize> = filtered(needle, Mode::Notes)
            .iter()
            .map(|h| h.entry_idx)
            .filter(|i| matches!(rows[*i].dispatch, PaletteDispatch::Global(_)))
            .collect();
        for prior in [Mode::Normal, Mode::Visual, Mode::Insert] {
            let listed: Vec<usize> =
                filtered(needle, prior).iter().map(|h| h.entry_idx).collect();
            assert_eq!(listed, expected);
        }
    }
}
