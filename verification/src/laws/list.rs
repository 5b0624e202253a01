//! What the keys and commands of the main list do, said key by key and command
//! by command.
use crate::action::Action;
use crate::app::palette;
use crate::app::palette::PaletteDispatch;
use crate::app::types::{Mode, View as Screen};
use crate::app::AppView;
use crate::dispatch::actions;
use crate::dispatch::apply;
use crate::dispatch::actions::{Resolved, ResolvedKey};
use crate::dispatch::request::{Op, Reaction, RequestView, TextOp};
use crate::dispatch::KeyContext;
use crate::keys::{KeyCode, KeyEvent, KeyModifiers};
use crate::text;
use crate::todo::Task;
use vstd::prelude::*;

verus! {

/// A key pressed alone.
pub open spec fn alone(code: KeyCode) -> KeyEvent {
    KeyEvent { code, modifiers: KeyModifiers { control: false, alt: false, other: false } }
}

/// A character typed alone.
pub open spec fn typed(c: char) -> KeyEvent {
    alone(KeyCode::Char(c))
}

/// A character typed with Control held.
pub open spec fn with_control(c: char) -> KeyEvent {
    KeyEvent {
        code: KeyCode::Char(c),
        modifiers: KeyModifiers { control: true, alt: false, other: false },
    }
}

/// A key pressed with the files as they were and no bindings of the user's own.
#[verifier::opaque]
pub open spec fn pressed(v: AppView, key: KeyEvent) -> Reaction {
    v.keyed(key, KeyContext { reloaded: false, custom: None, custom_recurrence: None })
}

/// The main list has the keyboard.
pub open spec fn on_the_list(v: AppView) -> bool {
    !v.pinned_focus && (v.mode == Mode::Normal || v.mode == Mode::Visual)
}

/// Whether a text as the palette shows it names a key: a character stands for
/// itself, arrows, `Esc` and `Space` for theirs, and `Ctrl-` for a character held
/// with Control.
pub open spec fn names_key(name: Seq<char>, key: KeyEvent) -> bool {
    if name == "↓"@ {
        key == alone(KeyCode::Down)
    } else if name == "↑"@ {
        key == alone(KeyCode::Up)
    } else if name == "Esc"@ {
        key == alone(KeyCode::Esc)
    } else if name == "Space"@ {
        key == typed(' ')
    } else if name.len() == 6 && name.take(5) == "Ctrl-"@ {
        key == with_control(text::ascii_lower(name[5]))
    } else {
        name.len() == 1 && key == typed(name[0])
    }
}

/// Whether a text as the palette shows it stands for one key, which may be either
/// of two that a slash parts.
pub open spec fn shows_key(shown: Seq<char>, key: KeyEvent) -> bool {
    names_key(shown, key) || exists|k: int|
        #![trigger shown.take(k)]
        0 < k < shown.len() - 3 && shown[k] == ' ' && shown[k + 1] == '/' && shown[k + 2] == ' ' && (
        names_key(shown.take(k), key) || names_key(shown.skip(k + 3), key))
}

/// Whether a text as the palette shows it is a chord: two characters, one after
/// the other.
pub open spec fn shows_chord(shown: Seq<char>) -> bool {
    shown.len() == 2
}

/// The command that a key or a chord of two keys comes to in the list.
pub open spec fn runs(v: AppView, shown: Seq<char>, action: Action) -> bool {
    &&& forall|key: KeyEvent|
        #![trigger shows_key(shown, key)]
        shows_key(shown, key) ==> actions::normal_key(v.leader, key, None).action == Some(action)
    &&& shows_chord(shown) ==> actions::normal_key(
        pressed(v, typed(shown[0])).app.leader,
        typed(shown[1]),
        None,
    ).action == Some(action)
}

/// A row of the catalogue, where it is for the main list, shows the keys that run
/// its command.
pub open spec fn catalogue_row_runs(v: AppView, i: int) -> bool {
    palette::catalogue()[i].dispatch matches PaletteDispatch::Global(action) ==> runs(
        v,
        palette::catalogue()[i].keys@,
        action,
    )
}

proof fn lemma_key_names()
    ensures
        "↓"@.len() == 1 && "↓"@[0] == '↓',
        "↑"@.len() == 1 && "↑"@[0] == '↑',
        "Esc"@.len() == 3 && "Esc"@[0] == 'E',
        "Space"@.len() == 5 && "Space"@[0] == 'S',
        "Ctrl-"@ == seq!['C', 't', 'r', 'l', '-'],
{
    reveal_strlit("↓");
    reveal_strlit("↑");
    reveal_strlit("Esc");
    reveal_strlit("Space");
    reveal_strlit("Ctrl-");
    assert("Ctrl-"@ =~= seq!['C', 't', 'r', 'l', '-']);
}

proof fn lemma_leaders(v: AppView)
    requires
        on_the_list(v),
        v.leader is None,
    ensures
        forall|c: char|
            #![trigger pressed(v, typed(c))]
            c == 'f' || c == 'g' || c == 'd' || c == 'y' ==> pressed(v, typed(c)).app.leader
                == Some(c),
{
    reveal(pressed);
    reveal(AppView::switched);
}

proof fn lemma_rows_from_0(v: AppView, i: int)
    requires
        on_the_list(v),
        v.leader is None,
        0 <= i < 4,
    ensures
        catalogue_row_runs(v, i),
{
    reveal(palette::catalogue);
    lemma_leaders(v);
    lemma_key_names();
    if i == 0 {
        reveal_strlit("n");
        assert(palette::catalogue()[0].keys@ == "n"@);
        assert(palette::catalogue()[0].dispatch == PaletteDispatch::Global(Action::BeginAdd));
    }
    if i == 1 {
        reveal_strlit("e");
        assert(palette::catalogue()[1].keys@ == "e"@);
        assert(palette::catalogue()[1].dispatch == PaletteDispatch::Global(Action::BeginEdit));
    }
    if i == 2 {
        reveal_strlit("i");
        assert(palette::catalogue()[2].keys@ == "i"@);
        assert(palette::catalogue()[2].dispatch == PaletteDispatch::Global(Action::BeginEditInsert));
    }
    if i == 3 {
        reveal_strlit("x");
        assert(palette::catalogue()[3].keys@ == "x"@);
        assert(palette::catalogue()[3].dispatch == PaletteDispatch::Global(Action::ToggleComplete));
    }
}

proof fn lemma_rows_from_4(v: AppView, i: int)
    requires
        on_the_list(v),
        v.leader is None,
        4 <= i < 8,
    ensures
        catalogue_row_runs(v, i),
{
    reveal(palette::catalogue);
    lemma_leaders(v);
    lemma_key_names();
    if i == 4 {
        reveal_strlit("dd");
        assert(palette::catalogue()[4].keys@ == "dd"@);
        assert(palette::catalogue()[4].dispatch == PaletteDispatch::Global(Action::Delete));
    }
    if i == 5 {
        reveal_strlit("p");
        assert(palette::catalogue()[5].keys@ == "p"@);
        assert(palette::catalogue()[5].dispatch == PaletteDispatch::Global(Action::CyclePriority));
    }
    if i == 6 {
        reveal_strlit("J");
        assert(palette::catalogue()[6].keys@ == "J"@);
        assert(palette::catalogue()[6].dispatch == PaletteDispatch::Global(Action::MoveTaskDown));
    }
    if i == 7 {
        reveal_strlit("K");
        assert(palette::catalogue()[7].keys@ == "K"@);
        assert(palette::catalogue()[7].dispatch == PaletteDispatch::Global(Action::MoveTaskUp));
    }
}

proof fn lemma_rows_from_8(v: AppView, i: int)
    requires
        on_the_list(v),
        v.leader is None,
        8 <= i < 12,
    ensures
        catalogue_row_runs(v, i),
{
    reveal(palette::catalogue);
    lemma_leaders(v);
    lemma_key_names();
    if i == 8 {
        reveal_strlit("+");
        assert(palette::catalogue()[8].keys@ == "+"@);
        assert(palette::catalogue()[8].dispatch == PaletteDispatch::Global(Action::BeginPromptProject));
    }
    if i == 9 {
        reveal_strlit("c");
        assert(palette::catalogue()[9].keys@ == "c"@);
        assert(palette::catalogue()[9].dispatch == PaletteDispatch::Global(Action::BeginPromptContext));
    }
    if i == 10 {
        reveal_strlit("yy");
        assert(palette::catalogue()[10].keys@ == "yy"@);
        assert(palette::catalogue()[10].dispatch == PaletteDispatch::Global(Action::CopyLine));
    }
    if i == 11 {
        reveal_strlit("yb");
        assert(palette::catalogue()[11].keys@ == "yb"@);
        assert(palette::catalogue()[11].dispatch == PaletteDispatch::Global(Action::CopyBody));
    }
}

proof fn lemma_rows_from_12(v: AppView, i: int)
    requires
        on_the_list(v),
        v.leader is None,
        12 <= i < 16,
    ensures
        catalogue_row_runs(v, i),
{
    reveal(palette::catalogue);
    lemma_leaders(v);
    lemma_key_names();
    if i == 12 {
        reveal_strlit("o");
        assert(palette::catalogue()[12].keys@ == "o"@);
        assert(palette::catalogue()[12].dispatch == PaletteDispatch::Global(Action::OpenNotes));
    }
    if i == 13 {
        reveal_strlit("u");
        assert(palette::catalogue()[13].keys@ == "u"@);
        assert(palette::catalogue()[13].dispatch == PaletteDispatch::Global(Action::Undo));
    }
    if i == 14 {
        reveal_strlit("j / ↓");
        assert(palette::catalogue()[14].keys@ == "j / ↓"@);
        assert(palette::catalogue()[14].dispatch == PaletteDispatch::Global(Action::CursorDown));
        assert forall|key: KeyEvent| #![trigger shows_key("j / ↓"@, key)] shows_key(
            "j / ↓"@,
            key,
        ) implies actions::normal_key(v.leader, key, None).action == Some(Action::CursorDown) by {
            if !names_key("j / ↓"@, key) {
                let k = choose|k: int|
                    #![trigger "j / ↓"@.take(k)]
                    0 < k < "j / ↓"@.len() - 3 && "j / ↓"@[k] == ' ' && "j / ↓"@[k + 1] == '/'
                        && "j / ↓"@[k + 2] == ' ' && (names_key("j / ↓"@.take(k), key) || names_key(
                        "j / ↓"@.skip(k + 3),
                        key,
                    ));
                assert(k == 1);
                assert("j / ↓"@.take(1) =~= seq!['j']);
                assert("j / ↓"@.skip(4) =~= "↓"@);
            }
        }
    }
    if i == 15 {
        reveal_strlit("k / ↑");
        assert(palette::catalogue()[15].keys@ == "k / ↑"@);
        assert(palette::catalogue()[15].dispatch == PaletteDispatch::Global(Action::CursorUp));
        assert forall|key: KeyEvent| #![trigger shows_key("k / ↑"@, key)] shows_key(
            "k / ↑"@,
            key,
        ) implies actions::normal_key(v.leader, key, None).action == Some(Action::CursorUp) by {
            if !names_key("k / ↑"@, key) {
                let k = choose|k: int|
                    #![trigger "k / ↑"@.take(k)]
                    0 < k < "k / ↑"@.len() - 3 && "k / ↑"@[k] == ' ' && "k / ↑"@[k + 1] == '/'
                        && "k / ↑"@[k + 2] == ' ' && (names_key("k / ↑"@.take(k), key) || names_key(
                        "k / ↑"@.skip(k + 3),
                        key,
                    ));
                assert(k == 1);
                assert("k / ↑"@.take(1) =~= seq!['k']);
                assert("k / ↑"@.skip(4) =~= "↑"@);
            }
        }
    }
}

proof fn lemma_rows_from_16(v: AppView, i: int)
    requires
        on_the_list(v),
        v.leader is None,
        16 <= i < 20,
    ensures
        catalogue_row_runs(v, i),
{
    reveal(palette::catalogue);
    lemma_leaders(v);
    lemma_key_names();
    if i == 16 {
        reveal_strlit("gg");
        assert(palette::catalogue()[16].keys@ == "gg"@);
        assert(palette::catalogue()[16].dispatch == PaletteDispatch::Global(Action::CursorTop));
    }
    if i == 17 {
        reveal_strlit("G");
        assert(palette::catalogue()[17].keys@ == "G"@);
        assert(palette::catalogue()[17].dispatch == PaletteDispatch::Global(Action::CursorBottom));
    }
    if i == 18 {
        reveal_strlit("Ctrl-d");
        assert(palette::catalogue()[18].keys@ == "Ctrl-d"@);
        assert(palette::catalogue()[18].dispatch == PaletteDispatch::Global(Action::HalfPageDown));
        assert("Ctrl-d"@.take(5) =~= "Ctrl-"@);
    }
    if i == 19 {
        reveal_strlit("Ctrl-u");
        assert(palette::catalogue()[19].keys@ == "Ctrl-u"@);
        assert(palette::catalogue()[19].dispatch == PaletteDispatch::Global(Action::HalfPageUp));
        assert("Ctrl-u"@.take(5) =~= "Ctrl-"@);
    }
}

proof fn lemma_rows_from_20(v: AppView, i: int)
    requires
        on_the_list(v),
        v.leader is None,
        20 <= i < 24,
    ensures
        catalogue_row_runs(v, i),
{
    reveal(palette::catalogue);
    lemma_leaders(v);
    lemma_key_names();
    if i == 20 {
        reveal_strlit("/");
        assert(palette::catalogue()[20].keys@ == "/"@);
        assert(palette::catalogue()[20].dispatch == PaletteDispatch::Global(Action::BeginSearch));
    }
    if i == 21 {
        reveal_strlit("fp");
        assert(palette::catalogue()[21].keys@ == "fp"@);
        assert(palette::catalogue()[21].dispatch == PaletteDispatch::Global(Action::PickProject));
    }
    if i == 22 {
        reveal_strlit("fc");
        assert(palette::catalogue()[22].keys@ == "fc"@);
        assert(palette::catalogue()[22].dispatch == PaletteDispatch::Global(Action::PickContext));
    }
    if i == 23 {
        reveal_strlit("ff");
        assert(palette::catalogue()[23].keys@ == "ff"@);
        assert(palette::catalogue()[23].dispatch == PaletteDispatch::Global(Action::PickSavedFilter));
    }
}

proof fn lemma_rows_from_24(v: AppView, i: int)
    requires
        on_the_list(v),
        v.leader is None,
        24 <= i < 28,
    ensures
        catalogue_row_runs(v, i),
{
    reveal(palette::catalogue);
    lemma_leaders(v);
    lemma_key_names();
    if i == 24 {
        reveal_strlit("fs");
        assert(palette::catalogue()[24].keys@ == "fs"@);
        assert(palette::catalogue()[24].dispatch == PaletteDispatch::Global(Action::SaveCurrentFilter));
    }
    if i == 25 {
        reveal_strlit("S");
        assert(palette::catalogue()[25].keys@ == "S"@);
        assert(palette::catalogue()[25].dispatch == PaletteDispatch::Global(Action::CycleSort));
    }
    if i == 26 {
        reveal_strlit("v");
        assert(palette::catalogue()[26].keys@ == "v"@);
        assert(palette::catalogue()[26].dispatch == PaletteDispatch::Global(Action::ToggleVisual));
    }
    if i == 27 {
        reveal_strlit("Space");
        assert(palette::catalogue()[27].keys@ == "Space"@);
        assert(palette::catalogue()[27].dispatch == PaletteDispatch::Global(Action::ToggleSelected));
    }
}

proof fn lemma_rows_from_28(v: AppView, i: int)
    requires
        on_the_list(v),
        v.leader is None,
        28 <= i < 32,
    ensures
        catalogue_row_runs(v, i),
{
    reveal(palette::catalogue);
    lemma_leaders(v);
    lemma_key_names();
    if i == 28 {
        reveal_strlit("l");
        assert(palette::catalogue()[28].keys@ == "l"@);
        assert(palette::catalogue()[28].dispatch == PaletteDispatch::Global(Action::GoList));
    }
    if i == 29 {
        reveal_strlit("a");
        assert(palette::catalogue()[29].keys@ == "a"@);
        assert(palette::catalogue()[29].dispatch == PaletteDispatch::Global(Action::ToggleArchiveView));
    }
    if i == 30 {
        reveal_strlit("A");
        assert(palette::catalogue()[30].keys@ == "A"@);
        assert(palette::catalogue()[30].dispatch == PaletteDispatch::Global(Action::ArchiveCompleted));
    }
    if i == 31 {
        reveal_strlit("H");
        assert(palette::catalogue()[31].keys@ == "H"@);
        assert(palette::catalogue()[31].dispatch == PaletteDispatch::Global(Action::ToggleShowDone));
    }
}

proof fn lemma_rows_from_32(v: AppView, i: int)
    requires
        on_the_list(v),
        v.leader is None,
        32 <= i < 36,
    ensures
        catalogue_row_runs(v, i),
{
    reveal(palette::catalogue);
    lemma_leaders(v);
    lemma_key_names();
    if i == 32 {
        reveal_strlit("F");
        assert(palette::catalogue()[32].keys@ == "F"@);
        assert(palette::catalogue()[32].dispatch == PaletteDispatch::Global(Action::ToggleShowFuture));
    }
    if i == 33 {
        reveal_strlit("[");
        assert(palette::catalogue()[33].keys@ == "["@);
        assert(palette::catalogue()[33].dispatch == PaletteDispatch::Global(Action::ToggleLeftPane));
    }
    if i == 34 {
        reveal_strlit("]");
        assert(palette::catalogue()[34].keys@ == "]"@);
        assert(palette::catalogue()[34].dispatch == PaletteDispatch::Global(Action::ToggleRightPane));
    }
    if i == 35 {
        reveal_strlit("T");
        assert(palette::catalogue()[35].keys@ == "T"@);
        assert(palette::catalogue()[35].dispatch == PaletteDispatch::Global(Action::OpenThemePicker));
    }
}

proof fn lemma_rows_from_36(v: AppView, i: int)
    requires
        on_the_list(v),
        v.leader is None,
        36 <= i < 40,
    ensures
        catalogue_row_runs(v, i),
{
    reveal(palette::catalogue);
    lemma_leaders(v);
    lemma_key_names();
    if i == 36 {
        reveal_strlit("");
        assert(palette::catalogue()[36].keys@ == ""@);
        assert(palette::catalogue()[36].dispatch == PaletteDispatch::Global(Action::CycleTheme));
    }
    if i == 37 {
        reveal_strlit("D");
        assert(palette::catalogue()[37].keys@ == "D"@);
        assert(palette::catalogue()[37].dispatch == PaletteDispatch::Global(Action::CycleDensity));
    }
    if i == 38 {
        reveal_strlit("L");
        assert(palette::catalogue()[38].keys@ == "L"@);
        assert(palette::catalogue()[38].dispatch == PaletteDispatch::Global(Action::ToggleLineNum));
    }
    if i == 39 {
        reveal_strlit("?");
        assert(palette::catalogue()[39].keys@ == "?"@);
        assert(palette::catalogue()[39].dispatch == PaletteDispatch::Global(Action::OpenHelp));
    }
}

proof fn lemma_rows_from_40(v: AppView, i: int)
    requires
        on_the_list(v),
        v.leader is None,
        40 <= i < 44,
    ensures
        catalogue_row_runs(v, i),
{
    reveal(palette::catalogue);
    lemma_leaders(v);
    lemma_key_names();
    if i == 40 {
        reveal_strlit(",");
        assert(palette::catalogue()[40].keys@ == ","@);
        assert(palette::catalogue()[40].dispatch == PaletteDispatch::Global(Action::OpenSettings));
    }
    if i == 41 {
        reveal_strlit(": / Ctrl-P");
        assert(palette::catalogue()[41].keys@ == ": / Ctrl-P"@);
        assert(palette::catalogue()[41].dispatch == PaletteDispatch::Global(Action::OpenCommandPalette));
        assert forall|key: KeyEvent| #![trigger shows_key(": / Ctrl-P"@, key)] shows_key(
            ": / Ctrl-P"@,
            key,
        ) implies actions::normal_key(v.leader, key, None).action == Some(Action::OpenCommandPalette) by {
            if !names_key(": / Ctrl-P"@, key) {
                let k = choose|k: int|
                    #![trigger ": / Ctrl-P"@.take(k)]
                    0 < k < ": / Ctrl-P"@.len() - 3 && ": / Ctrl-P"@[k] == ' ' && ": / Ctrl-P"@[k + 1] == '/'
                        && ": / Ctrl-P"@[k + 2] == ' ' && (names_key(": / Ctrl-P"@.take(k), key) || names_key(
                        ": / Ctrl-P"@.skip(k + 3),
                        key,
                    ));
                assert(k == 1);
                assert(": / Ctrl-P"@.take(1) =~= seq![':']);
                assert(": / Ctrl-P"@.skip(4).take(5) =~= "Ctrl-"@ && ": / Ctrl-P"@.skip(4)[5] == 'P' && ": / Ctrl-P"@.skip(4).len() == 6);
            }
        }
    }
    if i == 42 {
        reveal_strlit("s");
        assert(palette::catalogue()[42].keys@ == "s"@);
        assert(palette::catalogue()[42].dispatch == PaletteDispatch::Global(Action::OpenShare));
    }
    if i == 43 {
        reveal_strlit("Esc");
        assert(palette::catalogue()[43].keys@ == "Esc"@);
        assert(palette::catalogue()[43].dispatch == PaletteDispatch::Global(Action::EscapeStack));
    }
}

proof fn lemma_rows_from_44(v: AppView, i: int)
    requires
        on_the_list(v),
        v.leader is None,
        44 <= i < 48,
    ensures
        catalogue_row_runs(v, i),
{
    reveal(palette::catalogue);
    lemma_leaders(v);
    lemma_key_names();
    if i == 44 {
        reveal_strlit("q");
        assert(palette::catalogue()[44].keys@ == "q"@);
        assert(palette::catalogue()[44].dispatch == PaletteDispatch::Global(Action::Quit));
    }
    if i == 45 {
        reveal_strlit("r");
        assert(palette::catalogue()[45].keys@ == "r"@);
        assert(palette::catalogue()[45].dispatch == PaletteDispatch::Global(Action::Reschedule));
    }
    if i == 46 {
        reveal_strlit("W");
        assert(palette::catalogue()[46].keys@ == "W"@);
        assert(palette::catalogue()[46].dispatch == PaletteDispatch::Global(Action::ChangeWeekStart));
    }
    if i == 47 {
        reveal_strlit("z");
        assert(palette::catalogue()[47].keys@ == "z"@);
        assert(palette::catalogue()[47].dispatch == PaletteDispatch::Global(Action::TogglePinFocus));
    }
}

proof fn lemma_rows_from_48(v: AppView, i: int)
    requires
        on_the_list(v),
        v.leader is None,
        48 <= i < 49,
    ensures
        catalogue_row_runs(v, i),
{
    reveal(palette::catalogue);
    lemma_leaders(v);
    lemma_key_names();
    if i == 48 {
        reveal_strlit("Z");
        assert(palette::catalogue()[48].keys@ == "Z"@);
        assert(palette::catalogue()[48].dispatch == PaletteDispatch::Global(Action::ClosePinnedNote));
    }
}

/// What the palette says of a command's keys is true: pressed in the list, the key
/// that a row shows comes to the command that the row runs, and a chord comes to
/// it with its second key.
pub proof fn law_palette_rows_show_the_keys_of_their_commands(v: AppView, i: int)
    requires
        on_the_list(v),
        v.leader is None,
        0 <= i < palette::catalogue().len(),
    ensures
        catalogue_row_runs(v, i),
{
    assert(palette::catalogue().len() == 55) by {
        reveal(palette::catalogue);
    }
    if i < 4 {
        lemma_rows_from_0(v, i);
    } else if i < 8 {
        lemma_rows_from_4(v, i);
    } else if i < 12 {
        lemma_rows_from_8(v, i);
    } else if i < 16 {
        lemma_rows_from_12(v, i);
    } else if i < 20 {
        lemma_rows_from_16(v, i);
    } else if i < 24 {
        lemma_rows_from_20(v, i);
    } else if i < 28 {
        lemma_rows_from_24(v, i);
    } else if i < 32 {
        lemma_rows_from_28(v, i);
    } else if i < 36 {
        lemma_rows_from_32(v, i);
    } else if i < 40 {
        lemma_rows_from_36(v, i);
    } else if i < 44 {
        lemma_rows_from_40(v, i);
    } else if i < 48 {
        lemma_rows_from_44(v, i);
    } else if i < 49 {
        lemma_rows_from_48(v, i);
    } else {
        reveal(palette::catalogue);
    }
}

/// A key that comes to a command whatever chord waits, and leaves the chord as it
/// was.
pub open spec fn always(leader: Option<char>, key: KeyEvent, action: Action) -> bool {
    actions::normal_key(leader, key, None) == (Resolved { action: Some(action), leader })
}

/// The keys that are no part of a chord come to one command each, whatever chord
/// waits.
pub proof fn law_single_keys(leader: Option<char>)
    ensures
        always(leader, typed('j'), Action::CursorDown),
        always(leader, typed('k'), Action::CursorUp),
        always(leader, typed('J'), Action::MoveTaskDown),
        always(leader, typed('K'), Action::MoveTaskUp),
        always(leader, typed('G'), Action::CursorBottom),
        always(leader, typed('n'), Action::BeginAdd),
        always(leader, typed('r'), Action::Reschedule),
        always(leader, typed('a'), Action::ToggleArchiveView),
        always(leader, typed('l'), Action::GoList),
        always(leader, typed('e'), Action::BeginEdit),
        always(leader, typed('i'), Action::BeginEditInsert),
        always(leader, typed('o'), Action::OpenNotes),
        always(leader, typed('x'), Action::ToggleComplete),
        always(leader, typed('/'), Action::BeginSearch),
        always(leader, typed('?'), Action::OpenHelp),
        always(leader, typed(','), Action::OpenSettings),
        always(leader, typed(':'), Action::OpenCommandPalette),
        always(leader, typed('u'), Action::Undo),
        always(leader, typed('v'), Action::ToggleVisual),
        always(leader, typed(' '), Action::ToggleSelected),
        always(leader, typed('A'), Action::ArchiveCompleted),
        always(leader, typed('S'), Action::CycleSort),
        always(leader, typed('+'), Action::BeginPromptProject),
        always(leader, typed('['), Action::ToggleLeftPane),
        always(leader, typed(']'), Action::ToggleRightPane),
        always(leader, typed('T'), Action::OpenThemePicker),
        always(leader, typed('D'), Action::CycleDensity),
        always(leader, typed('L'), Action::ToggleLineNum),
        always(leader, typed('H'), Action::ToggleShowDone),
        always(leader, typed('F'), Action::ToggleShowFuture),
        always(leader, typed('W'), Action::ChangeWeekStart),
        always(leader, typed('z'), Action::TogglePinFocus),
        always(leader, typed('Z'), Action::ClosePinnedNote),
        always(leader, typed('q'), Action::Quit),
        always(leader, alone(KeyCode::Down), Action::CursorDown),
        always(leader, alone(KeyCode::Up), Action::CursorUp),
        always(leader, alone(KeyCode::Esc), Action::EscapeStack),
        always(leader, with_control('d'), Action::HalfPageDown),
        always(leader, with_control('u'), Action::HalfPageUp),
        always(leader, with_control('p'), Action::OpenCommandPalette),
        always(leader, with_control('c'), Action::Quit),
{
}

/// `gg`, `dd` and `yy` come to their commands with the second key, and the chord is
/// then over. Until it comes the first key waits, in place of any other.
pub proof fn law_doubled_keys(leader: Option<char>)
    ensures
        actions::normal_key(Some('g'), typed('g'), None) == (Resolved {
            action: Some(Action::CursorTop),
            leader: None,
        }),
        actions::normal_key(Some('d'), typed('d'), None) == (Resolved {
            action: Some(Action::Delete),
            leader: None,
        }),
        actions::normal_key(Some('y'), typed('y'), None) == (Resolved {
            action: Some(Action::CopyLine),
            leader: None,
        }),
        forall|c: char|
            (c == 'g' || c == 'd' || c == 'y') && leader != Some(c) ==> #[trigger]
            actions::normal_key(leader, typed(c), None) == (Resolved {
                action: None,
                leader: Some(c),
            }),
{
}

/// Behind `f` four keys come to the filters, and behind `y` one copies the body;
/// the chord is then over. Without those before them they come to what they are
/// alone.
pub proof fn law_led_keys(leader: Option<char>)
    ensures
        actions::normal_key(Some('f'), typed('p'), None) == (Resolved {
            action: Some(Action::PickProject),
            leader: None,
        }),
        actions::normal_key(Some('f'), typed('c'), None) == (Resolved {
            action: Some(Action::PickContext),
            leader: None,
        }),
        actions::normal_key(Some('f'), typed('f'), None) == (Resolved {
            action: Some(Action::PickSavedFilter),
            leader: None,
        }),
        actions::normal_key(Some('f'), typed('s'), None) == (Resolved {
            action: Some(Action::SaveCurrentFilter),
            leader: None,
        }),
        actions::normal_key(Some('y'), typed('b'), None) == (Resolved {
            action: Some(Action::CopyBody),
            leader: None,
        }),
        leader != Some('f') ==> {
            &&& always(leader, typed('p'), Action::CyclePriority)
            &&& always(leader, typed('c'), Action::BeginPromptContext)
            &&& always(leader, typed('f'), Action::ArmF)
            &&& always(leader, typed('s'), Action::OpenShare)
        },
        leader != Some('y') ==> actions::normal_key(leader, typed('b'), None) == (Resolved {
            action: None,
            leader,
        }),
{
}

/// No other key comes to a command, and the chord stays as it was.
pub proof fn law_other_keys_do_nothing(leader: Option<char>, c: char)
    ensures
        c != 'j' && c != 'k' && c != 'J' && c != 'K' && c != 'G' && c != 'g' && c != 'n' && c != 'r' && c != 'a' && c != 'l' && c != 'e' && c != 'i' && c != 'o' && c != 'x' && c != 'd' && c != 'y' && c != 'b' && c != 'p' && c != 'c' && c != '/' && c != '?' && c != ',' && c != ':' && c != 'u' && c != 'v' && c != ' ' && c != 'A' && c != 'f' && c != 's' && c != 'S' && c != '+' && c != '[' && c != ']' && c != 'T' && c != 'D' && c != 'L' && c != 'H' && c != 'F' && c != 'W' && c != 'z' && c != 'Z' && c != 'q' ==> actions::normal_key(leader, typed(c), None) == (Resolved {
            action: None,
            leader,
        }),
        c != 'd' && c != 'u' && c != 'p' && c != 'c' && c != 'q' ==> actions::normal_key(
            leader,
            with_control(c),
            None,
        ) == (Resolved { action: None, leader }),
        actions::normal_key(leader, alone(KeyCode::Enter), None) == (Resolved {
            action: None,
            leader,
        }),
        actions::normal_key(leader, alone(KeyCode::Tab), None) == (Resolved {
            action: None,
            leader,
        }),
{
}

/// The user's own bindings come before every built-in key.
pub proof fn law_own_bindings_win(leader: Option<char>, key: KeyEvent, action: Action)
    ensures
        actions::normal_key(leader, key, Some(ResolvedKey::Action(action))) == (Resolved {
            action: Some(action),
            leader,
        }),
        actions::normal_key(leader, key, Some(ResolvedKey::Pending)) == (Resolved {
            action: None,
            leader,
        }),
{
}

/// A key of the list does what its command does, with the chord as the key left
/// it, and then has the cursor brought back onto the list.
pub proof fn law_keys_run_their_commands(v: AppView, key: KeyEvent)
    requires
        on_the_list(v),
    ensures
        ({
            let read = actions::normal_key(v.leader, key, None);
            let at = AppView { leader: read.leader, ..v };
            let r = pressed(v, key);
            match read.action {
                Some(action) => {
                    &&& r.app == at.applied(action).app
                    &&& r.requests == at.applied(action).requests + seq![
                        RequestView::Do(Op::ClampCursor),
                    ]
                },
                None => {
                    &&& r.app == at
                    &&& r.requests == seq![RequestView::Do(Op::ClampCursor)]
                },
            }
        }),
{
    reveal(pressed);
    let read = actions::normal_key(v.leader, key, None);
    let at = AppView { leader: read.leader, ..v };
    if let Some(action) = read.action {
        let a = at.applied(action).requests;
        assert(a.push(RequestView::Do(Op::ClampCursor)) =~= a + seq![
            RequestView::Do(Op::ClampCursor),
        ]);
    } else {
        assert(Seq::<RequestView>::empty().push(RequestView::Do(Op::ClampCursor)) =~= seq![
            RequestView::Do(Op::ClampCursor),
        ]);
    }
}

/// A key goes to what has the keyboard: a pinned note that was given it, else the
/// screen of the mode.
pub proof fn law_modes_take_their_keys(v: AppView, key: KeyEvent)
    ensures
        v.pinned_focus ==> pressed(v, key) == v.pinned_keyed(key),
        !v.pinned_focus ==> match v.mode {
            Mode::Notes => pressed(v, key) == v.notes_keyed(key),
            Mode::Insert => pressed(v, key) == v.line_keyed(key, None),
            Mode::Search => pressed(v, key) == v.search_keyed(key),
            Mode::Help => pressed(v, key) == v.help_keyed(key),
            Mode::Settings => pressed(v, key) == v.settings_keyed(key),
            Mode::CommandPalette => pressed(v, key) == v.palette_keyed(key),
            Mode::Welcome => pressed(v, key) == v.welcome_keyed(key),
            Mode::PromptProject
            | Mode::PromptContext
            | Mode::PromptRenameProject
            | Mode::PromptRenameContext
            | Mode::PromptSaveFilter => pressed(v, key) == v.prompt_keyed(key),
            Mode::Share => pressed(v, key).app == (AppView { mode: Mode::Normal, ..v }),
            Mode::Normal | Mode::Visual => pressed(v, key) == v.normal_handled(key, None),
            _ => pressed(v, key).app == v,
        },
{
    reveal(pressed);
}

/// Pressing `d` twice in the list deletes the task under the cursor and nothing
/// else.
pub proof fn law_dd_deletes_the_task(v: AppView)
    requires
        on_the_list(v),
        v.mode == Mode::Normal,
        v.view == Screen::List,
        v.leader != Some('d'),
        0 <= v.cursor < v.visible.len(),
    ensures
        ({
            let first = pressed(v, typed('d'));
            let second = pressed(first.app, typed('d'));
            &&& first.requests == seq![RequestView::Do(Op::ClampCursor)]
            &&& second.requests == seq![
                RequestView::Do(Op::Delete(v.visible[v.cursor])),
                RequestView::Do(Op::ClampCursor),
            ]
            &&& second.app == (AppView { leader: None, ..v })
        }),
{
    law_keys_run_their_commands(v, typed('d'));
    let first = pressed(v, typed('d'));
    law_keys_run_their_commands(first.app, typed('d'));
    law_task_commands(AppView { leader: None, ..v });
    let second = pressed(first.app, typed('d'));
    assert(second.requests =~= seq![
        RequestView::Do(Op::Delete(v.visible[v.cursor])),
        RequestView::Do(Op::ClampCursor),
    ]);
}

/// One thing is asked for, and nothing changes.
pub open spec fn only_asks(r: Reaction, v: AppView, op: Op) -> bool {
    r.app == v && r.requests == seq![RequestView::Do(op)]
}

/// The application changes, and nothing is asked for.
pub open spec fn only_becomes(r: Reaction, v: AppView) -> bool {
    r.app == v && r.requests == Seq::<RequestView>::empty()
}

/// The cursor goes where its commands say: one row or ten, down or up, to the
/// first row or the last, and never off the list. They ask for nothing and change
/// nothing else.
pub proof fn law_cursor_commands(v: AppView)
    requires
        0 <= v.cursor < v.visible.len(),
    ensures
        ({
            let last = v.visible.len() - 1;
            &&& only_becomes(
                v.applied(Action::CursorDown),
                AppView { cursor: if v.cursor == last { last } else { v.cursor + 1 }, ..v },
            )
            &&& only_becomes(
                v.applied(Action::CursorUp),
                AppView { cursor: if v.cursor == 0 { 0 } else { v.cursor - 1 }, ..v },
            )
            &&& only_becomes(v.applied(Action::CursorTop), AppView { cursor: 0, ..v })
            &&& only_becomes(v.applied(Action::CursorBottom), AppView { cursor: last, ..v })
            &&& only_becomes(
                v.applied(Action::HalfPageDown),
                AppView { cursor: if v.cursor + 10 > last { last } else { v.cursor + 10 }, ..v },
            )
            &&& only_becomes(
                v.applied(Action::HalfPageUp),
                AppView { cursor: if v.cursor < 10 { 0 } else { v.cursor - 10 }, ..v },
            )
        }),
{
    reveal(AppView::moved);
}

/// On an empty list the cursor stays at the top.
pub proof fn law_cursor_on_an_empty_list(v: AppView)
    requires
        v.visible.len() == 0,
        v.cursor == 0,
    ensures
        only_becomes(v.applied(Action::CursorDown), v),
        only_becomes(v.applied(Action::CursorUp), v),
        only_becomes(v.applied(Action::CursorBottom), v),
        only_becomes(v.applied(Action::HalfPageDown), v),
        only_becomes(v.applied(Action::HalfPageUp), v),
{
    reveal(AppView::moved);
}

/// A command for a task is for the one under the cursor, in the list and nowhere
/// else. Where tasks are selected in Visual mode, completing and deleting are for
/// those.
pub proof fn law_task_commands(v: AppView)
    requires
        v.view == Screen::List,
        0 <= v.cursor < v.visible.len(),
    ensures
        only_asks(
            v.applied(Action::ToggleComplete),
            v,
            if v.mode == Mode::Visual && v.selected.len() > 0 {
                Op::CompleteSelected
            } else {
                Op::ToggleComplete(v.visible[v.cursor])
            },
        ),
        only_asks(
            v.applied(Action::Delete),
            v,
            if v.mode == Mode::Visual && v.selected.len() > 0 {
                Op::DeleteSelected
            } else {
                Op::Delete(v.visible[v.cursor])
            },
        ),
        only_asks(v.applied(Action::CyclePriority), v, Op::CyclePriority(v.visible[v.cursor])),
        only_asks(v.applied(Action::MoveTaskDown), v, Op::MoveTasks { down: true }),
        only_asks(v.applied(Action::MoveTaskUp), v, Op::MoveTasks { down: false }),
        only_asks(v.applied(Action::Undo), v, Op::Undo),
{
    reveal(AppView::changing);
}

/// With no task under the cursor and none selected there is nothing to complete,
/// delete or prioritise.
pub proof fn law_task_commands_need_a_task(v: AppView)
    requires
        v.visible.len() <= v.cursor,
        v.selected.len() == 0,
        v.view == Screen::List,
    ensures
        only_becomes(v.applied(Action::ToggleComplete), v),
        only_becomes(v.applied(Action::Delete), v),
        only_becomes(v.applied(Action::CyclePriority), v),
        only_becomes(v.applied(Action::BeginEdit), v),
        only_becomes(v.applied(Action::BeginEditInsert), v),
        only_becomes(v.applied(Action::Reschedule), v),
{
    reveal(AppView::changing);
    reveal(AppView::typing);
}

/// In the archive completing puts the row under the cursor back, and deleting
/// deletes it for good.
pub proof fn law_archive_commands(v: AppView)
    requires
        v.view == Screen::Archive,
    ensures
        0 <= v.cursor < v.visible.len() ==> {
            &&& only_asks(
                v.applied(Action::ToggleComplete),
                v,
                Op::Unarchive(v.visible[v.cursor]),
            )
            &&& only_asks(v.applied(Action::Delete), v, Op::ArchiveDelete(v.visible[v.cursor]))
        },
        v.visible.len() <= v.cursor ==> {
            &&& only_becomes(v.applied(Action::ToggleComplete), v)
            &&& only_becomes(v.applied(Action::Delete), v)
        },
        only_becomes(
            v.applied(Action::ArchiveCompleted),
            AppView { flash: Some("already in archive"@), ..v },
        ),
{
    reveal(AppView::changing);
}

/// In the archive each of these commands is refused: it says so and does nothing.
pub proof fn law_archive_refuses(v: AppView, action: Action)
    requires
        v.view == Screen::Archive,
        action == Action::BeginAdd || action == Action::BeginEdit || action
            == Action::BeginEditInsert || action == Action::Reschedule || action
            == Action::CyclePriority || action == Action::MoveTaskDown || action
            == Action::MoveTaskUp || action == Action::ToggleVisual || action
            == Action::ToggleSelected || action == Action::BeginSearch || action
            == Action::BeginPromptProject || action == Action::BeginPromptContext || action
            == Action::PickProject || action == Action::PickContext || action
            == Action::PickSavedFilter || action == Action::SaveCurrentFilter || action
            == Action::CycleSort || action == Action::ToggleShowDone || action
            == Action::ToggleShowFuture || action == Action::Undo,
    ensures
        only_becomes(v.applied(action), AppView { flash: Some("read-only in archive"@), ..v }),
{
}

/// Commands that are not about tasks do in the archive what they do in the list.
pub proof fn law_archive_lets_through(v: AppView)
    ensures
        only_becomes(v.applied(Action::Quit), AppView { should_quit: true, ..v }),
        only_becomes(v.applied(Action::OpenHelp), AppView { mode: Mode::Help, ..v }),
        only_becomes(v.applied(Action::OpenSettings), AppView { mode: Mode::Settings, ..v }),
        only_becomes(v.applied(Action::ArmF), AppView { leader: Some('f'), ..v }),
        only_asks(v.applied(Action::GoList), v, Op::SetView(Screen::List)),
        only_asks(v.applied(Action::OpenNotes), v, Op::OpenNotes),
        only_asks(v.applied(Action::OpenShare), v, Op::StartShare),
        only_asks(v.applied(Action::CycleTheme), v, Op::CycleTheme),
        only_asks(v.applied(Action::CycleDensity), v, Op::CycleDensity),
        v.view == Screen::List ==> only_asks(
            v.applied(Action::ToggleArchiveView),
            v,
            Op::SetView(Screen::Archive),
        ),
        v.view == Screen::Archive ==> only_asks(
            v.applied(Action::ToggleArchiveView),
            v,
            Op::SetView(Screen::List),
        ),
        v.theme_count > 1 ==> only_asks(v.applied(Action::OpenThemePicker), v, Op::EnterPickTheme),
        v.theme_count <= 1 ==> only_becomes(
            v.applied(Action::OpenThemePicker),
            AppView { flash: Some("only one theme"@), ..v },
        ),
{
    reveal(AppView::moved);
    reveal(AppView::switched);
    reveal(AppView::showing);
    reveal(AppView::preferring);
}

/// Preferences are changed and then saved; what changes the rows has them worked
/// out again, with the cursor at the top.
pub proof fn law_preference_commands(v: AppView)
    ensures
        v.applied(Action::ToggleLeftPane) == (Reaction {
            app: v,
            requests: seq![RequestView::Do(Op::ToggleLeftPane), RequestView::Do(Op::SavePrefs)],
        }),
        v.applied(Action::ToggleRightPane) == (Reaction {
            app: v,
            requests: seq![RequestView::Do(Op::ToggleRightPane), RequestView::Do(Op::SavePrefs)],
        }),
        v.applied(Action::ToggleLineNum) == (Reaction {
            app: v,
            requests: seq![RequestView::Do(Op::ToggleLineNum), RequestView::Do(Op::SavePrefs)],
        }),
        v.applied(Action::ChangeWeekStart) == (Reaction {
            app: v,
            requests: seq![
                RequestView::Do(Op::ToggleWeekStart),
                RequestView::Do(Op::RecomputeVisible),
            ],
        }),
        v.view == Screen::List ==> v.applied(Action::ToggleShowDone) == (Reaction {
            app: AppView { cursor: 0, ..v },
            requests: seq![
                RequestView::Do(Op::ToggleShowDone),
                RequestView::Do(Op::RecomputeVisible),
                RequestView::Do(Op::SavePrefs),
            ],
        }),
        v.view == Screen::List ==> v.applied(Action::ToggleShowFuture) == (Reaction {
            app: AppView { cursor: 0, ..v },
            requests: seq![
                RequestView::Do(Op::ToggleShowFuture),
                RequestView::Do(Op::RecomputeVisible),
                RequestView::Do(Op::SavePrefs),
            ],
        }),
{
    reveal(AppView::showing);
    reveal(AppView::preferring);
}

/// Filters are picked, searches begun and saved, and the list archived, each as
/// its command says.
pub proof fn law_list_commands(v: AppView)
    requires
        v.view == Screen::List,
    ensures
        only_asks(v.applied(Action::PickProject), v, Op::EnterPickProject),
        only_asks(v.applied(Action::PickContext), v, Op::EnterPickContext),
        only_asks(v.applied(Action::PickSavedFilter), v, Op::EnterPickSaved),
        only_asks(v.applied(Action::CycleSort), v, Op::CycleSort),
        v.applied(Action::BeginSearch) == (Reaction {
            app: AppView { mode: Mode::Search, ..v },
            requests: seq![RequestView::Do(Op::ClearDraft), RequestView::Do(Op::ClearSearch)],
        }),
        only_asks(
            v.applied(Action::BeginPromptProject),
            AppView { mode: Mode::PromptProject, ..v },
            Op::ClearDraft,
        ),
        only_asks(
            v.applied(Action::BeginPromptContext),
            AppView { mode: Mode::PromptContext, ..v },
            Op::ClearDraft,
        ),
        v.filter.search.len() > 0 ==> only_asks(
            v.applied(Action::SaveCurrentFilter),
            AppView { mode: Mode::PromptSaveFilter, ..v },
            Op::ClearDraft,
        ),
        v.filter.search.len() == 0 ==> only_becomes(
            v.applied(Action::SaveCurrentFilter),
            AppView { flash: Some("no active search to save"@), ..v },
        ),
        (exists|i: int| 0 <= i < v.tasks.len() && (#[trigger] v.tasks[i]).done) ==> only_asks(
            v.applied(Action::ArchiveCompleted),
            v,
            Op::ArchiveCompleted,
        ),
        (forall|i: int| 0 <= i < v.tasks.len() ==> !(#[trigger] v.tasks[i]).done) ==> only_becomes(
            v.applied(Action::ArchiveCompleted),
            AppView { flash: Some("no completed tasks to archive"@), ..v },
        ),
        only_becomes(
            v.applied(Action::ToggleVisual),
            AppView {
                mode: if v.mode == Mode::Visual {
                    Mode::Normal
                } else {
                    Mode::Visual
                },
                ..v
            },
        ),
{
    reveal(AppView::typing);
    reveal(AppView::changing);
    reveal(AppView::showing);
    reveal(AppView::switched);
}

/// A new task starts out with the tags of the filter it is added under, each with
/// its sign before it and a blank behind it, and nothing else.
pub proof fn law_new_tasks_start_with_the_filter(v: AppView)
    requires
        v.view == Screen::List,
    ensures
        ({
            let seed = match v.filter.project {
                Some(p) => "+"@ + p + " "@,
                None => ""@,
            } + match v.filter.context {
                Some(c) => "@"@ + c + " "@,
                None => ""@,
            };
            v.applied(Action::BeginAdd) == (Reaction {
                app: AppView { mode: Mode::Insert, editing: None, ..v },
                requests: seq![RequestView::Text(TextOp::SetDraftInsert, seed)],
            })
        }),
{
    reveal(AppView::typing);
    reveal_strlit("+");
    reveal_strlit("@");
    reveal_strlit(" ");
    reveal_strlit("");
    let seed = match v.filter.project {
        Some(p) => "+"@ + p + " "@,
        None => ""@,
    } + match v.filter.context {
        Some(c) => "@"@ + c + " "@,
        None => ""@,
    };
    assert(seed =~= v.filter.tag_seed());
}

/// Editing takes the whole line of the task under the cursor into the line editor,
/// and remembers which task it came from. Rescheduling also opens the calendar of
/// its due date.
pub proof fn law_edit_commands(v: AppView)
    requires
        v.view == Screen::List,
        0 <= v.cursor < v.visible.len(),
        v.visible[v.cursor] < v.tasks.len(),
    ensures
        ({
            let abs = v.visible[v.cursor];
            let raw = v.tasks[abs as int].raw@;
            let at = AppView { mode: Mode::Insert, editing: Some(abs), ..v };
            &&& v.applied(Action::BeginEdit) == (Reaction {
                app: at,
                requests: seq![RequestView::Text(TextOp::SetDraft, raw)],
            })
            &&& v.applied(Action::BeginEditInsert) == (Reaction {
                app: at,
                requests: seq![RequestView::Text(TextOp::SetDraftInsert, raw)],
            })
            &&& v.applied(Action::Reschedule) == (Reaction {
                app: at,
                requests: seq![
                    RequestView::Text(TextOp::SetDraftInsert, raw),
                    RequestView::Do(Op::OpenDueCalendar),
                ],
            })
        }),
{
    reveal(AppView::typing);
    let raw = v.tasks[v.visible[v.cursor] as int].raw@;
    assert(seq![RequestView::Text(TextOp::SetDraftInsert, raw)].push(
        RequestView::Do(Op::OpenDueCalendar),
    ) =~= seq![
        RequestView::Text(TextOp::SetDraftInsert, raw),
        RequestView::Do(Op::OpenDueCalendar),
    ]);
}

/// Selecting is for Visual mode and the task under the cursor: it is in the
/// selection afterwards exactly where it was not before, and every other task is
/// as it was.
pub proof fn law_select_command(v: AppView)
    requires
        v.view == Screen::List,
        v.selected.no_duplicates(),
        0 <= v.cursor < v.visible.len(),
    ensures
        v.mode != Mode::Visual ==> only_becomes(v.applied(Action::ToggleSelected), v),
        v.mode == Mode::Visual ==> {
            let r = v.applied(Action::ToggleSelected);
            let abs = v.visible[v.cursor];
            &&& only_becomes(r, AppView { selected: r.app.selected, ..v })
            &&& r.app.selected.contains(abs) == !v.selected.contains(abs)
            &&& forall|other: usize|
                other != abs ==> (#[trigger] r.app.selected.contains(other)
                    == v.selected.contains(other))
        },
{
    reveal(AppView::switched);
    crate::app::law_toggling_selects_once(v.selected, v.visible[v.cursor]);
}

/// Esc undoes one thing at a time, in this order: the project and context
/// filters, the search, the selection, Visual mode, the archive.
pub proof fn law_escape_command(v: AppView)
    ensures
        ({
            let r = v.applied(Action::EscapeStack);
            if v.filter.project is Some || v.filter.context is Some {
                r == (Reaction {
                    app: v,
                    requests: seq![
                        RequestView::Do(Op::ClearProjectFilter),
                        RequestView::Do(Op::ClearContextFilter),
                    ],
                })
            } else if v.filter.search.len() > 0 {
                r == (Reaction {
                    app: v,
                    requests: seq![
                        RequestView::Do(Op::ClearDraft),
                        RequestView::Do(Op::ClearSearch),
                    ],
                })
            } else if v.selected.len() > 0 {
                only_becomes(r, AppView { selected: Seq::empty(), ..v })
            } else if v.mode == Mode::Visual {
                only_becomes(r, AppView { mode: Mode::Normal, ..v })
            } else if v.view == Screen::Archive {
                only_asks(r, v, Op::SetView(Screen::List))
            } else {
                only_becomes(r, v)
            }
        }),
{
    reveal(AppView::switched);
}

/// With nothing selected, or outside Visual mode, copying hands over the line of the
/// task under the cursor, or its body, and counts one.
pub proof fn law_copying_one_task(v: AppView)
    requires
        v.view == Screen::List,
        v.selected.len() == 0 || v.mode != Mode::Visual,
        0 <= v.cursor < v.visible.len(),
        v.visible[v.cursor] < v.tasks.len(),
    ensures
        ({
            let task = v.tasks[v.visible[v.cursor] as int];
            &&& v.applied(Action::CopyLine) == (Reaction {
                app: v,
                requests: seq![
                    RequestView::Text(TextOp::Copy { body_only: false, count: 1 }, task.raw@),
                ],
            })
            &&& v.applied(Action::CopyBody) == (Reaction {
                app: v,
                requests: seq![
                    RequestView::Text(TextOp::Copy { body_only: true, count: 1 }, task.body@),
                ],
            })
        }),
{
    reveal(AppView::changing);
}

/// In the archive the archived task under the cursor is copied.
pub proof fn law_copying_an_archived_task(v: AppView)
    requires
        v.view == Screen::Archive,
        0 <= v.cursor < v.visible.len(),
        v.visible[v.cursor] < v.archive.len(),
    ensures
        v.applied(Action::CopyLine) == (Reaction {
            app: v,
            requests: seq![
                RequestView::Text(
                    TextOp::Copy { body_only: false, count: 1 },
                    v.archive[v.visible[v.cursor] as int].raw@,
                ),
            ],
        }),
{
    reveal(AppView::changing);
}

/// Opening the palette remembers the mode, starts with nothing typed and the first
/// row highlighted.
pub proof fn law_opening_the_palette(v: AppView)
    ensures
        ({
            let r = v.applied(Action::OpenCommandPalette);
            &&& r.requests == seq![RequestView::Do(Op::ClearDraft)]
            &&& r.app == (AppView {
                mode: Mode::CommandPalette,
                palette: r.app.palette,
                palette_cursor: 0,
                ..v
            })
            &&& r.app.palette.prior == Some(v.mode)
            &&& r.app.palette.needle.len() == 0
            &&& r.app.palette.hits == palette::palette_hits(Seq::empty(), v.mode)
        }),
{
    reveal(AppView::switched);
}

/// The palette's rows for the notes popup show the keys that do the same there.
pub proof fn law_notes_rows_show_the_keys_of_their_operations(v: AppView, i: int)
    requires
        v.popup.editor is None,
        v.popup.prompt is None,
        v.popup.pending_delete is None,
        0 <= i < palette::catalogue().len(),
    ensures
        palette::catalogue()[i].dispatch matches PaletteDispatch::NotesAction(a) ==> {
            let shown = palette::catalogue()[i].keys@;
            &&& shown.len() == 1
            &&& v.notes_keyed(typed(shown[0])) == v.notes_chosen(a)
        },
{
    reveal(palette::catalogue);
    reveal(AppView::notes_list_keyed);
    reveal(AppView::notes_chosen);
    reveal_strlit("n");
    reveal_strlit("r");
    reveal_strlit("d");
    reveal_strlit("u");
    reveal_strlit("e");
    reveal_strlit("i");
    let row = palette::catalogue()[i];
    match row.dispatch {
        PaletteDispatch::NotesAction(a) => {
            assert(i >= 49);
            assert(row == palette::catalogue()[49] || row == palette::catalogue()[50] || row
                == palette::catalogue()[51] || row == palette::catalogue()[52] || row
                == palette::catalogue()[53] || row == palette::catalogue()[54]);
        },
        _ => {},
    }
}

/// In Visual mode, with tasks selected, copying hands over a line, or a body, for each of them, in
/// the order on screen, with a newline between each two, and counts them.
pub proof fn law_copying_the_selection(v: AppView, lines: Seq<Seq<char>>, bodies: Seq<Seq<char>>)
    requires
        v.view == Screen::List,
        v.mode == Mode::Visual,
        0 < v.selected.len() <= usize::MAX,
        v.visible == v.selected,
        lines.len() == v.selected.len(),
        bodies.len() == v.selected.len(),
        forall|i: int|
            0 <= i < v.selected.len() ==> lines[i] == v.tasks[#[trigger] v.selected[i] as int].raw@
                && bodies[i] == v.tasks[v.selected[i] as int].body@,
    ensures
        v.applied(Action::CopyLine) == (Reaction {
            app: v,
            requests: seq![
                RequestView::Text(
                    TextOp::Copy { body_only: false, count: v.selected.len() as usize },
                    text::joined(lines, '\n'),
                ),
            ],
        }),
        v.applied(Action::CopyBody) == (Reaction {
            app: v,
            requests: seq![
                RequestView::Text(
                    TextOp::Copy { body_only: true, count: v.selected.len() as usize },
                    text::joined(bodies, '\n'),
                ),
            ],
        }),
{
    reveal(AppView::changing);
    lemma_all_picked(v.visible, v.selected, v.tasks, lines, false);
    lemma_all_picked(v.visible, v.selected, v.tasks, bodies, true);
}

proof fn lemma_all_picked(
    visible: Seq<usize>,
    selected: Seq<usize>,
    tasks: Seq<Task>,
    texts: Seq<Seq<char>>,
    body_only: bool,
)
    requires
        texts.len() == visible.len(),
        forall|i: int| 0 <= i < visible.len() ==> selected.contains(#[trigger] visible[i]),
        forall|i: int|
            0 <= i < visible.len() ==> texts[i] == if body_only {
                tasks[#[trigger] visible[i] as int].body@
            } else {
                tasks[visible[i] as int].raw@
            },
    ensures
        apply::picked(visible, selected, tasks, body_only) == texts,
    decreases visible.len(),
{
    if visible.len() > 0 {
        let d = visible.drop_last();
        assert forall|i: int| 0 <= i < d.len() implies selected.contains(#[trigger] d[i]) by {
            assert(d[i] == visible[i]);
        }
        lemma_all_picked(d, selected, tasks, texts.drop_last(), body_only);
        assert(selected.contains(visible[visible.len() - 1]));
        assert(texts =~= texts.drop_last().push(texts.last()));
    } else {
        assert(texts =~= Seq::empty());
    }
}

/// What is copied of a selection follows the order on screen: a further row adds its
/// text behind the others where it is selected, and nothing where it is not.
pub proof fn law_selected_rows_are_copied_in_order(
    visible: Seq<usize>,
    selected: Seq<usize>,
    tasks: Seq<Task>,
    row: usize,
)
    ensures
        apply::picked(visible.push(row), selected, tasks, false) == apply::picked(
            visible,
            selected,
            tasks,
            false,
        ) + (if selected.contains(row) {
            seq![tasks[row as int].raw@]
        } else {
            seq![]
        }),
        apply::picked(visible.push(row), selected, tasks, true) == apply::picked(
            visible,
            selected,
            tasks,
            true,
        ) + (if selected.contains(row) {
            seq![tasks[row as int].body@]
        } else {
            seq![]
        }),
{
    assert(visible.push(row).drop_last() =~= visible);
    let a = apply::picked(visible, selected, tasks, false);
    let b = apply::picked(visible, selected, tasks, true);
    assert(a.push(tasks[row as int].raw@) =~= a + seq![tasks[row as int].raw@]);
    assert(b.push(tasks[row as int].body@) =~= b + seq![tasks[row as int].body@]);
    assert(a =~= a + seq![]);
    assert(b =~= b + seq![]);
}

/// In Visual mode, with a selected task off screen, nothing is copied, and that is said.
pub proof fn law_hidden_tasks_are_not_copied(v: AppView, hidden: usize)
    requires
        v.wf(),
        v.view == Screen::List,
        v.mode == Mode::Visual,
        v.visible.no_duplicates(),
        v.selected.contains(hidden),
        !v.visible.contains(hidden),
    ensures
        v.applied(Action::CopyLine) == (Reaction {
            app: AppView { flash: Some("selection includes hidden tasks"@), ..v },
            requests: Seq::empty(),
        }),
        v.applied(Action::CopyBody) == (Reaction {
            app: AppView { flash: Some("selection includes hidden tasks"@), ..v },
            requests: Seq::empty(),
        }),
{
    reveal(AppView::changing);
    apply::law_copies_take_the_whole_selection(v, false);
    apply::law_copies_take_the_whole_selection(v, true);
}

} // verus!
