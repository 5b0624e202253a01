//! The keys of the main list and what its commands do.
use crate::action::Action;
use crate::app::{App, AppView};
use crate::keys;
use crate::keys::{KeyCode, KeyEvent};
use vstd::prelude::*;

verus! {

/// What a key of the user's own bindings came to.
#[derive(Debug, Clone, Copy, PartialEq, Eq, Structural)]
pub enum ResolvedKey {
    Action(Action),
    /// The key began a chord.
    Pending,
}

/// A keystroke read with `leader` as the chord's first key: the command it
/// stands for, if any, and the first key that then waits.
pub struct Resolved {
    pub action: Option<Action>,
    pub leader: Option<char>,
}

/// The command, and no change to the chord.
pub open spec fn plainly(leader: Option<char>, action: Action) -> Resolved {
    Resolved { action: Some(action), leader }
}

/// A key that means `action` as the second press of itself, and otherwise
/// waits for it.
pub open spec fn twice(leader: Option<char>, key: char, action: Action) -> Resolved {
    if leader == Some(key) {
        Resolved { action: Some(action), leader: None }
    } else {
        Resolved { action: None, leader: Some(key) }
    }
}

/// A key that means `chord` behind `first`, and otherwise `plain`.
pub open spec fn behind(
    leader: Option<char>,
    first: char,
    chord: Action,
    plain: Option<Action>,
) -> Resolved {
    if leader == Some(first) {
        Resolved { action: Some(chord), leader: None }
    } else {
        Resolved { action: plain, leader }
    }
}

/// The command of a character typed in the main list.
pub open spec fn char_command(leader: Option<char>, c: char) -> Resolved {
    match c {
        'j' => plainly(leader, Action::CursorDown),
        'k' => plainly(leader, Action::CursorUp),
        'J' => plainly(leader, Action::MoveTaskDown),
        'K' => plainly(leader, Action::MoveTaskUp),
        'G' => plainly(leader, Action::CursorBottom),
        'g' => twice(leader, 'g', Action::CursorTop),
        'n' => plainly(leader, Action::BeginAdd),
        'r' => plainly(leader, Action::Reschedule),
        'a' => plainly(leader, Action::ToggleArchiveView),
        'l' => plainly(leader, Action::GoList),
        'e' => plainly(leader, Action::BeginEdit),
        'i' => plainly(leader, Action::BeginEditInsert),
        'o' => plainly(leader, Action::OpenNotes),
        'x' => plainly(leader, Action::ToggleComplete),
        'd' => twice(leader, 'd', Action::Delete),
        'y' => twice(leader, 'y', Action::CopyLine),
        'b' => behind(leader, 'y', Action::CopyBody, None),
        'p' => behind(leader, 'f', Action::PickProject, Some(Action::CyclePriority)),
        'c' => behind(leader, 'f', Action::PickContext, Some(Action::BeginPromptContext)),
        '/' => plainly(leader, Action::BeginSearch),
        '?' => plainly(leader, Action::OpenHelp),
        ',' => plainly(leader, Action::OpenSettings),
        ':' => plainly(leader, Action::OpenCommandPalette),
        'u' => plainly(leader, Action::Undo),
        'v' => plainly(leader, Action::ToggleVisual),
        ' ' => plainly(leader, Action::ToggleSelected),
        'A' => plainly(leader, Action::ArchiveCompleted),
        'f' => behind(leader, 'f', Action::PickSavedFilter, Some(Action::ArmF)),
        's' => behind(leader, 'f', Action::SaveCurrentFilter, Some(Action::OpenShare)),
        'S' => plainly(leader, Action::CycleSort),
        '+' => plainly(leader, Action::BeginPromptProject),
        '[' => plainly(leader, Action::ToggleLeftPane),
        ']' => plainly(leader, Action::ToggleRightPane),
        'T' => plainly(leader, Action::OpenThemePicker),
        'D' => plainly(leader, Action::CycleDensity),
        'L' => plainly(leader, Action::ToggleLineNum),
        'H' => plainly(leader, Action::ToggleShowDone),
        'F' => plainly(leader, Action::ToggleShowFuture),
        'W' => plainly(leader, Action::ChangeWeekStart),
        'z' => plainly(leader, Action::TogglePinFocus),
        'Z' => plainly(leader, Action::ClosePinnedNote),
        _ => Resolved { action: None, leader },
    }
}

/// The command of a keystroke in the main list. The user's own bindings come
/// first, then the keys that quit, then those held with Control.
pub open spec fn normal_key(
    leader: Option<char>,
    key: KeyEvent,
    custom: Option<ResolvedKey>,
) -> Resolved {
    if custom is Some {
        Resolved {
            action: match custom {
                Some(ResolvedKey::Action(action)) => Some(action),
                _ => None,
            },
            leader,
        }
    } else if keys::exit_key(key) {
        plainly(leader, Action::Quit)
    } else if key.modifiers.control {
        Resolved {
            action: match key.code {
                KeyCode::Char('d') => Some(Action::HalfPageDown),
                KeyCode::Char('u') => Some(Action::HalfPageUp),
                KeyCode::Char('p') => Some(Action::OpenCommandPalette),
                _ => None,
            },
            leader,
        }
    } else {
        match key.code {
            KeyCode::Char(c) => char_command(leader, c),
            KeyCode::Down => plainly(leader, Action::CursorDown),
            KeyCode::Up => plainly(leader, Action::CursorUp),
            KeyCode::Esc => plainly(leader, Action::EscapeStack),
            _ => Resolved { action: None, leader },
        }
    }
}

fn resolve_char(app: &mut App, c: char) -> (r: Option<Action>)
    ensures
        r == char_command(old(app)@.leader, c).action,
        final(app)@ == (AppView { leader: char_command(old(app)@.leader, c).leader, ..old(app)@ }),
{
    match c {
        'j' => Some(Action::CursorDown),
        'k' => Some(Action::CursorUp),
        'J' => Some(Action::MoveTaskDown),
        'K' => Some(Action::MoveTaskUp),
        'G' => Some(Action::CursorBottom),
        'g' => if app.chord.toggle('g') {
            Some(Action::CursorTop)
        } else {
            None
        },
        'n' => Some(Action::BeginAdd),
        'r' => Some(Action::Reschedule),
        'a' => Some(Action::ToggleArchiveView),
        'l' => Some(Action::GoList),
        'e' => Some(Action::BeginEdit),
        'i' => Some(Action::BeginEditInsert),
        'o' => Some(Action::OpenNotes),
        'x' => Some(Action::ToggleComplete),
        'd' => if app.chord.toggle('d') {
            Some(Action::Delete)
        } else {
            None
        },
        'y' => if app.chord.toggle('y') {
            Some(Action::CopyLine)
        } else {
            None
        },
        'b' => if app.chord.consume('y') {
            Some(Action::CopyBody)
        } else {
            None
        },
        'p' => if app.chord.consume('f') {
            Some(Action::PickProject)
        } else {
            Some(Action::CyclePriority)
        },
        'c' => if app.chord.consume('f') {
            Some(Action::PickContext)
        } else {
            Some(Action::BeginPromptContext)
        },
        '/' => Some(Action::BeginSearch),
        '?' => Some(Action::OpenHelp),
        ',' => Some(Action::OpenSettings),
        ':' => Some(Action::OpenCommandPalette),
        'u' => Some(Action::Undo),
        'v' => Some(Action::ToggleVisual),
        ' ' => Some(Action::ToggleSelected),
        'A' => Some(Action::ArchiveCompleted),
        'f' => if app.chord.consume('f') {
            Some(Action::PickSavedFilter)
        } else {
            Some(Action::ArmF)
        },
        's' => if app.chord.consume('f') {
            Some(Action::SaveCurrentFilter)
        } else {
            Some(Action::OpenShare)
        },
        'S' => Some(Action::CycleSort),
        '+' => Some(Action::BeginPromptProject),
        '[' => Some(Action::ToggleLeftPane),
        ']' => Some(Action::ToggleRightPane),
        'T' => Some(Action::OpenThemePicker),
        'D' => Some(Action::CycleDensity),
        'L' => Some(Action::ToggleLineNum),
        'H' => Some(Action::ToggleShowDone),
        'F' => Some(Action::ToggleShowFuture),
        'W' => Some(Action::ChangeWeekStart),
        'z' => Some(Action::TogglePinFocus),
        'Z' => Some(Action::ClosePinnedNote),
        _ => None,
    }
}

/// The command of a keystroke in the main list, if it has one: none where it
/// only begins a chord. `custom` is what the user's own bindings say of the key.
pub fn resolve_normal_key(app: &mut App, key: KeyEvent, custom: Option<ResolvedKey>) -> (r: Option<
    Action,
>)
    ensures
        r == normal_key(old(app)@.leader, key, custom).action,
        final(app)@ == (AppView {
            leader: normal_key(old(app)@.leader, key, custom).leader,
            ..old(app)@
        }),
{
    match custom {
        Some(ResolvedKey::Action(action)) => return Some(action),
        Some(ResolvedKey::Pending) => return None,
        None => {},
    }
    if keys::is_exit_key(key) {
        return Some(Action::Quit);
    }
    if key.modifiers.control {
        return match key.code {
            KeyCode::Char('d') => Some(Action::HalfPageDown),
            KeyCode::Char('u') => Some(Action::HalfPageUp),
            KeyCode::Char('p') => Some(Action::OpenCommandPalette),
            _ => None,
        };
    }
    match key.code {
        KeyCode::Char(c) => resolve_char(app, c),
        KeyCode::Down => Some(Action::CursorDown),
        KeyCode::Up => Some(Action::CursorUp),
        KeyCode::Esc => Some(Action::EscapeStack),
        _ => None,
    }
}

} // verus!
