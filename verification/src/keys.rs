//! Keystrokes, and the line-editing operations that they stand for.
use vstd::prelude::*;

verus! {

/// A key.
#[derive(Debug, Clone, Copy, PartialEq, Eq, Structural)]
pub enum KeyCode {
    Char(char),
    Enter,
    Esc,
    Backspace,
    Delete,
    Tab,
    BackTab,
    Left,
    Right,
    Up,
    Down,
    Home,
    End,
    /// Any key that nothing is bound to.
    Other,
}

/// The modifiers held with a key. Shift is already part of the character.
#[derive(Debug, Clone, Copy, PartialEq, Eq, Structural)]
pub struct KeyModifiers {
    pub control: bool,
    pub alt: bool,
    /// Whether any other modifier is held.
    pub other: bool,
}

/// A keystroke.
#[derive(Debug, Clone, Copy, PartialEq, Eq, Structural)]
pub struct KeyEvent {
    pub code: KeyCode,
    pub modifiers: KeyModifiers,
}

impl KeyEvent {
    /// A key with the given modifiers.
    pub fn new(code: KeyCode, modifiers: KeyModifiers) -> (r: Self)
        ensures
            r == (KeyEvent { code, modifiers }),
    {
        KeyEvent { code, modifiers }
    }
}

/// Whether a keystroke leaves what is on screen: `q`, or Ctrl-C.
pub open spec fn exit_key(key: KeyEvent) -> bool {
    ||| key.code == KeyCode::Char('q')
    ||| key.code == KeyCode::Char('c') && key.modifiers == (KeyModifiers {
        control: true,
        alt: false,
        other: false,
    })
}

/// Whether a keystroke leaves what is on screen: `q`, or Ctrl-C with no other
/// modifier.
pub fn is_exit_key(key: KeyEvent) -> (r: bool)
    ensures
        r == exit_key(key),
{
    key.code == KeyCode::Char('q') || (key.code == KeyCode::Char('c') && key.modifiers.control
        && !key.modifiers.alt && !key.modifiers.other)
}

/// One operation on the line being edited.
#[derive(Debug, Clone, Copy, PartialEq, Eq, Structural)]
pub enum EditAction {
    Insert(char),
    DeleteBackward,
    DeleteForward,
    DeleteWordBackward,
    DeleteWordForward,
    KillToStart,
    KillToEnd,
    MoveLeft,
    MoveRight,
    MoveHome,
    MoveEnd,
    MoveWordForward,
    MoveWordBackward,
}

/// What a key did to the line being edited.
#[derive(Debug, Clone, Copy, PartialEq, Eq, Structural)]
pub enum DraftEffect {
    Unhandled,
    CursorMoved,
    TextChanged,
}

impl EditAction {
    /// Whether the operation only moves the cursor.
    pub open spec fn is_motion(self) -> bool {
        ||| self == EditAction::MoveLeft
        ||| self == EditAction::MoveRight
        ||| self == EditAction::MoveHome
        ||| self == EditAction::MoveEnd
        ||| self == EditAction::MoveWordForward
        ||| self == EditAction::MoveWordBackward
    }

    /// What the operation counts as: a motion, or a change of the text.
    pub fn effect(self) -> (r: DraftEffect)
        ensures
            r == (if self.is_motion() {
                DraftEffect::CursorMoved
            } else {
                DraftEffect::TextChanged
            }),
    {
        match self {
            EditAction::Insert(_)
            | EditAction::DeleteBackward
            | EditAction::DeleteForward
            | EditAction::DeleteWordBackward
            | EditAction::DeleteWordForward
            | EditAction::KillToStart
            | EditAction::KillToEnd => DraftEffect::TextChanged,
            EditAction::MoveLeft
            | EditAction::MoveRight
            | EditAction::MoveHome
            | EditAction::MoveEnd
            | EditAction::MoveWordForward
            | EditAction::MoveWordBackward => DraftEffect::CursorMoved,
        }
    }
}

/// The operation of a key held with Control alone.
pub open spec fn control_edit(code: KeyCode) -> Option<EditAction> {
    match code {
        KeyCode::Char('a') => Some(EditAction::MoveHome),
        KeyCode::Char('e') => Some(EditAction::MoveEnd),
        KeyCode::Char('b') => Some(EditAction::MoveLeft),
        KeyCode::Char('f') => Some(EditAction::MoveRight),
        KeyCode::Char('h') => Some(EditAction::DeleteBackward),
        KeyCode::Char('d') => Some(EditAction::DeleteForward),
        KeyCode::Char('w') => Some(EditAction::DeleteWordBackward),
        KeyCode::Char('u') => Some(EditAction::KillToStart),
        KeyCode::Char('k') => Some(EditAction::KillToEnd),
        KeyCode::Backspace => Some(EditAction::DeleteWordBackward),
        _ => None,
    }
}

/// The operation of a key held with Alt alone.
pub open spec fn alt_edit(code: KeyCode) -> Option<EditAction> {
    match code {
        KeyCode::Char('b') => Some(EditAction::MoveWordBackward),
        KeyCode::Char('f') => Some(EditAction::MoveWordForward),
        KeyCode::Char('d') => Some(EditAction::DeleteWordForward),
        KeyCode::Backspace => Some(EditAction::DeleteWordBackward),
        _ => None,
    }
}

/// The operation of a key that is no chord.
pub open spec fn plain_edit(code: KeyCode) -> Option<EditAction> {
    match code {
        KeyCode::Backspace => Some(EditAction::DeleteBackward),
        KeyCode::Delete => Some(EditAction::DeleteForward),
        KeyCode::Left => Some(EditAction::MoveLeft),
        KeyCode::Right => Some(EditAction::MoveRight),
        KeyCode::Home => Some(EditAction::MoveHome),
        KeyCode::End => Some(EditAction::MoveEnd),
        KeyCode::Char(c) => Some(EditAction::Insert(c)),
        _ => None,
    }
}

/// The operation that a keystroke stands for. Control and Alt together are
/// AltGr, which types a character.
pub open spec fn edit_key(key: KeyEvent) -> Option<EditAction> {
    if key.modifiers.control && !key.modifiers.alt {
        control_edit(key.code)
    } else if key.modifiers.alt && !key.modifiers.control {
        alt_edit(key.code)
    } else {
        plain_edit(key.code)
    }
}

/// The operation that a keystroke stands for, if it edits text at all. A key
/// held with Control or with Alt never types a character; one held with both,
/// which is AltGr, does.
pub fn resolve_edit_key(key: KeyEvent) -> (r: Option<EditAction>)
    ensures
        r == edit_key(key),
{
    let ctrl = key.modifiers.control;
    let alt = key.modifiers.alt;
    if ctrl && !alt {
        return match key.code {
            KeyCode::Char('a') => Some(EditAction::MoveHome),
            KeyCode::Char('e') => Some(EditAction::MoveEnd),
            KeyCode::Char('b') => Some(EditAction::MoveLeft),
            KeyCode::Char('f') => Some(EditAction::MoveRight),
            KeyCode::Char('h') => Some(EditAction::DeleteBackward),
            KeyCode::Char('d') => Some(EditAction::DeleteForward),
            KeyCode::Char('w') => Some(EditAction::DeleteWordBackward),
            KeyCode::Char('u') => Some(EditAction::KillToStart),
            KeyCode::Char('k') => Some(EditAction::KillToEnd),
            KeyCode::Backspace => Some(EditAction::DeleteWordBackward),
            _ => None,
        };
    }
    if alt && !ctrl {
        return match key.code {
            KeyCode::Char('b') => Some(EditAction::MoveWordBackward),
            KeyCode::Char('f') => Some(EditAction::MoveWordForward),
            KeyCode::Char('d') => Some(EditAction::DeleteWordForward),
            KeyCode::Backspace => Some(EditAction::DeleteWordBackward),
            _ => None,
        };
    }
    match key.code {
        KeyCode::Backspace => Some(EditAction::DeleteBackward),
        KeyCode::Delete => Some(EditAction::DeleteForward),
        KeyCode::Left => Some(EditAction::MoveLeft),
        KeyCode::Right => Some(EditAction::MoveRight),
        KeyCode::Home => Some(EditAction::MoveHome),
        KeyCode::End => Some(EditAction::MoveEnd),
        KeyCode::Char(c) => Some(EditAction::Insert(c)),
        _ => None,
    }
}

/// A key held with exactly one of Control and Alt never types a character, and
/// a character typed otherwise, AltGr included, is always inserted.
pub proof fn law_chords_never_type(key: KeyEvent)
    ensures
        key.modifiers.control != key.modifiers.alt ==> !(edit_key(key) matches Some(
            EditAction::Insert(_),
        )),
        key.modifiers.control == key.modifiers.alt ==> (key.code matches KeyCode::Char(c)
            ==> edit_key(key) == Some(EditAction::Insert(c))),
{
}

/// The keys that step through a list while a line is being edited, Ctrl-N and
/// Ctrl-P, never edit it.
pub proof fn law_list_keys_are_free(key: KeyEvent)
    requires
        key.modifiers.control && !key.modifiers.alt,
        key.code == KeyCode::Char('n') || key.code == KeyCode::Char('p'),
    ensures
        edit_key(key) is None,
{
}

} // verus!
