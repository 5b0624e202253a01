//! What a key or a palette entry asks for.
use vstd::prelude::*;

verus! {

/// A command of the main list.
#[derive(Debug, Clone, Copy, PartialEq, Eq, Structural)]
pub enum Action {
    Quit,
    CursorDown,
    CursorUp,
    CursorTop,
    CursorBottom,
    HalfPageDown,
    HalfPageUp,
    BeginAdd,
    BeginEdit,
    BeginEditInsert,
    ToggleComplete,
    Delete,
    CyclePriority,
    MoveTaskDown,
    MoveTaskUp,
    BeginSearch,
    OpenHelp,
    OpenSettings,
    OpenCommandPalette,
    Undo,
    ToggleVisual,
    ToggleSelected,
    GoList,
    ToggleArchiveView,
    ArchiveCompleted,
    /// The first key of `fp`, `fc`, `ff` and `fs`.
    ArmF,
    PickProject,
    PickContext,
    PickSavedFilter,
    SaveCurrentFilter,
    CycleSort,
    BeginPromptProject,
    BeginPromptContext,
    ToggleLeftPane,
    ToggleRightPane,
    CycleTheme,
    CycleDensity,
    ToggleLineNum,
    ToggleShowDone,
    ToggleShowFuture,
    CopyLine,
    CopyBody,
    OpenNotes,
    OpenShare,
    OpenThemePicker,
    EscapeStack,
    Reschedule,
    ChangeWeekStart,
    TogglePinFocus,
    ClosePinnedNote,
}

/// A command of the recurrence builder.
#[derive(Debug, Clone, Copy, PartialEq, Eq, Structural)]
pub enum RecAction {
    FocusNext,
    FocusPrev,
    ValueNext,
    ValuePrev,
    Accept,
    Cancel,
}

} // verus!
