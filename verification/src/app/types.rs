//! The modes and views of the application.
use vstd::prelude::*;

verus! {

/// What the keyboard currently drives.
#[derive(Debug, Clone, Copy, PartialEq, Eq, Structural)]
pub enum Mode {
    Normal,
    Insert,
    Search,
    Visual,
    Help,
    Settings,
    PromptProject,
    PromptContext,
    PickProject,
    PickContext,
    PromptRenameProject,
    PromptRenameContext,
    PickSavedFilter,
    PromptSaveFilter,
    CommandPalette,
    Share,
    PickTheme,
    Welcome,
    Notes,
}

/// Which list is on screen.
#[derive(Debug, Clone, Copy, PartialEq, Eq, Structural)]
pub enum View {
    List,
    Archive,
}

/// How the line editor takes keys.
#[derive(Debug, Clone, Copy, PartialEq, Eq, Structural)]
pub enum DialogInputMode {
    Normal,
    Insert,
}

/// A picker that opens over the line editor.
#[derive(Debug, Clone, Copy, PartialEq, Eq, Structural)]
pub enum OverlayKind {
    Calendar,
    RecurrenceBuilder,
    PriorityChooser,
    SlashMenu,
}

} // verus!
