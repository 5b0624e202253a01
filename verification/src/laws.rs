//! What the library promises of its operations, said of their inputs and results.
pub mod editor;
pub mod line;
pub mod list;
pub mod note;
pub mod notes;
pub mod palette;
pub mod pinned;
pub mod ui;
pub mod words;
