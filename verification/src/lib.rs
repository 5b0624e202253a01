//! Task notes for a terminal todo.txt manager.
pub mod action;
pub mod app;
pub mod dispatch;
pub mod keys;
pub mod laws;
pub mod note;
pub mod path;
pub mod run;
pub mod search;
pub mod text;
pub mod todo;
pub mod ui;
