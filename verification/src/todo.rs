//! A parsed todo.txt line.
use vstd::prelude::*;

verus! {

/// One task, as its line was parsed.
#[derive(Debug, Clone, PartialEq, Eq)]
pub struct Task {
    /// The whole line.
    pub raw: String,
    /// The description: the line without its completion mark, priority, dates,
    /// projects, contexts and `key:value` tags.
    pub body: String,
    pub done: bool,
    pub priority: Option<char>,
    pub created_date: Option<String>,
    pub due: Option<String>,
    /// The projects, without their `+`.
    pub projects: Vec<String>,
    /// The contexts, without their `@`.
    pub contexts: Vec<String>,
}

} // verus!
