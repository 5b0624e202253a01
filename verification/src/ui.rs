//! What is shown, as lines of tinted text. The host paints them.
pub mod help;
pub mod note_editor;
pub mod notes_popup;
pub mod status;

use vstd::prelude::*;

verus! {

/// How a stretch of text is painted.
#[derive(Debug, Clone, Copy, PartialEq, Eq, Structural)]
pub enum Tint {
    /// As the ground it stands on.
    Plain,
    /// As ordinary text.
    Text,
    /// As text of little weight.
    Dim,
    /// As a title.
    Title,
    /// As the name of a key.
    Key,
    /// As the mark before a text that is typed.
    Marker,
    /// As a text that is typed, with the cursor behind it.
    Input,
    /// As a question that must not be missed.
    Question,
    /// As the row or tab under the cursor.
    Selected,
    /// As a tab that is not active.
    Tab,
    /// As the character under the cursor.
    CursorCell,
    /// As a blank under the cursor.
    CursorBlank,
}

/// A stretch of text painted one way.
#[derive(Debug, Clone, PartialEq, Eq)]
pub struct Span {
    pub tint: Tint,
    pub content: String,
}

/// A stretch of text painted one way, as values.
pub struct SpanView {
    pub tint: Tint,
    pub content: Seq<char>,
}

impl View for Span {
    type V = SpanView;

    open spec fn view(&self) -> SpanView {
        SpanView { tint: self.tint, content: self.content@ }
    }
}

/// A stretch of text painted one way.
pub open spec fn styled(tint: Tint, content: Seq<char>) -> SpanView {
    SpanView { tint, content }
}

/// A line, as values.
pub open spec fn line_view(line: Seq<Span>) -> Seq<SpanView> {
    line.map_values(|s: Span| s@)
}

/// Lines, as values.
pub open spec fn line_views(lines: Seq<Vec<Span>>) -> Seq<Seq<SpanView>> {
    lines.map_values(|l: Vec<Span>| line_view(l@))
}

/// The text of a line.
pub open spec fn line_text(line: Seq<SpanView>) -> Seq<char>
    decreases line.len(),
{
    if line.len() == 0 {
        Seq::empty()
    } else {
        line_text(line.drop_last()) + line.last().content
    }
}

/// A stretch of text painted one way.
pub fn span(tint: Tint, content: String) -> (r: Span)
    ensures
        r@ == styled(tint, content@),
{
    Span { tint, content }
}

/// A line of one stretch.
pub fn line1(a: Span) -> (r: Vec<Span>)
    ensures
        line_view(r@) == seq![a@],
{
    let mut r: Vec<Span> = Vec::new();
    r.push(a);
    assert(line_view(r@) =~= seq![a@]);
    r
}

/// A line of two stretches.
pub fn line2(a: Span, b: Span) -> (r: Vec<Span>)
    ensures
        line_view(r@) == seq![a@, b@],
{
    let mut r: Vec<Span> = Vec::new();
    r.push(a);
    r.push(b);
    assert(line_view(r@) =~= seq![a@, b@]);
    r
}

/// A line of three stretches.
pub fn line3(a: Span, b: Span, c: Span) -> (r: Vec<Span>)
    ensures
        line_view(r@) == seq![a@, b@, c@],
{
    let mut r: Vec<Span> = Vec::new();
    r.push(a);
    r.push(b);
    r.push(c);
    assert(line_view(r@) =~= seq![a@, b@, c@]);
    r
}

/// `n` blanks.
pub open spec fn blanks(n: nat) -> Seq<char> {
    Seq::new(n, |i: int| ' ')
}

/// `n` blanks.
pub fn spaces(n: usize) -> (r: String)
    ensures
        r@ == blanks(n as nat),
{
    let mut r = String::new();
    let mut i: usize = 0;
    while i < n
        invariant
            i <= n,
            r@ == blanks(i as nat),
        decreases n - i,
    {
        r.push(' ');
        i += 1;
        assert(r@ =~= blanks(i as nat));
    }
    r
}

/// The name that a path is shown under: its final name, or the whole path where
/// it has none.
pub open spec fn shown_name(path: Seq<char>) -> Seq<char> {
    match crate::path::path_name(path) {
        Some(name) => name,
        None => path,
    }
}

/// The name that a path is shown under.
pub fn name_of(path: &str) -> (r: String)
    ensures
        r@ == shown_name(path@),
{
    match crate::path::file_name(path) {
        Some(name) => name,
        None => path.to_owned(),
    }
}

} // verus!
