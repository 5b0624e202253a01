//! The notes popup on screen.
use crate::app::notes_popup::{NotePromptKind, NotesPopupState, PopupView};
use crate::path;
use crate::text;
use crate::ui;
use crate::ui::{Span, SpanView, Tint};
use vstd::prelude::*;

verus! {

/// The title of the popup.
pub open spec fn popup_title(kind: Option<NotePromptKind>) -> Seq<char> {
    match kind {
        Some(NotePromptKind::Create) => " NEW NOTE "@,
        Some(NotePromptKind::Rename { .. }) => " RENAME NOTE "@,
        None => " NOTES "@,
    }
}

/// The title of the popup.
pub fn title(state: &NotesPopupState) -> (r: &'static str)
    ensures
        r@ == popup_title(state@.prompt_kind),
{
    match state.prompt_kind {
        Some(NotePromptKind::Create) => " NEW NOTE ",
        Some(NotePromptKind::Rename { .. }) => " RENAME NOTE ",
        None => " NOTES ",
    }
}

/// The name of the file that a question is about; nothing where there is none.
pub open spec fn asked_name(files: Seq<Seq<char>>, index: usize) -> Seq<char> {
    if index < files.len() {
        match path::path_name(files[index as int]) {
            Some(name) => name,
            None => Seq::empty(),
        }
    } else {
        Seq::empty()
    }
}

/// A row for each file, the one under the cursor marked.
pub open spec fn file_rows(files: Seq<Seq<char>>, cursor: int) -> Seq<Seq<SpanView>> {
    Seq::new(
        files.len(),
        |i: int|
            seq![
                ui::styled(
                    if i == cursor {
                        Tint::Selected
                    } else {
                        Tint::Text
                    },
                    "  "@ + ui::shown_name(files[i]),
                ),
            ],
    )
}

/// What the popup shows: the prompt, else the question, else the files.
pub open spec fn popup_rows(p: PopupView) -> Seq<Seq<SpanView>> {
    match (p.prompt, p.pending_delete) {
        (Some(input), _) => seq![
            seq![
                ui::styled(Tint::Plain, "  "@),
                ui::styled(Tint::Marker, "› "@),
                ui::styled(Tint::Input, input),
            ],
        ],
        (None, Some(index)) => seq![
            seq![ui::styled(Tint::Question, "  Delete "@ + asked_name(p.files, index) + "? (y/n)"@)],
        ],
        (None, None) => if p.files.len() == 0 {
            seq![seq![ui::styled(Tint::Dim, "  No notes yet"@)]]
        } else {
            file_rows(p.files, p.cursor)
        },
    }
}

fn one_row(line: Vec<Span>) -> (r: Vec<Vec<Span>>)
    ensures
        ui::line_views(r@) == seq![ui::line_view(line@)],
{
    let mut r: Vec<Vec<Span>> = Vec::new();
    r.push(line);
    assert(ui::line_views(r@) =~= seq![ui::line_view(line@)]);
    r
}

fn rows_of_files(files: &Vec<String>, cursor: usize) -> (r: Vec<Vec<Span>>)
    ensures
        ui::line_views(r@) == file_rows(text::texts(files@), cursor as int),
{
    let ghost all = text::texts(files@);
    let mut rows: Vec<Vec<Span>> = Vec::new();
    let mut i: usize = 0;
    while i < files.len()
        invariant
            i <= files@.len(),
            all == text::texts(files@),
            rows@.len() == i,
            forall|j: int|
                0 <= j < i ==> #[trigger] ui::line_view(rows@[j]@) == file_rows(
                    all,
                    cursor as int,
                )[j],
        decreases files.len() - i,
    {
        let name = ui::name_of(files[i].as_str());
        let tint = if i == cursor {
            Tint::Selected
        } else {
            Tint::Text
        };
        rows.push(ui::line1(ui::span(tint, text::concat("  ", name.as_str()))));
        i += 1;
    }
    assert(ui::line_views(rows@) =~= file_rows(all, cursor as int));
    rows
}

/// What the popup shows: the prompt while it is open, else the question before a
/// deletion, else the files.
pub fn rows(state: &NotesPopupState) -> (r: Vec<Vec<Span>>)
    ensures
        ui::line_views(r@) == popup_rows(state@),
{
    if let Some(input) = &state.prompt {
        return one_row(
            ui::line3(
                ui::span(Tint::Plain, "  ".to_owned()),
                ui::span(Tint::Marker, "› ".to_owned()),
                ui::span(Tint::Input, input.clone()),
            ),
        );
    }
    if let Some(index) = state.pending_delete {
        let name = if index < state.files.len() {
            match path::file_name(state.files[index].as_str()) {
                Some(name) => name,
                None => String::new(),
            }
        } else {
            String::new()
        };
        let mut question = text::concat("  Delete ", name.as_str());
        question.append("? (y/n)");
        return one_row(ui::line1(ui::span(Tint::Question, question)));
    }
    if state.files.len() == 0 {
        return one_row(ui::line1(ui::span(Tint::Dim, "  No notes yet".to_owned())));
    }
    rows_of_files(&state.files, state.cursor)
}

} // verus!
