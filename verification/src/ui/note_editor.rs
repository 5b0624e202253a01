//! The note editor on screen: its title, the lines that fit, the cursor, and the
//! tabs of pinned notes.
use crate::app::note_editor::{EditorView, NoteEditorState};
use crate::text;
use crate::ui;
use crate::ui::{Span, SpanView, Tint};
use vstd::prelude::*;

verus! {

/// The first line shown: as far down as it takes to have the cursor on screen.
pub open spec fn top_line(cursor_line: int, height: int) -> int {
    if height > 0 && cursor_line >= height {
        cursor_line + 1 - height
    } else {
        0
    }
}

/// The line behind the last one shown.
pub open spec fn end_line(cursor_line: int, height: int, count: int) -> int {
    let end = top_line(cursor_line, height) + height;
    if end < count {
        end
    } else {
        count
    }
}

/// A line of the buffer. On the cursor's line the character under the cursor is
/// marked, or a blank where the cursor stands behind the last one.
pub open spec fn shown_line(line: Seq<char>, is_cursor_line: bool, col: int) -> Seq<SpanView> {
    if !is_cursor_line {
        seq![ui::styled(Tint::Text, line)]
    } else {
        let before = if col > 0 {
            seq![ui::styled(Tint::Text, line.take(if col < line.len() { col } else { line.len() as int }))]
        } else {
            Seq::empty()
        };
        if col < line.len() {
            let marked = before.push(ui::styled(Tint::CursorCell, seq![line[col]]));
            if col + 1 < line.len() {
                marked.push(ui::styled(Tint::Text, line.skip(col + 1)))
            } else {
                marked
            }
        } else {
            before.push(ui::styled(Tint::CursorBlank, seq![' ']))
        }
    }
}

/// The lines of a buffer that are shown.
pub open spec fn shown_lines(e: EditorView, height: int) -> Seq<Seq<SpanView>> {
    let top = top_line(e.line, height);
    let end = end_line(e.line, height, e.lines.len() as int);
    Seq::new(
        (end - top) as nat,
        |i: int| shown_line(e.lines[top + i], top + i == e.line, e.col),
    )
}

/// One line of the buffer.
pub fn render_line(line: &str, is_cursor_line: bool, col: usize) -> (r: Vec<Span>)
    ensures
        ui::line_view(r@) == shown_line(line@, is_cursor_line, col as int),
{
    if !is_cursor_line {
        return ui::line1(ui::span(Tint::Text, line.to_owned()));
    }
    let chars = text::chars_of(line);
    let n: usize = chars.len();
    let mut spans: Vec<Span> = Vec::new();
    if col > 0 {
        let to: usize = if col < n {
            col
        } else {
            n
        };
        let before = text::string_of(&chars, 0, to);
        assert(before@ =~= line@.take(to as int));
        spans.push(ui::span(Tint::Text, before));
    }
    if col < n {
        let cell = text::string_of(&chars, col, col + 1);
        assert(cell@ =~= seq![line@[col as int]]);
        spans.push(ui::span(Tint::CursorCell, cell));
        if col + 1 < n {
            let after = text::string_of(&chars, col + 1, n);
            assert(after@ =~= line@.skip(col + 1));
            spans.push(ui::span(Tint::Text, after));
        }
    } else {
        let blank = ui::spaces(1);
        assert(blank@ =~= seq![' ']);
        spans.push(ui::span(Tint::CursorBlank, blank));
    }
    assert(ui::line_view(spans@) =~= shown_line(line@, true, col as int));
    spans
}

/// The lines of the buffer that are shown in `height` rows.
pub fn render_editor(editor: &NoteEditorState, height: usize) -> (r: Vec<Vec<Span>>)
    requires
        editor@.wf(),
    ensures
        ui::line_views(r@) == shown_lines(editor@, height as int),
{
    let cursor: usize = editor.cursor_line();
    let col: usize = editor.cursor_col();
    let lines = editor.lines();
    let count: usize = lines.len();
    assert(count == editor@.lines.len());
    let top: usize = if height > 0 && cursor >= height {
        cursor - (height - 1)
    } else {
        0
    };
    let end: usize = if height < count - top {
        top + height
    } else {
        count
    };
    let mut rows: Vec<Vec<Span>> = Vec::new();
    let mut i: usize = top;
    while i < end
        invariant
            top <= i <= end,
            end <= count,
            count == lines@.len(),
            text::texts(lines@) == editor@.lines,
            cursor == editor@.line,
            col == editor@.col,
            rows@.len() == i - top,
            forall|j: int|
                0 <= j < rows@.len() ==> #[trigger] ui::line_view(rows@[j]@) == shown_line(
                    editor@.lines[top + j],
                    top + j == editor@.line,
                    editor@.col,
                ),
        decreases end - i,
    {
        assert(editor@.lines[i as int] == lines@[i as int]@);
        rows.push(render_line(lines[i].as_str(), i == cursor, col));
        i += 1;
    }
    assert(ui::line_views(rows@) =~= shown_lines(editor@, height as int));
    rows
}

/// The title of the editor: the note's name between blanks.
pub fn editor_title(editor: &NoteEditorState) -> (r: String)
    ensures
        r@ == " "@ + ui::shown_name(editor@.path) + " "@,
{
    let name = ui::name_of(editor.path().as_str());
    let mut r = text::concat(" ", name.as_str());
    r.append(" ");
    r
}

/// The tabs of pinned notes: a label each, the active one marked.
pub open spec fn tabs(paths: Seq<Seq<char>>, active: int) -> Seq<SpanView> {
    Seq::new(
        paths.len(),
        |i: int|
            ui::styled(
                if i == active {
                    Tint::Selected
                } else {
                    Tint::Tab
                },
                " "@ + ui::shown_name(paths[i]) + " "@,
            ),
    )
}

/// The tabs of pinned notes.
pub fn render_tab_bar(paths: &Vec<String>, active: usize) -> (r: Vec<Span>)
    ensures
        ui::line_view(r@) == tabs(text::texts(paths@), active as int),
{
    let ghost all = text::texts(paths@);
    let mut r: Vec<Span> = Vec::new();
    let mut i: usize = 0;
    while i < paths.len()
        invariant
            i <= paths@.len(),
            all == text::texts(paths@),
            r@.len() == i,
            forall|j: int| 0 <= j < i ==> #[trigger] r@[j]@ == tabs(all, active as int)[j],
        decreases paths.len() - i,
    {
        let name = ui::name_of(paths[i].as_str());
        let mut label = text::concat(" ", name.as_str());
        label.append(" ");
        let tint = if i == active {
            Tint::Selected
        } else {
            Tint::Tab
        };
        r.push(ui::span(tint, label));
        i += 1;
    }
    assert(ui::line_view(r@) =~= tabs(all, active as int));
    r
}

/// The tab bar over the pinned notes, where there is more than one to tell apart.
pub fn render_pinned(paths: &Vec<String>, active: usize) -> (r: Option<Vec<Span>>)
    ensures
        match r {
            Some(bar) => paths@.len() > 1 && ui::line_view(bar@) == tabs(
                text::texts(paths@),
                active as int,
            ),
            None => paths@.len() <= 1,
        },
{
    if paths.len() > 1 {
        Some(render_tab_bar(paths, active))
    } else {
        None
    }
}

/// The cursor's line is always among those shown, wherever the cursor is and
/// however few rows there are.
pub proof fn law_cursor_is_on_screen(e: EditorView, height: int)
    requires
        e.wf(),
        height > 0,
    ensures
        top_line(e.line, height) <= e.line < end_line(e.line, height, e.lines.len() as int),
        shown_lines(e, height).len() <= height,
{
}

/// A line is shown as it is: marking the cursor changes none of its characters
/// and adds nothing but the blank behind the last one.
pub proof fn law_line_is_shown_as_it_is(line: Seq<char>, is_cursor_line: bool, col: int)
    requires
        0 <= col <= line.len(),
    ensures
        ui::line_text(shown_line(line, is_cursor_line, col)) == if is_cursor_line && col
            == line.len() {
            line.push(' ')
        } else {
            line
        },
{
    reveal_with_fuel(ui::line_text, 4);
    let shown = shown_line(line, is_cursor_line, col);
    if !is_cursor_line {
        assert(shown.drop_last() =~= Seq::empty());
        assert(Seq::<char>::empty() + line =~= line);
    } else if col == line.len() {
        assert(line.take(col) =~= line);
        if col > 0 {
            assert(shown.drop_last() =~= seq![ui::styled(Tint::Text, line.take(col))]);
            assert(shown.drop_last().drop_last() =~= Seq::empty());
            assert(Seq::<char>::empty() + line =~= line);
            assert(line + seq![' '] =~= line.push(' '));
        } else {
            assert(shown.drop_last() =~= Seq::empty());
            assert(Seq::<char>::empty() + seq![' '] =~= line.push(' '));
        }
    } else {
        let before = line.take(col);
        let cell = seq![line[col]];
        let after = line.skip(col + 1);
        let head: Seq<SpanView> = if col > 0 {
            seq![ui::styled(Tint::Text, before)]
        } else {
            Seq::empty()
        };
        let marked = head.push(ui::styled(Tint::CursorCell, cell));
        assert(marked.drop_last() =~= head);
        assert(ui::line_text(head) =~= before) by {
            if col > 0 {
                assert(head.drop_last() =~= Seq::empty());
            }
        }
        assert(ui::line_text(marked) =~= before + cell);
        if col + 1 < line.len() {
            assert(shown =~= marked.push(ui::styled(Tint::Text, after)));
            assert(shown.drop_last() =~= marked);
            assert(before + cell + after =~= line);
        } else {
            assert(shown =~= marked);
            assert(before + cell =~= line);
        }
    }
}

} // verus!
