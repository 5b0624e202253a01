//! The help on screen: the keys in two columns, and below them the format of a
//! task, in two columns too.
use crate::ui;
use crate::ui::{Span, SpanView, Tint};
use vstd::prelude::*;

verus! {

/// One row of the help.
#[derive(Debug, Clone, Copy)]
pub struct HelpItem {
    pub keys: &'static str,
    pub what: &'static str,
}

/// Rows of the help under a title. The title is empty where they go on with
/// those of the column beside them.
#[derive(Debug, Clone)]
pub struct Section {
    pub title: &'static str,
    pub items: Vec<HelpItem>,
}

/// Rows of the help under a title, as values.
pub struct SectionView {
    pub title: &'static str,
    pub items: Seq<HelpItem>,
}

impl View for Section {
    type V = SectionView;

    open spec fn view(&self) -> SectionView {
        SectionView { title: self.title, items: self.items@ }
    }
}

/// Sections, as values.
pub open spec fn section_views(sections: Seq<Section>) -> Seq<SectionView> {
    sections.map_values(|s: Section| s@)
}

/// One row of the help.
pub open spec fn row(keys: &'static str, what: &'static str) -> HelpItem {
    HelpItem { keys, what }
}

fn item(keys: &'static str, what: &'static str) -> (r: HelpItem)
    ensures
        r == row(keys, what),
{
    HelpItem { keys, what }
}

/// Moving about.
pub open spec fn navigation_section() -> SectionView {
    SectionView {
        title: "NAVIGATION",
        items: seq![
            row("j / k  (↓ / ↑)", "next / previous task"),
            row("gg / G", "first / last task"),
            row("Ctrl-d / Ctrl-u", "page down / up"),
        ],
    }
}

fn navigation() -> (r: Section)
    ensures
        r@ == navigation_section(),
{
    let items = vec![
        item("j / k  (↓ / ↑)", "next / previous task"),
        item("gg / G", "first / last task"),
        item("Ctrl-d / Ctrl-u", "page down / up"),
    ];
    assert(items@ =~= navigation_section().items);
    Section { title: "NAVIGATION", items }
}

/// Changing tasks.
pub open spec fn editing_section() -> SectionView {
    SectionView {
        title: "EDITING",
        items: seq![
            row("n / o", "new task / open notes"),
            row("e / i", "edit (normal / insert)"),
            row("r", "reschedule task"),
            row("x", "toggle complete"),
            row("dd", "delete task"),
            row("p", "cycle priority A→B→C→·"),
            row("J / K", "move task down / up"),
            row("c", "add/remove context"),
            row("+", "add project"),
            row("yy / yb", "copy line / body"),
            row("u", "undo"),
        ],
    }
}

fn editing() -> (r: Section)
    ensures
        r@ == editing_section(),
{
    let items = vec![
        item("n / o", "new task / open notes"),
        item("e / i", "edit (normal / insert)"),
        item("r", "reschedule task"),
        item("x", "toggle complete"),
        item("dd", "delete task"),
        item("p", "cycle priority A→B→C→·"),
        item("J / K", "move task down / up"),
        item("c", "add/remove context"),
        item("+", "add project"),
        item("yy / yb", "copy line / body"),
        item("u", "undo"),
    ];
    assert(items@ =~= editing_section().items);
    Section { title: "EDITING", items }
}

/// The recurrence builder, which can be bound otherwise.
pub open spec fn recurrence_section() -> SectionView {
    SectionView {
        title: "RECURRENCE (rec:)",
        items: seq![
            row("j / k / Tab", "next / prev field"),
            row("h / l / + / -", "change value"),
            row("Enter / Esc", "save / cancel"),
        ],
    }
}

fn recurrence() -> (r: Section)
    ensures
        r@ == recurrence_section(),
{
    let items = vec![
        item("j / k / Tab", "next / prev field"),
        item("h / l / + / -", "change value"),
        item("Enter / Esc", "save / cancel"),
    ];
    assert(items@ =~= recurrence_section().items);
    Section { title: "RECURRENCE (rec:)", items }
}

/// What is on screen.
pub open spec fn view_section() -> SectionView {
    SectionView {
        title: "VIEW",
        items: seq![
            row("/", "fuzzy search"),
            row("fp / fc", "filter project/context"),
            row("ff / fs", "saved filter pick/save"),
            row("S", "cycle sort"),
            row("v", "visual / multi-select"),
            row("l", "list view"),
            row("a", "archive view"),
            row("A", "archive completed"),
            row("H", "show done in list"),
            row("F", "show future in list"),
            row("[ / ]", "toggle filter / detail"),
            row("T", "theme picker"),
            row("D", "cycle density"),
            row("L", "toggle line numbers"),
        ],
    }
}

fn view() -> (r: Section)
    ensures
        r@ == view_section(),
{
    let items = vec![
        item("/", "fuzzy search"),
        item("fp / fc", "filter project/context"),
        item("ff / fs", "saved filter pick/save"),
        item("S", "cycle sort"),
        item("v", "visual / multi-select"),
        item("l", "list view"),
        item("a", "archive view"),
        item("A", "archive completed"),
        item("H", "show done in list"),
        item("F", "show future in list"),
        item("[ / ]", "toggle filter / detail"),
        item("T", "theme picker"),
        item("D", "cycle density"),
        item("L", "toggle line numbers"),
    ];
    assert(items@ =~= view_section().items);
    Section { title: "VIEW", items }
}

/// The rest.
pub open spec fn system_section() -> SectionView {
    SectionView {
        title: "SYSTEM",
        items: seq![
            row(": / Ctrl-P", "command palette"),
            row("s", "share capture QR"),
            row("? / ,", "help / settings"),
            row("q / Ctrl-c", "quit"),
        ],
    }
}

fn system() -> (r: Section)
    ensures
        r@ == system_section(),
{
    let items = vec![
        item(": / Ctrl-P", "command palette"),
        item("s", "share capture QR"),
        item("? / ,", "help / settings"),
        item("q / Ctrl-c", "quit"),
    ];
    assert(items@ =~= system_section().items);
    Section { title: "SYSTEM", items }
}

/// The format of a task.
pub open spec fn format_left_section() -> SectionView {
    SectionView {
        title: "FORMAT",
        items: seq![
            row("(A)", "priority A-Z"),
            row("YYYY-MM-DD", "creation / done date"),
            row("+project", "project tag(s)"),
            row("@context", "context tag(s)"),
        ],
    }
}

fn format_left() -> (r: Section)
    ensures
        r@ == format_left_section(),
{
    let items = vec![
        item("(A)", "priority A-Z"),
        item("YYYY-MM-DD", "creation / done date"),
        item("+project", "project tag(s)"),
        item("@context", "context tag(s)"),
    ];
    assert(items@ =~= format_left_section().items);
    Section { title: "FORMAT", items }
}

/// The format of a task, further.
pub open spec fn format_right_section() -> SectionView {
    SectionView {
        title: "",
        items: seq![
            row("due:YYYY-MM-DD", "due date (+1w = range)"),
            row("rec:Nu", "recur (u in d/w/m/y/b)"),
            row("rec:+Nu", "strict: anchor on due:"),
            row("x DATE BODY", "completed task prefix"),
        ],
    }
}

fn format_right() -> (r: Section)
    ensures
        r@ == format_right_section(),
{
    let items = vec![
        item("due:YYYY-MM-DD", "due date (+1w = range)"),
        item("rec:Nu", "recur (u in d/w/m/y/b)"),
        item("rec:+Nu", "strict: anchor on due:"),
        item("x DATE BODY", "completed task prefix"),
    ];
    assert(items@ =~= format_right_section().items);
    Section { title: "", items }
}

/// The text filled up with blanks to `width` characters.
pub open spec fn padded(s: Seq<char>, width: nat) -> Seq<char> {
    if s.len() >= width {
        s
    } else {
        s + ui::blanks((width - s.len()) as nat)
    }
}

/// The text filled up with blanks to `width` characters.
pub fn pad_str(s: &str, width: usize) -> (r: String)
    ensures
        r@ == padded(s@, width as nat),
{
    let len: usize = s.unicode_len();
    let mut r = s.to_owned();
    if len < width {
        r.append(ui::spaces(width - len).as_str());
    }
    r
}

/// The width of the keys' column.
pub const KEYS_WIDTH: usize = 18;

/// The line above a section's rows.
pub open spec fn header_line(title: Seq<char>) -> Seq<SpanView> {
    if title.len() == 0 {
        seq![ui::styled(Tint::Plain, " "@)]
    } else {
        seq![ui::styled(Tint::Plain, "  "@), ui::styled(Tint::Title, title)]
    }
}

/// A row of a section.
pub open spec fn item_line(i: HelpItem) -> Seq<SpanView> {
    seq![
        ui::styled(Tint::Plain, "    "@),
        ui::styled(Tint::Key, padded(i.keys@, KEYS_WIDTH as nat)),
        ui::styled(Tint::Text, i.what@),
    ]
}

/// The line below a section's rows.
pub open spec fn blank_line() -> Seq<SpanView> {
    seq![ui::styled(Tint::Plain, " "@)]
}

/// A section: its header, its rows, a blank line.
pub open spec fn section_lines(s: SectionView) -> Seq<Seq<SpanView>> {
    seq![header_line(s.title@)] + s.items.map_values(|i: HelpItem| item_line(i)) + seq![
        blank_line(),
    ]
}

/// Sections below each other.
pub open spec fn sections_lines(sections: Seq<SectionView>) -> Seq<Seq<SpanView>>
    decreases sections.len(),
{
    if sections.len() == 0 {
        Seq::empty()
    } else {
        sections_lines(sections.drop_last()) + section_lines(sections.last())
    }
}

/// Whether a line holds nothing but blanks.
pub open spec fn is_blank(line: Seq<SpanView>) -> bool {
    forall|i: int, j: int|
        0 <= i < line.len() && 0 <= j < line[i].content.len() ==> #[trigger] line[i].content[j]
            == ' '
}

/// Sections below each other, without the blank line below the last.
pub open spec fn column(sections: Seq<SectionView>) -> Seq<Seq<SpanView>> {
    let all = sections_lines(sections);
    if all.len() > 0 && is_blank(all.last()) {
        all.drop_last()
    } else {
        all
    }
}

/// How wide a line is, in characters.
pub open spec fn width(line: Seq<SpanView>) -> nat {
    ui::line_text(line).len()
}

/// A line of the left column, filled up to `half`, and one of the right column
/// behind it.
pub open spec fn side_by_side(
    left: Option<Seq<SpanView>>,
    right: Option<Seq<SpanView>>,
    half: nat,
) -> Seq<SpanView> {
    let l = match left {
        Some(l) => l,
        None => Seq::empty(),
    };
    let filled = if width(l) < half {
        l.push(ui::styled(Tint::Plain, ui::blanks((half - width(l)) as nat)))
    } else {
        l
    };
    match right {
        Some(r) => filled + r,
        None => filled,
    }
}

/// The line at `i`, where there is one.
pub open spec fn line_at(lines: Seq<Seq<SpanView>>, i: int) -> Option<Seq<SpanView>> {
    if i < lines.len() {
        Some(lines[i])
    } else {
        None
    }
}

/// Two columns next to each other, each half as wide as `total`.
pub open spec fn columns(
    left: Seq<Seq<SpanView>>,
    right: Seq<Seq<SpanView>>,
    total: nat,
) -> Seq<Seq<SpanView>> {
    Seq::new(
        if left.len() > right.len() {
            left.len()
        } else {
            right.len()
        },
        |i: int| side_by_side(line_at(left, i), line_at(right, i), total / 2),
    )
}

fn push_line(lines: &mut Vec<Vec<Span>>, line: Vec<Span>)
    ensures
        ui::line_views(final(lines)@) == ui::line_views(old(lines)@).push(ui::line_view(line@)),
{
    lines.push(line);
    assert(ui::line_views(lines@) =~= ui::line_views(old(lines)@).push(ui::line_view(line@)));
}

fn push_section(lines: &mut Vec<Vec<Span>>, section: &Section)
    ensures
        ui::line_views(final(lines)@) == ui::line_views(old(lines)@) + section_lines(section@),
{
    let ghost start = ui::line_views(lines@);
    let ghost body = section@.items.map_values(|i: HelpItem| item_line(i));
    if section.title.is_empty() {
        push_line(lines, ui::line1(ui::span(Tint::Plain, " ".to_owned())));
    } else {
        push_line(
            lines,
            ui::line2(
                ui::span(Tint::Plain, "  ".to_owned()),
                ui::span(Tint::Title, section.title.to_owned()),
            ),
        );
    }
    let ghost head = seq![header_line(section.title@)];
    let mut i: usize = 0;
    assert(ui::line_views(lines@) =~= start + head + body.take(0));
    while i < section.items.len()
        invariant
            i <= section.items@.len(),
            body == section@.items.map_values(|i: HelpItem| item_line(i)),
            ui::line_views(lines@) == start + head + body.take(i as int),
        decreases section.items.len() - i,
    {
        let it = section.items[i];
        push_line(
            lines,
            ui::line3(
                ui::span(Tint::Plain, "    ".to_owned()),
                ui::span(Tint::Key, pad_str(it.keys, KEYS_WIDTH)),
                ui::span(Tint::Text, it.what.to_owned()),
            ),
        );
        assert(body.take(i + 1) =~= body.take(i as int).push(item_line(it)));
        assert(ui::line_views(lines@) =~= start + head + body.take(i + 1));
        i += 1;
    }
    assert(body.take(i as int) =~= body);
    push_line(lines, ui::line1(ui::span(Tint::Plain, " ".to_owned())));
    assert(ui::line_views(lines@) =~= start + section_lines(section@));
}

/// Sections below each other.
pub fn render_sections(sections: &Vec<Section>) -> (r: Vec<Vec<Span>>)
    ensures
        ui::line_views(r@) == sections_lines(section_views(sections@)),
{
    let ghost all = section_views(sections@);
    let mut lines: Vec<Vec<Span>> = Vec::new();
    let mut i: usize = 0;
    assert(ui::line_views(lines@) =~= sections_lines(all.take(0)));
    while i < sections.len()
        invariant
            i <= sections@.len(),
            all == section_views(sections@),
            ui::line_views(lines@) == sections_lines(all.take(i as int)),
        decreases sections.len() - i,
    {
        assert(all.take(i + 1).drop_last() =~= all.take(i as int));
        assert(all.take(i + 1).last() == sections@[i as int]@);
        push_section(&mut lines, &sections[i]);
        i += 1;
    }
    assert(all.take(i as int) =~= all);
    lines
}

fn line_is_blank(line: &Vec<Span>) -> (r: bool)
    ensures
        r == is_blank(ui::line_view(line@)),
{
    let mut i: usize = 0;
    while i < line.len()
        invariant
            i <= line@.len(),
            forall|k: int, j: int|
                0 <= k < i && 0 <= j < ui::line_view(line@)[k].content.len()
                    ==> #[trigger] ui::line_view(line@)[k].content[j] == ' ',
        decreases line.len() - i,
    {
        let chars = crate::text::chars_of(line[i].content.as_str());
        let mut j: usize = 0;
        while j < chars.len()
            invariant
                i < line@.len(),
                j <= chars@.len(),
                chars@ == line@[i as int].content@,
                forall|m: int| 0 <= m < j ==> chars@[m] == ' ',
            decreases chars.len() - j,
        {
            if chars[j] != ' ' {
                assert(ui::line_view(line@)[i as int].content[j as int] != ' ');
                return false;
            }
            j += 1;
        }
        i += 1;
    }
    true
}

/// Sections below each other, without the blank line below the last.
pub fn render_sections_trimmed(sections: &Vec<Section>) -> (r: Vec<Vec<Span>>)
    ensures
        ui::line_views(r@) == column(section_views(sections@)),
{
    let mut lines = render_sections(sections);
    let ghost all = ui::line_views(lines@);
    let n: usize = lines.len();
    assert(all.len() == n);
    if n > 0 && line_is_blank(&lines[n - 1]) {
        let _ = lines.pop();
        assert(ui::line_views(lines@) =~= all.drop_last());
    }
    lines
}

/// How many blanks fill a line up to `half`.
fn room_left(line: &Vec<Span>, half: usize) -> (r: usize)
    ensures
        r == (if width(ui::line_view(line@)) < half {
            half - width(ui::line_view(line@))
        } else {
            0
        }),
{
    let ghost all = ui::line_view(line@);
    let mut left: usize = half;
    let mut i: usize = 0;
    assert(all.take(0) =~= Seq::empty());
    while i < line.len()
        invariant
            i <= line@.len(),
            all == ui::line_view(line@),
            left <= half,
            left == half - width(all.take(i as int)),
        decreases line.len() - i,
    {
        proof {
            assert(all.take(i + 1).drop_last() =~= all.take(i as int));
            assert(all.take(i + 1).last() == line@[i as int]@);
            lemma_width_grows(all, i + 1);
        }
        let n: usize = line[i].content.as_str().unicode_len();
        if n >= left {
            return 0;
        }
        left -= n;
        i += 1;
    }
    assert(all.take(i as int) =~= all);
    left
}

/// A part of a line is no wider than the line.
proof fn lemma_width_grows(line: Seq<SpanView>, k: int)
    requires
        0 <= k <= line.len(),
    ensures
        width(line.take(k)) <= width(line),
    decreases line.len() - k,
{
    if k < line.len() {
        assert(line.take(k + 1).drop_last() =~= line.take(k));
        lemma_width_grows(line, k + 1);
    } else {
        assert(line.take(k) =~= line);
    }
}

fn copy_spans(to: &mut Vec<Span>, from: &Vec<Span>)
    ensures
        ui::line_view(final(to)@) == ui::line_view(old(to)@) + ui::line_view(from@),
{
    let ghost start = ui::line_view(to@);
    let ghost all = ui::line_view(from@);
    let mut i: usize = 0;
    assert(ui::line_view(to@) =~= start + all.take(0));
    while i < from.len()
        invariant
            i <= from@.len(),
            all == ui::line_view(from@),
            ui::line_view(to@) == start + all.take(i as int),
        decreases from.len() - i,
    {
        let ghost before = ui::line_view(to@);
        to.push(ui::span(from[i].tint, from[i].content.clone()));
        assert(ui::line_view(to@) =~= before.push(all[i as int]));
        assert(ui::line_view(to@) =~= start + all.take(i + 1));
        i += 1;
    }
    assert(all.take(i as int) =~= all);
}

/// Two columns of sections next to each other, each half as wide as `total`.
pub fn two_columns(total: u16, left: &Vec<Section>, right: &Vec<Section>) -> (r: Vec<Vec<Span>>)
    ensures
        ui::line_views(r@) == columns(
            column(section_views(left@)),
            column(section_views(right@)),
            total as nat,
        ),
{
    let l = render_sections_trimmed(left);
    let r = render_sections_trimmed(right);
    let ghost ls = ui::line_views(l@);
    let ghost rs = ui::line_views(r@);
    let half: usize = (total / 2) as usize;
    let rows: usize = if l.len() > r.len() {
        l.len()
    } else {
        r.len()
    };
    let mut out: Vec<Vec<Span>> = Vec::new();
    let mut i: usize = 0;
    while i < rows
        invariant
            i <= rows,
            rows >= l@.len() && rows >= r@.len(),
            half == total / 2,
            ls == ui::line_views(l@),
            rs == ui::line_views(r@),
            out@.len() == i,
            forall|k: int|
                0 <= k < i ==> #[trigger] ui::line_view(out@[k]@) == side_by_side(
                    line_at(ls, k),
                    line_at(rs, k),
                    (total / 2) as nat,
                ),
        decreases rows - i,
    {
        let mut spans: Vec<Span> = Vec::new();
        assert(ui::line_view(spans@) =~= Seq::empty());
        if i < l.len() {
            copy_spans(&mut spans, &l[i]);
            assert(ls[i as int] == ui::line_view(l@[i as int]@));
            assert(ui::line_view(spans@) =~= ls[i as int]);
        }
        let ghost shown = ui::line_view(spans@);
        let room: usize = room_left(&spans, half);
        if room > 0 {
            spans.push(ui::span(Tint::Plain, ui::spaces(room)));
            assert(ui::line_view(spans@) =~= shown.push(
                ui::styled(Tint::Plain, ui::blanks(room as nat)),
            ));
        }
        if i < r.len() {
            assert(rs[i as int] == ui::line_view(r@[i as int]@));
            copy_spans(&mut spans, &r[i]);
        }
        out.push(spans);
        i += 1;
    }
    assert(ui::line_views(out@) =~= columns(ls, rs, total as nat));
    out
}

/// The keys, in two columns.
pub open spec fn keys_help(total: nat) -> Seq<Seq<SpanView>> {
    columns(
        column(seq![navigation_section(), editing_section(), recurrence_section()]),
        column(seq![view_section(), system_section()]),
        total,
    )
}

/// The format of a task, in two columns.
pub open spec fn format_help(total: nat) -> Seq<Seq<SpanView>> {
    columns(column(seq![format_left_section()]), column(seq![format_right_section()]), total)
}

/// The keys, in two columns.
pub fn render_keys(total: u16) -> (r: Vec<Vec<Span>>)
    ensures
        ui::line_views(r@) == keys_help(total as nat),
{
    let left = vec![navigation(), editing(), recurrence()];
    let right = vec![view(), system()];
    assert(section_views(left@) =~= seq![
        navigation_section(),
        editing_section(),
        recurrence_section(),
    ]);
    assert(section_views(right@) =~= seq![view_section(), system_section()]);
    two_columns(total, &left, &right)
}

/// The format of a task, in two columns.
pub fn render_format(total: u16) -> (r: Vec<Vec<Span>>)
    ensures
        ui::line_views(r@) == format_help(total as nat),
{
    let left = vec![format_left()];
    let right = vec![format_right()];
    assert(section_views(left@) =~= seq![format_left_section()]);
    assert(section_views(right@) =~= seq![format_right_section()]);
    two_columns(total, &left, &right)
}

/// The right column begins in the middle, in every row whose left part fits its
/// half; and there are as many rows as the longer column has.
pub proof fn law_right_column_is_aligned(
    left: Seq<Seq<SpanView>>,
    right: Seq<Seq<SpanView>>,
    total: nat,
    i: int,
)
    requires
        0 <= i < right.len(),
        i < left.len() ==> width(left[i]) <= total / 2,
    ensures
        columns(left, right, total).len() >= right.len(),
        columns(left, right, total).len() >= left.len(),
        exists|k: int|
            {
                &&& 0 <= k <= columns(left, right, total)[i].len()
                &&& width(#[trigger] columns(left, right, total)[i].take(k)) == total / 2
                &&& columns(left, right, total)[i].skip(k) == right[i]
            },
{
    let half = total / 2;
    let l: Seq<SpanView> = if i < left.len() {
        left[i]
    } else {
        Seq::empty()
    };
    let line = columns(left, right, total)[i];
    let filled = if width(l) < half {
        l.push(ui::styled(Tint::Plain, ui::blanks((half - width(l)) as nat)))
    } else {
        l
    };
    assert(line == filled + right[i]);
    let k = filled.len() as int;
    assert(line.take(k) =~= filled);
    assert(line.skip(k) =~= right[i]);
    if width(l) < half {
        assert(filled.drop_last() =~= l);
    }
    assert(width(line.take(k)) == half);
}

/// A filled-up text begins with the text and is as wide as asked for, unless the
/// text was wider.
pub proof fn law_padding_fills_up(s: Seq<char>, width: nat)
    ensures
        padded(s, width).take(s.len() as int) == s,
        padded(s, width).len() == if s.len() > width {
            s.len()
        } else {
            width
        },
{
    assert(padded(s, width).take(s.len() as int) =~= s);
}

} // verus!
