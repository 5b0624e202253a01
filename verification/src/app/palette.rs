//! The command palette: a catalogue of commands, each with a label and its
//! current key, filtered by fuzzy match against the label.
use crate::action::Action;
use crate::app::types::Mode;
use crate::search;
use crate::text;
use vstd::prelude::*;

verus! {

/// What choosing an entry invokes: a command of the main list, or an operation
/// of the notes popup, which has no key outside it.
#[derive(Debug, Clone, Copy, PartialEq, Eq, Structural)]
pub enum PaletteDispatch {
    Global(Action),
    NotesAction(NotesEntryAction),
}

/// The operations of the notes popup that the palette reaches while it was
/// opened from there.
#[derive(Debug, Clone, Copy, PartialEq, Eq, Structural)]
pub enum NotesEntryAction {
    Create,
    Rename,
    /// Asks first; deletes nothing by itself.
    Delete,
    Unlink,
    OpenEditorNormal,
    OpenEditorInsert,
}

/// One row of the catalogue.
#[derive(Debug, Clone, Copy)]
pub struct PaletteEntry {
    pub label: &'static str,
    pub keys: &'static str,
    pub dispatch: PaletteDispatch,
}

/// A row for a command of the main list.
pub open spec fn global_entry(
    label: &'static str,
    keys: &'static str,
    action: Action,
) -> PaletteEntry {
    PaletteEntry { label, keys, dispatch: PaletteDispatch::Global(action) }
}

/// A row for an operation of the notes popup.
pub open spec fn notes_entry(
    label: &'static str,
    keys: &'static str,
    action: NotesEntryAction,
) -> PaletteEntry {
    PaletteEntry { label, keys, dispatch: PaletteDispatch::NotesAction(action) }
}

/// The catalogue, in the order in which it is shown unfiltered.
#[verifier::opaque]
pub open spec fn catalogue() -> Seq<PaletteEntry> {
    seq![
        global_entry("new task", "n", Action::BeginAdd),
        global_entry("edit current task (normal mode)", "e", Action::BeginEdit),
        global_entry("edit current task (insert mode)", "i", Action::BeginEditInsert),
        global_entry("toggle complete", "x", Action::ToggleComplete),
        global_entry("delete task", "dd", Action::Delete),
        global_entry("cycle priority", "p", Action::CyclePriority),
        global_entry("move task down", "J", Action::MoveTaskDown),
        global_entry("move task up", "K", Action::MoveTaskUp),
        global_entry("add project to current task", "+", Action::BeginPromptProject),
        global_entry("add or remove context on current task", "c", Action::BeginPromptContext),
        global_entry("copy line to clipboard", "yy", Action::CopyLine),
        global_entry("copy body to clipboard", "yb", Action::CopyBody),
        global_entry("open task notes", "o", Action::OpenNotes),
        global_entry("undo", "u", Action::Undo),
        global_entry("cursor down", "j / ↓", Action::CursorDown),
        global_entry("cursor up", "k / ↑", Action::CursorUp),
        global_entry("jump to first task", "gg", Action::CursorTop),
        global_entry("jump to last task", "G", Action::CursorBottom),
        global_entry("page down", "Ctrl-d", Action::HalfPageDown),
        global_entry("page up", "Ctrl-u", Action::HalfPageUp),
        global_entry("fuzzy search", "/", Action::BeginSearch),
        global_entry("filter by project", "fp", Action::PickProject),
        global_entry("filter by context", "fc", Action::PickContext),
        global_entry("pick saved filter", "ff", Action::PickSavedFilter),
        global_entry("save search as filter", "fs", Action::SaveCurrentFilter),
        global_entry("cycle sort", "S", Action::CycleSort),
        global_entry("toggle visual / multi-select", "v", Action::ToggleVisual),
        global_entry("toggle selected row", "Space", Action::ToggleSelected),
        global_entry("list view", "l", Action::GoList),
        global_entry("toggle archive view", "a", Action::ToggleArchiveView),
        global_entry("archive completed tasks", "A", Action::ArchiveCompleted),
        global_entry("show done in list", "H", Action::ToggleShowDone),
        global_entry("show future in list", "F", Action::ToggleShowFuture),
        global_entry("toggle filter pane", "[", Action::ToggleLeftPane),
        global_entry("toggle detail pane", "]", Action::ToggleRightPane),
        global_entry("pick theme", "T", Action::OpenThemePicker),
        global_entry("cycle theme", "", Action::CycleTheme),
        global_entry("cycle density", "D", Action::CycleDensity),
        global_entry("toggle line numbers", "L", Action::ToggleLineNum),
        global_entry("open help", "?", Action::OpenHelp),
        global_entry("open settings", ",", Action::OpenSettings),
        global_entry("open command palette", ": / Ctrl-P", Action::OpenCommandPalette),
        global_entry("show capture QR", "s", Action::OpenShare),
        global_entry("escape / clear", "Esc", Action::EscapeStack),
        global_entry("quit", "q", Action::Quit),
        global_entry("reschedule", "r", Action::Reschedule),
        global_entry("Change week start", "W", Action::ChangeWeekStart),
        global_entry("pin note / switch focus", "z", Action::TogglePinFocus),
        global_entry("close pinned note", "Z", Action::ClosePinnedNote),
        notes_entry("create note", "n", NotesEntryAction::Create),
        notes_entry("rename note", "r", NotesEntryAction::Rename),
        notes_entry("delete note", "d", NotesEntryAction::Delete),
        notes_entry("unlink note", "u", NotesEntryAction::Unlink),
        notes_entry("open note in editor (normal mode)", "e", NotesEntryAction::OpenEditorNormal),
        notes_entry("open note in editor (insert mode)", "i", NotesEntryAction::OpenEditorInsert),
    ]
}

fn global(label: &'static str, keys: &'static str, action: Action) -> (r: PaletteEntry)
    ensures
        r == global_entry(label, keys, action),
{
    PaletteEntry { label, keys, dispatch: PaletteDispatch::Global(action) }
}

fn notes(label: &'static str, keys: &'static str, action: NotesEntryAction) -> (r: PaletteEntry)
    ensures
        r == notes_entry(label, keys, action),
{
    PaletteEntry { label, keys, dispatch: PaletteDispatch::NotesAction(action) }
}

/// Every command that is meaningful to invoke from the palette. `ArmF` has no
/// row of its own: the chords it begins have theirs. The rows of the notes
/// popup come last.
pub fn entries() -> (r: Vec<PaletteEntry>)
    ensures
        r@ == catalogue(),
{
    reveal(catalogue);
    let r = vec![
        global("new task", "n", Action::BeginAdd),
        global("edit current task (normal mode)", "e", Action::BeginEdit),
        global("edit current task (insert mode)", "i", Action::BeginEditInsert),
        global("toggle complete", "x", Action::ToggleComplete),
        global("delete task", "dd", Action::Delete),
        global("cycle priority", "p", Action::CyclePriority),
        global("move task down", "J", Action::MoveTaskDown),
        global("move task up", "K", Action::MoveTaskUp),
        global("add project to current task", "+", Action::BeginPromptProject),
        global("add or remove context on current task", "c", Action::BeginPromptContext),
        global("copy line to clipboard", "yy", Action::CopyLine),
        global("copy body to clipboard", "yb", Action::CopyBody),
        global("open task notes", "o", Action::OpenNotes),
        global("undo", "u", Action::Undo),
        global("cursor down", "j / ↓", Action::CursorDown),
        global("cursor up", "k / ↑", Action::CursorUp),
        global("jump to first task", "gg", Action::CursorTop),
        global("jump to last task", "G", Action::CursorBottom),
        global("page down", "Ctrl-d", Action::HalfPageDown),
        global("page up", "Ctrl-u", Action::HalfPageUp),
        global("fuzzy search", "/", Action::BeginSearch),
        global("filter by project", "fp", Action::PickProject),
        global("filter by context", "fc", Action::PickContext),
        global("pick saved filter", "ff", Action::PickSavedFilter),
        global("save search as filter", "fs", Action::SaveCurrentFilter),
        global("cycle sort", "S", Action::CycleSort),
        global("toggle visual / multi-select", "v", Action::ToggleVisual),
        global("toggle selected row", "Space", Action::ToggleSelected),
        global("list view", "l", Action::GoList),
        global("toggle archive view", "a", Action::ToggleArchiveView),
        global("archive completed tasks", "A", Action::ArchiveCompleted),
        global("show done in list", "H", Action::ToggleShowDone),
        global("show future in list", "F", Action::ToggleShowFuture),
        global("toggle filter pane", "[", Action::ToggleLeftPane),
        global("toggle detail pane", "]", Action::ToggleRightPane),
        global("pick theme", "T", Action::OpenThemePicker),
        global("cycle theme", "", Action::CycleTheme),
        global("cycle density", "D", Action::CycleDensity),
        global("toggle line numbers", "L", Action::ToggleLineNum),
        global("open help", "?", Action::OpenHelp),
        global("open settings", ",", Action::OpenSettings),
        global("open command palette", ": / Ctrl-P", Action::OpenCommandPalette),
        global("show capture QR", "s", Action::OpenShare),
        global("escape / clear", "Esc", Action::EscapeStack),
        global("quit", "q", Action::Quit),
        global("reschedule", "r", Action::Reschedule),
        global("Change week start", "W", Action::ChangeWeekStart),
        global("pin note / switch focus", "z", Action::TogglePinFocus),
        global("close pinned note", "Z", Action::ClosePinnedNote),
        notes("create note", "n", NotesEntryAction::Create),
        notes("rename note", "r", NotesEntryAction::Rename),
        notes("delete note", "d", NotesEntryAction::Delete),
        notes("unlink note", "u", NotesEntryAction::Unlink),
        notes("open note in editor (normal mode)", "e", NotesEntryAction::OpenEditorNormal),
        notes("open note in editor (insert mode)", "i", NotesEntryAction::OpenEditorInsert),
    ];
    assert(r@ =~= catalogue());
    r
}

/// Where the row of a command of the main list stands, for the commands that
/// have one.
spec fn row_of(a: Action) -> int {
    match a {
        Action::BeginAdd => 0,
        Action::BeginEdit => 1,
        Action::BeginEditInsert => 2,
        Action::ToggleComplete => 3,
        Action::Delete => 4,
        Action::CyclePriority => 5,
        Action::MoveTaskDown => 6,
        Action::MoveTaskUp => 7,
        Action::BeginPromptProject => 8,
        Action::BeginPromptContext => 9,
        Action::CopyLine => 10,
        Action::CopyBody => 11,
        Action::OpenNotes => 12,
        Action::Undo => 13,
        Action::CursorDown => 14,
        Action::CursorUp => 15,
        Action::CursorTop => 16,
        Action::CursorBottom => 17,
        Action::HalfPageDown => 18,
        Action::HalfPageUp => 19,
        Action::BeginSearch => 20,
        Action::PickProject => 21,
        Action::PickContext => 22,
        Action::PickSavedFilter => 23,
        Action::SaveCurrentFilter => 24,
        Action::CycleSort => 25,
        Action::ToggleVisual => 26,
        Action::ToggleSelected => 27,
        Action::GoList => 28,
        Action::ToggleArchiveView => 29,
        Action::ArchiveCompleted => 30,
        Action::ToggleShowDone => 31,
        Action::ToggleShowFuture => 32,
        Action::ToggleLeftPane => 33,
        Action::ToggleRightPane => 34,
        Action::OpenThemePicker => 35,
        Action::CycleTheme => 36,
        Action::CycleDensity => 37,
        Action::ToggleLineNum => 38,
        Action::OpenHelp => 39,
        Action::OpenSettings => 40,
        Action::OpenCommandPalette => 41,
        Action::OpenShare => 42,
        Action::EscapeStack => 43,
        Action::Quit => 44,
        Action::Reschedule => 45,
        Action::ChangeWeekStart => 46,
        Action::TogglePinFocus => 47,
        Action::ClosePinnedNote => 48,
        Action::ArmF => -1,
    }
}

/// Where the row of an operation of the notes popup stands.
spec fn notes_row_of(a: NotesEntryAction) -> int {
    match a {
        NotesEntryAction::Create => 49,
        NotesEntryAction::Rename => 50,
        NotesEntryAction::Delete => 51,
        NotesEntryAction::Unlink => 52,
        NotesEntryAction::OpenEditorNormal => 53,
        NotesEntryAction::OpenEditorInsert => 54,
    }
}

/// Every command of the main list has a row, but for the chord leader.
pub proof fn law_commands_have_rows(a: Action)
    requires
        a != Action::ArmF,
    ensures
        exists|i: int|
            0 <= i < catalogue().len() && (#[trigger] catalogue()[i]).dispatch
                == PaletteDispatch::Global(a),
{
    reveal(catalogue);
    assert(catalogue()[row_of(a)].dispatch == PaletteDispatch::Global(a));
}

/// Every operation of the notes popup has a row.
pub proof fn law_notes_operations_have_rows(a: NotesEntryAction)
    ensures
        exists|i: int|
            0 <= i < catalogue().len() && (#[trigger] catalogue()[i]).dispatch
                == PaletteDispatch::NotesAction(a),
{
    reveal(catalogue);
    assert(catalogue()[notes_row_of(a)].dispatch == PaletteDispatch::NotesAction(a));
}

/// One hit of the filter: a row of the catalogue and the byte positions in its
/// label at which the needle's characters were found.
#[derive(Debug, Clone)]
pub struct PaletteHit {
    pub entry_idx: usize,
    pub match_positions: Vec<usize>,
}

/// What a hit says.
pub struct HitView {
    pub entry: int,
    pub positions: Seq<int>,
}

impl View for PaletteHit {
    type V = HitView;

    open spec fn view(&self) -> HitView {
        HitView { entry: self.entry_idx as int, positions: search::ints(self.match_positions@) }
    }
}

/// What a list of hits says.
pub open spec fn hit_views(hits: Seq<PaletteHit>) -> Seq<HitView> {
    hits.map_values(|h: PaletteHit| h@)
}

/// How good a hit is: where it begins, then how tight it is. Smaller is better.
#[derive(Debug, Clone, Copy, PartialEq, Eq, Structural)]
pub struct Rank {
    pub tier: u8,
    pub span: usize,
}

/// A hit with its rank.
pub struct RankedView {
    pub tier: int,
    pub span: int,
    pub hit: HitView,
}

/// Whether a row is listed at all: those of the notes popup only while the
/// palette was opened from it.
pub open spec fn visible(e: PaletteEntry, prior: Mode) -> bool {
    e.dispatch is NotesAction ==> prior == Mode::Notes
}

/// Whether the character at `at` begins a word: it is the first, or the one
/// before it is neither letter nor number.
pub open spec fn word_boundary(s: Seq<char>, at: int) -> bool {
    at == 0 || !text::char_alphanumeric(s[at - 1])
}

/// The tier of a match that begins at character `at`: the start of the label,
/// the start of a word, or the middle of one.
pub open spec fn start_tier(label: Seq<char>, at: int) -> int {
    if at == 0 {
        0
    } else if word_boundary(label, at) {
        1
    } else {
        2
    }
}

/// A match found at the characters `at`, ranked.
pub open spec fn ranked_hit(entry: int, label: Seq<char>, at: Seq<int>) -> RankedView {
    RankedView {
        tier: start_tier(label, at[0]),
        span: text::byte_len(label, at.last()) - text::byte_len(label, at[0]),
        hit: HitView { entry, positions: search::byte_positions(label, at) },
    }
}

/// Whether `a` is a strictly better rank than `b`.
pub open spec fn better(a: RankedView, b: RankedView) -> bool {
    a.tier < b.tier || (a.tier == b.tier && a.span < b.span)
}

/// Puts a hit behind all those that are at least as good.
pub open spec fn inserted(s: Seq<RankedView>, x: RankedView) -> Seq<RankedView>
    decreases s.len(),
{
    if s.len() > 0 && better(x, s.last()) {
        inserted(s.drop_last(), x).push(s.last())
    } else {
        s.push(x)
    }
}

/// The visible rows, in order.
pub open spec fn unfiltered(rows: Seq<PaletteEntry>, prior: Mode) -> Seq<HitView>
    decreases rows.len(),
{
    if rows.len() == 0 {
        Seq::empty()
    } else {
        let before = unfiltered(rows.drop_last(), prior);
        if visible(rows.last(), prior) {
            before.push(HitView { entry: rows.len() - 1, positions: Seq::empty() })
        } else {
            before
        }
    }
}

/// The visible rows whose label holds the needle, best first, and in the order
/// of the rows where they are equally good.
pub open spec fn ranked(rows: Seq<PaletteEntry>, needle: Seq<char>, prior: Mode) -> Seq<
    RankedView,
>
    decreases rows.len(),
{
    if rows.len() == 0 {
        Seq::empty()
    } else {
        let before = ranked(rows.drop_last(), needle, prior);
        let label = rows.last().label@;
        match search::found_at(label, needle) {
            Some(at) if visible(rows.last(), prior) => inserted(
                before,
                ranked_hit(rows.len() - 1, label, at),
            ),
            _ => before,
        }
    }
}

/// What the palette lists for a needle.
pub open spec fn palette_hits(needle: Seq<char>, prior: Mode) -> Seq<HitView> {
    if needle.len() == 0 {
        unfiltered(catalogue(), prior)
    } else {
        ranked(catalogue(), needle, prior).map_values(|r: RankedView| r.hit)
    }
}

fn entry_visible(entry: &PaletteEntry, prior: Mode) -> (r: bool)
    ensures
        r == visible(*entry, prior),
{
    match entry.dispatch {
        PaletteDispatch::Global(_) => true,
        PaletteDispatch::NotesAction(_) => prior == Mode::Notes,
    }
}

/// Whether the character at `at` begins a word.
fn is_word_boundary(label: &str, at: usize) -> (r: bool)
    requires
        at <= label@.len(),
    ensures
        r == word_boundary(label@, at as int),
{
    if at == 0 {
        return true;
    }
    !text::is_alphanumeric(label.get_char(at - 1))
}

/// The rank of a match found at the characters `at`.
fn rank_hit(label: &str, at: &Vec<usize>) -> (r: Rank)
    requires
        at@.len() > 0,
        forall|i: int| 0 <= i < at@.len() ==> #[trigger] at@[i] < label@.len(),
        at@[0] <= at@.last(),
    ensures
        r.tier == start_tier(label@, at@[0] as int),
        r.span == text::byte_len(label@, at@.last() as int) - text::byte_len(
            label@,
            at@[0] as int,
        ),
{
    let first: usize = at[0];
    let last: usize = at[at.len() - 1];
    proof {
        text::lemma_byte_len_grows(label@, first as int, last as int);
    }
    let span: usize = text::byte_offset(label, last) - text::byte_offset(label, first);
    let tier: u8 = if first == 0 {
        0
    } else if is_word_boundary(label, first) {
        1
    } else {
        2
    };
    Rank { tier, span }
}

/// Putting a hit behind those at least as good is inserting it where it
/// belongs.
proof fn lemma_inserted_at(s: Seq<RankedView>, x: RankedView, k: int)
    requires
        0 <= k <= s.len(),
        forall|i: int| k <= i < s.len() ==> better(x, #[trigger] s[i]),
        k > 0 ==> !better(x, s[k - 1]),
    ensures
        inserted(s, x) == s.insert(k, x),
    decreases s.len(),
{
    if k < s.len() {
        assert(better(x, s[s.len() - 1]));
        lemma_inserted_at(s.drop_last(), x, k);
        assert(s.drop_last().insert(k, x).push(s.last()) =~= s.insert(k, x));
    } else {
        assert(s.push(x) =~= s.insert(k, x));
    }
}

/// The rows that a needle selects, for rows listed from `prior`. The empty
/// needle selects every visible row, in order; another one the visible rows
/// whose label holds it, best first.
pub fn filtered(needle: &str, prior: Mode) -> (r: Vec<PaletteHit>)
    ensures
        hit_views(r@) == palette_hits(needle@, prior),
{
    let rows = entries();
    let blank: bool = needle.unicode_len() == 0;
    let mut ranks: Vec<Rank> = Vec::new();
    let mut hits: Vec<PaletteHit> = Vec::new();
    let mut i: usize = 0;
    assert(rows@.take(0) =~= Seq::empty());
    let ghost mut model: Seq<RankedView> = Seq::empty();
    while i < rows.len()
        invariant
            i <= rows@.len(),
            blank == (needle@.len() == 0),
            blank ==> hit_views(hits@) == unfiltered(rows@.take(i as int), prior),
            !blank ==> model == ranked(rows@.take(i as int), needle@, prior),
            !blank ==> ranks@.len() == model.len() && hits@.len() == model.len(),
            !blank ==> forall|j: int|
                0 <= j < model.len() ==> (#[trigger] model[j]).tier == ranks@[j].tier
                    && model[j].span == ranks@[j].span && model[j].hit == hits@[j]@,
        decreases rows.len() - i,
    {
        assert(rows@.take(i + 1).drop_last() =~= rows@.take(i as int));
        assert(rows@.take(i + 1).last() == rows@[i as int]);
        if entry_visible(&rows[i], prior) {
            if blank {
                let ghost before = hit_views(hits@);
                let hit = PaletteHit { entry_idx: i, match_positions: Vec::new() };
                assert(hit@.positions =~= Seq::empty());
                hits.push(hit);
                assert(hit_views(hits@) =~= before.push(
                    HitView { entry: i as int, positions: Seq::empty() },
                ));
            } else {
                let label = rows[i].label;
                if let Some(at) = search::subseq_chars(label, needle) {
                    proof {
                        search::lemma_leftmost_spells(label@, needle@);
                        assert forall|j: int| 0 <= j < at@.len() implies #[trigger] at@[j]
                            < label@.len() by {
                            assert(search::ints(at@)[j] == at@[j]);
                        }
                        assert(search::ints(at@)[0] == at@[0]);
                        assert(search::ints(at@).last() == at@.last());
                    }
                    let rank = rank_hit(label, &at);
                    let hit = PaletteHit {
                        entry_idx: i,
                        match_positions: search::to_bytes(label, &at),
                    };
                    let ghost x = ranked_hit(i as int, label@, search::ints(at@));
                    let mut k: usize = ranks.len();
                    while k > 0 && (rank.tier < ranks[k - 1].tier || (rank.tier == ranks[k
                        - 1].tier && rank.span < ranks[k - 1].span))
                        invariant
                            k <= ranks@.len(),
                            ranks@.len() == model.len(),
                            x.tier == rank.tier,
                            x.span == rank.span,
                            forall|j: int|
                                0 <= j < model.len() ==> (#[trigger] model[j]).tier
                                    == ranks@[j].tier && model[j].span == ranks@[j].span,
                            forall|j: int| k <= j < model.len() ==> better(x, #[trigger] model[j]),
                        decreases k,
                    {
                        k -= 1;
                    }
                    proof {
                        lemma_inserted_at(model, x, k as int);
                        model = model.insert(k as int, x);
                    }
                    ranks.insert(k, rank);
                    hits.insert(k, hit);
                }
            }
        }
        i += 1;
    }
    assert(rows@.take(i as int) =~= rows@);
    assert(!blank ==> hit_views(hits@) =~= model.map_values(|r: RankedView| r.hit));
    hits
}

/// What a row contributes to the list for a needle that is not empty.
pub open spec fn row_hit(
    rows: Seq<PaletteEntry>,
    i: int,
    needle: Seq<char>,
    prior: Mode,
) -> Option<RankedView> {
    match search::found_at(rows[i].label@, needle) {
        Some(at) if visible(rows[i], prior) => Some(ranked_hit(i, rows[i].label@, at)),
        _ => None,
    }
}

/// Better rank first; of two equally good, the earlier row first.
pub open spec fn listed_before(a: RankedView, b: RankedView) -> bool {
    better(a, b) || (!better(b, a) && a.hit.entry < b.hit.entry)
}

proof fn lemma_inserted_members(s: Seq<RankedView>, x: RankedView)
    ensures
        inserted(s, x).len() == s.len() + 1,
        forall|r: RankedView| #[trigger]
            inserted(s, x).contains(r) <==> s.contains(r) || r == x,
    decreases s.len(),
{
    let out = inserted(s, x);
    if s.len() > 0 && better(x, s.last()) {
        let d = s.drop_last();
        lemma_inserted_members(d, x);
        let inner = inserted(d, x);
        assert forall|r: RankedView| #[trigger] out.contains(r) <==> s.contains(r) || r == x by {
            if out.contains(r) {
                let k = out.index_of(r);
                if k < inner.len() {
                    assert(inner[k] == r);
                    assert(inner.contains(r));
                    if d.contains(r) {
                        let m = d.index_of(r);
                        assert(s[m] == r);
                    }
                } else {
                    assert(s[s.len() - 1] == r);
                }
            }
            if s.contains(r) {
                let k = s.index_of(r);
                if k < d.len() {
                    assert(d[k] == r);
                    assert(inner.contains(r));
                    let m = inner.index_of(r);
                    assert(out[m] == r);
                } else {
                    assert(out[inner.len() as int] == r);
                }
            }
            if r == x {
                assert(inner.contains(x));
                let m = inner.index_of(x);
                assert(out[m] == x);
            }
        }
    } else {
        assert forall|r: RankedView| #[trigger] out.contains(r) <==> s.contains(r) || r == x by {
            if s.contains(r) {
                let k = s.index_of(r);
                assert(out[k] == r);
            }
            assert(out[s.len() as int] == x);
        }
    }
}

proof fn lemma_inserted_sorted(s: Seq<RankedView>, x: RankedView)
    requires
        forall|i: int, j: int|
            0 <= i < j < s.len() ==> listed_before(#[trigger] s[i], #[trigger] s[j]),
        forall|i: int| 0 <= i < s.len() ==> (#[trigger] s[i]).hit.entry < x.hit.entry,
    ensures
        forall|i: int, j: int|
            0 <= i < j < inserted(s, x).len() ==> listed_before(
                #[trigger] inserted(s, x)[i],
                #[trigger] inserted(s, x)[j],
            ),
    decreases s.len(),
{
    let out = inserted(s, x);
    if s.len() > 0 && better(x, s.last()) {
        let d = s.drop_last();
        lemma_inserted_sorted(d, x);
        lemma_inserted_members(d, x);
        let inner = inserted(d, x);
        assert forall|i: int, j: int| 0 <= i < j < out.len() implies listed_before(
            #[trigger] out[i],
            #[trigger] out[j],
        ) by {
            assert(out[i] == inner[i]);
            if j < inner.len() {
                assert(out[j] == inner[j]);
            } else {
                assert(inner.contains(inner[i]));
                if inner[i] != x {
                    let m = d.index_of(inner[i]);
                    assert(s[m] == inner[i]);
                    assert(listed_before(s[m], s[s.len() - 1]));
                }
            }
        }
    } else {
        assert forall|i: int, j: int| 0 <= i < j < out.len() implies listed_before(
            #[trigger] out[i],
            #[trigger] out[j],
        ) by {
            assert(out[i] == s[i]);
            if j == s.len() && i < s.len() - 1 {
                assert(listed_before(s[i], s[s.len() - 1]));
            }
        }
    }
}

proof fn lemma_ranked_lists_matches(rows: Seq<PaletteEntry>, needle: Seq<char>, prior: Mode)
    ensures
        forall|r: RankedView| #[trigger]
            ranked(rows, needle, prior).contains(r) ==> 0 <= r.hit.entry < rows.len() && row_hit(
                rows,
                r.hit.entry,
                needle,
                prior,
            ) == Some(r),
        forall|i: int|
            0 <= i < rows.len() ==> (#[trigger] row_hit(rows, i, needle, prior) matches Some(r)
                ==> ranked(rows, needle, prior).contains(r)),
        forall|i: int, j: int|
            0 <= i < j < ranked(rows, needle, prior).len() ==> listed_before(
                #[trigger] ranked(rows, needle, prior)[i],
                #[trigger] ranked(rows, needle, prior)[j],
            ),
    decreases rows.len(),
{
    let out = ranked(rows, needle, prior);
    if rows.len() > 0 {
        let d = rows.drop_last();
        lemma_ranked_lists_matches(d, needle, prior);
        let before = ranked(d, needle, prior);
        let n = rows.len() - 1;
        assert forall|i: int| 0 <= i < n implies #[trigger] row_hit(rows, i, needle, prior)
            == row_hit(d, i, needle, prior) by {
            assert(d[i] == rows[i]);
        }
        assert forall|i: int| 0 <= i < before.len() implies (#[trigger] before[i]).hit.entry
            < n by {
            assert(before.contains(before[i]));
        }
        match row_hit(rows, n, needle, prior) {
            Some(x) => {
                assert(x.hit.entry == n);
                assert(out == inserted(before, x));
                lemma_inserted_members(before, x);
                lemma_inserted_sorted(before, x);
            },
            None => {
                assert(out == before);
            },
        }
    }
}

proof fn lemma_unfiltered(rows: Seq<PaletteEntry>, prior: Mode)
    ensures
        forall|k: int|
            0 <= k < unfiltered(rows, prior).len() ==> {
                let h = #[trigger] unfiltered(rows, prior)[k];
                0 <= h.entry < rows.len() && visible(rows[h.entry], prior) && h.positions
                    == Seq::<int>::empty()
            },
        forall|i: int|
            0 <= i < rows.len() && visible(#[trigger] rows[i], prior) ==> exists|k: int|
                0 <= k < unfiltered(rows, prior).len() && (#[trigger] unfiltered(
                    rows,
                    prior,
                )[k]).entry == i,
        forall|j: int, k: int|
            0 <= j < k < unfiltered(rows, prior).len() ==> (#[trigger] unfiltered(
                rows,
                prior,
            )[j]).entry < (#[trigger] unfiltered(rows, prior)[k]).entry,
    decreases rows.len(),
{
    if rows.len() > 0 {
        let d = rows.drop_last();
        lemma_unfiltered(d, prior);
        let before = unfiltered(d, prior);
        let out = unfiltered(rows, prior);
        assert forall|i: int| 0 <= i < rows.len() && visible(#[trigger] rows[i], prior) implies exists|
            k: int,
        |
            0 <= k < out.len() && (#[trigger] out[k]).entry == i by {
            if i < d.len() {
                assert(visible(d[i], prior));
                let k = choose|k: int| 0 <= k < before.len() && (#[trigger] before[k]).entry == i;
                assert(out[k].entry == i);
            } else {
                assert(out[before.len() as int].entry == i);
            }
        }
    }
}

/// The empty needle lists the visible rows, each once and in the order of the
/// catalogue, with nothing highlighted.
pub proof fn law_empty_needle_lists_visible_rows(prior: Mode)
    ensures
        ({
            let hits = palette_hits(Seq::empty(), prior);
            &&& forall|k: int|
                0 <= k < hits.len() ==> 0 <= (#[trigger] hits[k]).entry < catalogue().len()
                    && visible(catalogue()[hits[k].entry], prior) && hits[k].positions
                    == Seq::<int>::empty()
            &&& forall|i: int|
                0 <= i < catalogue().len() && visible(#[trigger] catalogue()[i], prior)
                    ==> exists|k: int| 0 <= k < hits.len() && (#[trigger] hits[k]).entry == i
            &&& forall|j: int, k: int|
                0 <= j < k < hits.len() ==> (#[trigger] hits[j]).entry < (#[trigger] hits[k]).entry
        }),
{
    let rows = catalogue();
    let hits = palette_hits(Seq::empty(), prior);
    lemma_unfiltered(rows, prior);
    assert(hits == unfiltered(rows, prior));
    assert forall|i: int| 0 <= i < rows.len() && visible(#[trigger] rows[i], prior) implies exists|
        k: int,
    |
        0 <= k < hits.len() && (#[trigger] hits[k]).entry == i by {
        let k = choose|k: int|
            0 <= k < unfiltered(rows, prior).len() && (#[trigger] unfiltered(rows, prior)[k]).entry
                == i;
        assert(hits[k].entry == i);
    }
}

/// Every command of the main list but the chord leader can be reached from the
/// palette, whatever mode it was opened from.
pub proof fn law_commands_are_listed(a: Action, prior: Mode)
    requires
        a != Action::ArmF,
    ensures
        exists|k: int|
            0 <= k < palette_hits(Seq::empty(), prior).len() && catalogue()[(
            #[trigger] palette_hits(Seq::empty(), prior)[k]).entry].dispatch
                == PaletteDispatch::Global(a),
{
    law_commands_have_rows(a);
    law_empty_needle_lists_visible_rows(prior);
    let i = choose|i: int|
        0 <= i < catalogue().len() && (#[trigger] catalogue()[i]).dispatch
            == PaletteDispatch::Global(a);
    assert(visible(catalogue()[i], prior));
    let hits = palette_hits(Seq::empty(), prior);
    let k = choose|k: int| 0 <= k < hits.len() && (#[trigger] hits[k]).entry == i;
    assert(catalogue()[hits[k].entry].dispatch == PaletteDispatch::Global(a));
}

/// A needle lists exactly the visible rows whose label holds it, each once, with
/// the positions at which it was found.
pub proof fn law_needle_lists_matching_rows(needle: Seq<char>, prior: Mode)
    requires
        needle.len() > 0,
    ensures
        forall|k: int|
            0 <= k < palette_hits(needle, prior).len() ==> {
                let h = #[trigger] palette_hits(needle, prior)[k];
                &&& 0 <= h.entry < catalogue().len()
                &&& row_hit(catalogue(), h.entry, needle, prior) matches Some(r) && r.hit == h
            },
        forall|i: int|
            0 <= i < catalogue().len() && (#[trigger] row_hit(
                catalogue(),
                i,
                needle,
                prior,
            )) is Some ==> exists|k: int|
                0 <= k < palette_hits(needle, prior).len() && (#[trigger] palette_hits(
                    needle,
                    prior,
                )[k]).entry == i,
        forall|j: int, k: int|
            0 <= j < k < palette_hits(needle, prior).len() ==> (#[trigger] palette_hits(
                needle,
                prior,
            )[j]).entry != (#[trigger] palette_hits(needle, prior)[k]).entry,
{
    let rows = catalogue();
    let out = ranked(rows, needle, prior);
    let hits = palette_hits(needle, prior);
    lemma_ranked_lists_matches(rows, needle, prior);
    assert forall|k: int| 0 <= k < hits.len() implies {
        let h = #[trigger] hits[k];
        &&& 0 <= h.entry < rows.len()
        &&& row_hit(rows, h.entry, needle, prior) matches Some(r) && r.hit == h
    } by {
        assert(out.contains(out[k]));
    }
    assert forall|i: int|
        0 <= i < rows.len() && (#[trigger] row_hit(rows, i, needle, prior)) is Some implies exists|
        k: int,
    |
        0 <= k < hits.len() && (#[trigger] hits[k]).entry == i by {
        let r = row_hit(rows, i, needle, prior)->0;
        assert(out.contains(r));
        let k = out.index_of(r);
        assert(hits[k].entry == i);
    }
    assert forall|j: int, k: int| 0 <= j < k < hits.len() implies (#[trigger] hits[j]).entry != (
    #[trigger] hits[k]).entry by {
        assert(listed_before(out[j], out[k]));
        assert(out.contains(out[j]) && out.contains(out[k]));
        if hits[j].entry == hits[k].entry {
            assert(out[j] == out[k]);
        }
    }
}

/// The list is ordered: a match at the start of the label before one at the
/// start of a word before one inside a word, then the tighter match first, then
/// the earlier row.
pub proof fn law_hits_are_ranked(needle: Seq<char>, prior: Mode, j: int, k: int)
    requires
        needle.len() > 0,
        0 <= j < k < palette_hits(needle, prior).len(),
    ensures
        ({
            let a = row_hit(catalogue(), palette_hits(needle, prior)[j].entry, needle, prior)->0;
            let b = row_hit(catalogue(), palette_hits(needle, prior)[k].entry, needle, prior)->0;
            listed_before(a, b)
        }),
{
    let rows = catalogue();
    let out = ranked(rows, needle, prior);
    lemma_ranked_lists_matches(rows, needle, prior);
    assert(out.contains(out[j]) && out.contains(out[k]));
    assert(palette_hits(needle, prior)[j] == out[j].hit);
    assert(palette_hits(needle, prior)[k] == out[k].hit);
    assert(listed_before(out[j], out[k]));
}

/// Whether a hit is for a command of the main list.
pub open spec fn global_hit(rows: Seq<PaletteEntry>, h: HitView) -> bool {
    rows[h.entry].dispatch is Global
}

/// Inserting a hit and dropping some hits go in either order.
proof fn lemma_inserted_filter(
    s: Seq<RankedView>,
    x: RankedView,
    keep: spec_fn(RankedView) -> bool,
)
    requires
        forall|i: int, j: int|
            0 <= i < j < s.len() ==> listed_before(#[trigger] s[i], #[trigger] s[j]),
    ensures
        inserted(s, x).filter(keep) == if keep(x) {
            inserted(s.filter(keep), x)
        } else {
            s.filter(keep)
        },
    decreases s.len(),
{
    reveal(Seq::filter);
    let d = s.drop_last();
    if s.len() > 0 && better(x, s.last()) {
        assert forall|i: int, j: int| 0 <= i < j < d.len() implies listed_before(
            #[trigger] d[i],
            #[trigger] d[j],
        ) by {
            assert(d[i] == s[i] && d[j] == s[j]);
        }
        lemma_inserted_filter(d, x, keep);
        assert(inserted(d, x).push(s.last()).drop_last() =~= inserted(d, x));
        assert(d.filter(keep).push(s.last()).drop_last() =~= d.filter(keep));
    } else {
        assert(s.push(x).drop_last() =~= s);
        assert forall|i: int| 0 <= i < s.len() implies !better(x, #[trigger] s[i]) by {
            if i < s.len() - 1 {
                assert(listed_before(s[i], s[s.len() - 1]));
            }
        }
        lemma_none_better(s, x, keep);
    }
}

proof fn lemma_none_better(s: Seq<RankedView>, x: RankedView, keep: spec_fn(RankedView) -> bool)
    requires
        forall|i: int| 0 <= i < s.len() ==> !better(x, #[trigger] s[i]),
    ensures
        s.filter(keep).len() > 0 ==> !better(x, s.filter(keep).last()),
    decreases s.len(),
{
    reveal(Seq::filter);
    if s.len() > 0 {
        let d = s.drop_last();
        assert forall|i: int| 0 <= i < d.len() implies !better(x, #[trigger] d[i]) by {
            assert(d[i] == s[i]);
        }
        assert(!better(x, s[s.len() - 1]));
        lemma_none_better(d, x, keep);
    }
}

proof fn lemma_hits_filter(s: Seq<RankedView>, keep: spec_fn(HitView) -> bool)
    ensures
        s.map_values(|r: RankedView| r.hit).filter(keep) == s.filter(
            |r: RankedView| keep(r.hit),
        ).map_values(|r: RankedView| r.hit),
    decreases s.len(),
{
    reveal(Seq::filter);
    let hit = |r: RankedView| r.hit;
    let kept = |r: RankedView| keep(r.hit);
    if s.len() > 0 {
        let d = s.drop_last();
        lemma_hits_filter(d, keep);
        assert(s.map_values(hit).drop_last() =~= d.map_values(hit));
        assert(s.map_values(hit).last() == s.last().hit);
        assert(d.filter(kept).push(s.last()).map_values(hit) =~= d.filter(kept).map_values(
            hit,
        ).push(s.last().hit));
    } else {
        assert(s.map_values(hit).filter(keep) =~= s.filter(kept).map_values(hit));
    }
}

proof fn lemma_rows_without_notes(rows: Seq<PaletteEntry>, n: int, needle: Seq<char>, prior: Mode)
    requires
        0 <= n <= rows.len(),
        prior != Mode::Notes,
    ensures
        unfiltered(rows.take(n), prior) == unfiltered(rows.take(n), Mode::Notes).filter(
            |h: HitView| global_hit(rows, h),
        ),
        ranked(rows.take(n), needle, prior) == ranked(rows.take(n), needle, Mode::Notes).filter(
            |r: RankedView| global_hit(rows, r.hit),
        ),
    decreases n,
{
    reveal(Seq::filter);
    let keep = |h: HitView| global_hit(rows, h);
    let kept = |r: RankedView| global_hit(rows, r.hit);
    if n > 0 {
        lemma_rows_without_notes(rows, n - 1, needle, prior);
        assert(rows.take(n).drop_last() =~= rows.take(n - 1));
        assert(rows.take(n).last() == rows[n - 1]);
        let plain = unfiltered(rows.take(n - 1), Mode::Notes);
        let h = HitView { entry: n - 1, positions: Seq::empty() };
        assert(plain.push(h).drop_last() =~= plain);
        let before = ranked(rows.take(n - 1), needle, Mode::Notes);
        lemma_ranked_lists_matches(rows.take(n - 1), needle, Mode::Notes);
        if let Some(at) = search::found_at(rows[n - 1].label@, needle) {
            lemma_inserted_filter(before, ranked_hit(n - 1, rows[n - 1].label@, at), kept);
        }
    }
}

/// Outside the notes popup the palette lists what it lists from the popup, in the
/// same order, without the popup's own operations.
pub proof fn law_notes_rows_only_add(needle: Seq<char>, prior: Mode)
    requires
        prior != Mode::Notes,
    ensures
        palette_hits(needle, prior) == palette_hits(needle, Mode::Notes).filter(
            |h: HitView| global_hit(catalogue(), h),
        ),
{
    let rows = catalogue();
    lemma_rows_without_notes(rows, rows.len() as int, needle, prior);
    assert(rows.take(rows.len() as int) =~= rows);
    lemma_hits_filter(ranked(rows, needle, Mode::Notes), |h: HitView| global_hit(rows, h));
    let a = |r: RankedView| (|h: HitView| global_hit(rows, h))(r.hit);
    let b = |r: RankedView| global_hit(rows, r.hit);
    assert(a =~= b);
}

proof fn lemma_leftmost_ignores_case(hay: Seq<char>, a: Seq<char>, b: Seq<char>)
    requires
        a.len() == b.len(),
        forall|i: int| 0 <= i < a.len() ==> text::same_folded(#[trigger] a[i], b[i]),
    ensures
        search::leftmost(hay, a) == search::leftmost(hay, b),
    decreases hay.len(),
{
    if hay.len() > 0 {
        lemma_leftmost_ignores_case(hay.drop_last(), a, b);
        let n = search::leftmost(hay.drop_last(), a).len() as int;
        if n < a.len() {
            assert(text::same_folded(a[n], b[n]));
        }
    }
}

proof fn lemma_ranked_ignores_case(
    rows: Seq<PaletteEntry>,
    a: Seq<char>,
    b: Seq<char>,
    prior: Mode,
)
    requires
        a.len() == b.len(),
        forall|i: int| 0 <= i < a.len() ==> text::same_folded(#[trigger] a[i], b[i]),
    ensures
        ranked(rows, a, prior) == ranked(rows, b, prior),
    decreases rows.len(),
{
    if rows.len() > 0 {
        lemma_ranked_ignores_case(rows.drop_last(), a, b, prior);
        lemma_leftmost_ignores_case(rows.last().label@, a, b);
    }
}

/// The case of the needle does not matter.
pub proof fn law_case_is_ignored(a: Seq<char>, b: Seq<char>, prior: Mode)
    requires
        a.len() == b.len(),
        forall|i: int| 0 <= i < a.len() ==> text::same_folded(#[trigger] a[i], b[i]),
    ensures
        palette_hits(a, prior) == palette_hits(b, prior),
{
    lemma_ranked_ignores_case(catalogue(), a, b, prior);
}

/// The state of the open palette: the highlighted hit, the mode to go back to,
/// and the hits for the last needle.
#[derive(Debug, Clone)]
pub struct CommandPaletteState {
    pub cursor: usize,
    pub prior_mode: Option<Mode>,
    pub cached_needle: String,
    pub cached_hits: Vec<PaletteHit>,
}

/// What the palette holds besides the highlight.
pub struct PaletteView {
    pub prior: Option<Mode>,
    pub needle: Seq<char>,
    pub hits: Seq<HitView>,
}

impl View for CommandPaletteState {
    type V = PaletteView;

    open spec fn view(&self) -> PaletteView {
        PaletteView {
            prior: self.prior_mode,
            needle: self.cached_needle@,
            hits: hit_views(self.cached_hits@),
        }
    }
}

/// A mode, or `Normal` where there is none.
pub open spec fn mode_or_normal(m: Option<Mode>) -> Mode {
    match m {
        Some(m) => m,
        None => Mode::Normal,
    }
}

/// The highlight after `dir` steps from `cursor` through `len` hits, round and
/// round. A highlight behind the last hit counts as the last.
pub open spec fn stepped(cursor: int, len: int, dir: int) -> int {
    if len == 0 {
        cursor
    } else {
        ((if cursor < len { cursor } else { len - 1 }) + dir) % len
    }
}

impl Default for CommandPaletteState {
    fn default() -> (r: Self)
        ensures
            r.cursor == 0,
            r@ == (PaletteView { prior: None, needle: Seq::empty(), hits: Seq::empty() }),
    {
        let r = CommandPaletteState {
            cursor: 0,
            prior_mode: None,
            cached_needle: String::new(),
            cached_hits: Vec::new(),
        };
        assert(r@.hits =~= Seq::empty());
        r
    }
}

impl CommandPaletteState {
    /// Opens the palette from `prior`, with every visible row listed.
    pub fn open(&mut self, prior: Mode)
        ensures
            final(self).cursor == 0,
            final(self)@ == (PaletteView {
                prior: Some(prior),
                needle: Seq::empty(),
                hits: palette_hits(Seq::empty(), prior),
            }),
    {
        self.cursor = 0;
        self.prior_mode = Some(prior);
        self.cached_needle = String::new();
        proof {
            reveal_strlit("");
            assert(""@ =~= Seq::empty());
        }
        self.cached_hits = filtered("", prior);
    }

    /// Hands out the mode that the palette was opened from, once: afterwards,
    /// and before any `open`, it is `Normal`.
    pub fn take_prior(&mut self) -> (r: Mode)
        ensures
            r == mode_or_normal(old(self)@.prior),
            final(self)@ == (PaletteView { prior: None, ..old(self)@ }),
            final(self).cursor == old(self).cursor,
    {
        match self.prior_mode.take() {
            Some(m) => m,
            None => Mode::Normal,
        }
    }

    /// The mode that the palette was opened from.
    pub fn prior(&self) -> (r: Option<Mode>)
        ensures
            r == self@.prior,
    {
        self.prior_mode
    }

    /// The hits for the current needle, best first.
    pub fn hits(&self) -> (r: &Vec<PaletteHit>)
        ensures
            hit_views(r@) == self@.hits,
    {
        &self.cached_hits
    }

    /// Takes a needle. A new one is filtered for and the highlight goes to the
    /// top; the same one again changes nothing.
    pub fn refresh(&mut self, needle: &str)
        ensures
            old(self)@.needle == needle@ ==> final(self)@ == old(self)@ && final(self).cursor
                == old(self).cursor,
            old(self)@.needle != needle@ ==> final(self).cursor == 0 && final(self)@ == (
            PaletteView {
                prior: old(self)@.prior,
                needle: needle@,
                hits: palette_hits(needle@, mode_or_normal(old(self)@.prior)),
            }),
    {
        if text::str_eq(self.cached_needle.as_str(), needle) {
            return;
        }
        self.cached_needle = needle.to_owned();
        let prior = match self.prior_mode {
            Some(m) => m,
            None => Mode::Normal,
        };
        self.cached_hits = filtered(needle, prior);
        self.cursor = 0;
    }

    /// Moves the highlight by `dir` hits, round and round.
    pub fn step(&mut self, dir: i32)
        ensures
            final(self)@ == old(self)@,
            final(self).cursor == stepped(
                old(self).cursor as int,
                old(self)@.hits.len() as int,
                dir as int,
            ),
    {
        let len: usize = self.cached_hits.len();
        if len == 0 {
            return;
        }
        let cur: usize = if self.cursor < len {
            self.cursor
        } else {
            len - 1
        };
        if dir >= 0 {
            let d: usize = dir as usize % len;
            let left: usize = len - cur;
            self.cursor = if d < left {
                cur + d
            } else {
                d - left
            };
            proof {
                vstd::arithmetic::div_mod::lemma_add_mod_noop_right(
                    cur as int,
                    dir as int,
                    len as int,
                );
                lemma_wrapped(cur + d, len as int);
            }
        } else {
            let back: u32 = (-(dir as i64)) as u32;
            let d: usize = back as usize % len;
            self.cursor = if d <= cur {
                cur - d
            } else {
                len - (d - cur)
            };
            proof {
                vstd::arithmetic::div_mod::lemma_sub_mod_noop_right(
                    cur as int,
                    back as int,
                    len as int,
                );
                lemma_wrapped(cur - d, len as int);
            }
        }
    }

    /// What the highlighted hit invokes, if there is one.
    pub fn current_dispatch(&self) -> (r: Option<PaletteDispatch>)
        ensures
            r == (if self.cursor < self@.hits.len() && self@.hits[self.cursor as int].entry
                < catalogue().len() {
                Some(catalogue()[self@.hits[self.cursor as int].entry].dispatch)
            } else {
                None
            }),
    {
        if self.cursor >= self.cached_hits.len() {
            return None;
        }
        assert(self@.hits[self.cursor as int] == self.cached_hits@[self.cursor as int]@);
        let at: usize = self.cached_hits[self.cursor].entry_idx;
        let rows = entries();
        if at < rows.len() {
            Some(rows[at].dispatch)
        } else {
            None
        }
    }
}

/// A number that is out of range by less than one turn, brought back.
proof fn lemma_wrapped(x: int, n: int)
    requires
        0 < n,
        -n <= x < 2 * n,
    ensures
        x % n == (if x < 0 {
            x + n
        } else if x < n {
            x
        } else {
            x - n
        }),
{
    if x < 0 {
        vstd::arithmetic::div_mod::lemma_fundamental_div_mod_converse(x, n, -1, x + n);
    } else if x < n {
        vstd::arithmetic::div_mod::lemma_small_mod(x as nat, n as nat);
    } else {
        vstd::arithmetic::div_mod::lemma_fundamental_div_mod_converse(x, n, 1, x - n);
    }
}

/// Stepping stays within the hits, and a step is undone by the opposite step.
pub proof fn law_steps_wrap(cursor: int, len: int, dir: int)
    requires
        0 <= cursor < len,
    ensures
        0 <= stepped(cursor, len, dir) < len,
        stepped(stepped(cursor, len, dir), len, -dir) == cursor,
{
    let next = stepped(cursor, len, dir);
    vstd::arithmetic::div_mod::lemma_add_mod_noop(cursor + dir, -dir, len);
    vstd::arithmetic::div_mod::lemma_add_mod_noop_right(-dir, cursor + dir, len);
    vstd::arithmetic::div_mod::lemma_small_mod(cursor as nat, len as nat);
}

} // verus!
