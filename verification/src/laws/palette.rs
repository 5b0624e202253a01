//! What the command palette lists, in what order, and what its keys do.
use crate::app::palette;
use crate::app::palette::{HitView, PaletteDispatch, PaletteView};
use crate::app::types::Mode;
use crate::app::AppView;
use crate::dispatch::request::{Op, RequestView};
use crate::keys::KeyCode;
use crate::laws::list;
use crate::search;
use crate::text;
use vstd::prelude::*;

verus! {

/// Whether the character that begins at a byte of a label begins a word: the one
/// before it is neither letter nor number.
pub open spec fn begins_a_word(label: Seq<char>, byte: int) -> bool {
    exists|i: int|
        #![trigger text::byte_len(label, i)]
        0 < i < label.len() && text::byte_len(label, i) == byte && !text::char_alphanumeric(
            label[i - 1],
        )
}

/// Where a match begins: at the start of the label, at another start of a word, or
/// inside a word.
pub open spec fn begins(label: Seq<char>, h: HitView) -> int {
    if h.positions[0] == 0 {
        0
    } else if begins_a_word(label, h.positions[0]) {
        1
    } else {
        2
    }
}

/// The label of a hit.
pub open spec fn label_of(h: HitView) -> Seq<char> {
    palette::catalogue()[h.entry].label@
}

/// How far a match reaches: from its first matched byte to its last.
pub open spec fn reach(h: HitView) -> int {
    h.positions[h.positions.len() - 1] - h.positions[0]
}

proof fn lemma_bytes_grow(s: Seq<char>, a: int, b: int)
    requires
        0 <= a < b <= s.len(),
    ensures
        text::byte_len(s, a) < text::byte_len(s, b),
{
    text::lemma_byte_len_step(s, a);
    text::lemma_byte_len_grows(s, a + 1, b);
    assert(vstd::utf8::encode_scalar(s[a] as u32).len() >= 1);
}

proof fn lemma_begins(needle: Seq<char>, prior: Mode, k: int)
    requires
        needle.len() > 0,
        0 <= k < palette::palette_hits(needle, prior).len(),
    ensures
        ({
            let h = palette::palette_hits(needle, prior)[k];
            let label = label_of(h);
            let r = palette::row_hit(palette::catalogue(), h.entry, needle, prior)->0;
            &&& palette::row_hit(palette::catalogue(), h.entry, needle, prior) is Some
            &&& r.hit == h
            &&& r.tier == begins(label, h)
            &&& r.span == reach(h)
            &&& h.positions.len() == needle.len()
        }),
{
    let h = palette::palette_hits(needle, prior)[k];
    palette::law_needle_lists_matching_rows(needle, prior);
    let label = label_of(h);
    search::law_found_iff_subsequence(label, needle);
    let at = search::found_at(label, needle)->0;
    assert(h.positions == search::byte_positions(label, at));
    let a = at[0];
    assert(0 <= a < label.len());
    assert(text::byte_len(label, 0) == 0) by {
        assert(label.take(0) =~= Seq::empty());
        assert(vstd::utf8::encode_utf8(Seq::<char>::empty()).len() == 0);
    }
    if a > 0 {
        lemma_bytes_grow(label, 0, a);
        if begins_a_word(label, h.positions[0]) {
            let i = choose|i: int|
                #![trigger text::byte_len(label, i)]
                0 < i < label.len() && text::byte_len(label, i) == h.positions[0]
                    && !text::char_alphanumeric(label[i - 1]);
            if i < a {
                lemma_bytes_grow(label, i, a);
            }
            if a < i {
                lemma_bytes_grow(label, a, i);
            }
            assert(i == a);
        }
        assert(h.positions[0] == text::byte_len(label, a));
    }
}

/// The best match comes first: one at the start of the label before one at another
/// start of a word before one inside a word; of those that begin alike the one
/// that reaches less far; and of those that reach as far the earlier row.
pub proof fn law_best_matches_come_first(needle: Seq<char>, prior: Mode, j: int, k: int)
    requires
        needle.len() > 0,
        0 <= j < k < palette::palette_hits(needle, prior).len(),
    ensures
        ({
            let a = palette::palette_hits(needle, prior)[j];
            let b = palette::palette_hits(needle, prior)[k];
            let x = begins(label_of(a), a);
            let y = begins(label_of(b), b);
            &&& x <= y
            &&& x == y ==> reach(a) <= reach(b)
            &&& x == y && reach(a) == reach(b) ==> a.entry < b.entry
        }),
{
    lemma_begins(needle, prior, j);
    lemma_begins(needle, prior, k);
    palette::law_hits_are_ranked(needle, prior, j, k);
}

/// Whether the bytes of a hit are those of the needle's characters in the label,
/// in order, each the same up to case.
pub open spec fn spelled_at(label: Seq<char>, needle: Seq<char>, bytes: Seq<int>, at: Seq<int>) -> bool {
    &&& at.len() == needle.len()
    &&& bytes.len() == needle.len()
    &&& forall|i: int|
        #![trigger at[i]]
        0 <= i < at.len() ==> {
            &&& 0 <= at[i] < label.len()
            &&& bytes[i] == text::byte_len(label, at[i])
            &&& text::char_lowercase(label[at[i]]) == text::char_lowercase(needle[i])
        }
    &&& forall|i: int, j: int| 0 <= i < j < at.len() ==> #[trigger] at[i] < #[trigger] at[j]
}

/// What is highlighted in a row is the needle: its characters, in order, up to
/// case.
pub proof fn law_highlighted_characters_spell_the_needle(needle: Seq<char>, prior: Mode, k: int)
    requires
        needle.len() > 0,
        0 <= k < palette::palette_hits(needle, prior).len(),
    ensures
        ({
            let h = palette::palette_hits(needle, prior)[k];
            exists|at: Seq<int>| #[trigger] spelled_at(label_of(h), needle, h.positions, at)
        }),
{
    lemma_begins(needle, prior, k);
    let h = palette::palette_hits(needle, prior)[k];
    search::law_found_iff_subsequence(label_of(h), needle);
    let at = search::found_at(label_of(h), needle)->0;
    assert(spelled_at(label_of(h), needle, h.positions, at));
}

/// A row is listed exactly where its label holds the needle's characters in order,
/// up to case, and it may be run from where the palette was opened.
pub proof fn law_rows_that_hold_the_needle_are_listed(needle: Seq<char>, prior: Mode, i: int)
    requires
        needle.len() > 0,
        0 <= i < palette::catalogue().len(),
    ensures
        (exists|k: int|
            0 <= k < palette::palette_hits(needle, prior).len() && (#[trigger] palette::palette_hits(
                needle,
                prior,
            )[k]).entry == i) <==> (exists|at: Seq<int>|
            {
                &&& at.len() == needle.len()
                &&& #[trigger] search::spells(palette::catalogue()[i].label@, needle, at)
            }) && (palette::catalogue()[i].dispatch is Global || prior == Mode::Notes),
{
    palette::law_needle_lists_matching_rows(needle, prior);
    search::law_found_iff_subsequence(palette::catalogue()[i].label@, needle);
    let listed = palette::row_hit(palette::catalogue(), i, needle, prior);
    if exists|k: int|
        0 <= k < palette::palette_hits(needle, prior).len() && (#[trigger] palette::palette_hits(
            needle,
            prior,
        )[k]).entry == i {
        let k = choose|k: int|
            0 <= k < palette::palette_hits(needle, prior).len() && (
            #[trigger] palette::palette_hits(needle, prior)[k]).entry == i;
        assert(palette::palette_hits(needle, prior)[k].entry == i);
        assert(listed is Some);
    }
}

/// With nothing typed every row is listed once, in the order of the catalogue and
/// with nothing highlighted; those of the notes popup only where the palette was
/// opened from it.
pub proof fn law_empty_needle_lists_everything(prior: Mode)
    ensures
        ({
            let hits = palette::palette_hits(Seq::empty(), prior);
            &&& forall|i: int|
                0 <= i < palette::catalogue().len() ==> ((palette::catalogue()[i].dispatch is Global
                    || prior == Mode::Notes) <==> exists|k: int|
                    0 <= k < hits.len() && #[trigger] hits[k].entry == i)
            &&& forall|j: int, k: int|
                0 <= j < k < hits.len() ==> #[trigger] hits[j].entry < #[trigger] hits[k].entry
            &&& forall|k: int|
                0 <= k < hits.len() ==> (#[trigger] hits[k]).positions.len() == 0
        }),
{
    palette::law_empty_needle_lists_visible_rows(prior);
    let hits = palette::palette_hits(Seq::empty(), prior);
    assert forall|i: int| 0 <= i < palette::catalogue().len() implies ((
    palette::catalogue()[i].dispatch is Global || prior == Mode::Notes) <==> exists|k: int|
        0 <= k < hits.len() && #[trigger] hits[k].entry == i) by {
        assert(palette::visible(palette::catalogue()[i], prior) == (
        palette::catalogue()[i].dispatch is Global || prior == Mode::Notes));
        if exists|k: int| 0 <= k < hits.len() && #[trigger] hits[k].entry == i {
            let k = choose|k: int| 0 <= k < hits.len() && #[trigger] hits[k].entry == i;
            assert(palette::visible(palette::catalogue()[hits[k].entry], prior));
        }
    }
}

proof fn lemma_found_so_far(hay: Seq<char>, needle: Seq<char>, n: int)
    requires
        0 <= n <= hay.len(),
    ensures
        ({
            let part = search::leftmost(hay.take(n), needle);
            let all = search::leftmost(hay, needle);
            &&& part.len() <= all.len()
            &&& forall|i: int| 0 <= i < part.len() ==> part[i] == all[i]
        }),
    decreases hay.len(),
{
    if n < hay.len() {
        assert(hay.drop_last().take(n) =~= hay.take(n));
        lemma_found_so_far(hay.drop_last(), needle, n);
    } else {
        assert(hay.take(n) =~= hay);
    }
}

/// Each character of a needle is found at the first place where it can be: no
/// other way to find the needle has any of them earlier.
pub proof fn law_characters_are_found_as_early_as_can_be(
    hay: Seq<char>,
    needle: Seq<char>,
    other: Seq<int>,
)
    requires
        other.len() == needle.len(),
        search::spells(hay, needle, other),
    ensures
        search::found_at(hay, needle) matches Some(at) && at.len() == needle.len() && forall|i: int|
            0 <= i < needle.len() ==> #[trigger] at[i] <= other[i],
{
    search::law_found_iff_subsequence(hay, needle);
    let at = search::leftmost(hay, needle);
    assert forall|i: int| 0 <= i < needle.len() implies #[trigger] at[i] <= other[i] by {
        let n = other[i] + 1;
        let part = hay.take(n);
        let b = other.take(i + 1);
        assert(search::spells(part, needle, b)) by {
            assert forall|k: int| 0 <= k < b.len() implies 0 <= #[trigger] b[k] < part.len() by {
                assert(b[k] == other[k]);
                if k < i {
                    assert(other[k] < other[i]);
                }
            }
            assert forall|k: int| 0 <= k < b.len() implies text::same_folded(
                part[#[trigger] b[k]],
                needle[k],
            ) by {
                assert(b[k] == other[k]);
                if k < i {
                    assert(other[k] < other[i]);
                }
                assert(part[b[k]] == hay[other[k]]);
            }
            assert forall|k: int, l: int| 0 <= k < l < b.len() implies #[trigger] b[k]
                < #[trigger] b[l] by {
                assert(other[k] < other[l]);
            }
        }
        search::lemma_leftmost_is_longest(part, needle, b);
        search::lemma_leftmost_spells(part, needle);
        lemma_found_so_far(hay, needle, n);
        assert(search::leftmost(part, needle)[i] < n);
    }
}

/// A step goes to the next hit or the one before, round and round.
pub proof fn law_steps_go_one_hit(cursor: int, len: int)
    requires
        0 <= cursor < len,
    ensures
        palette::stepped(cursor, len, 1) == if cursor == len - 1 {
            0
        } else {
            cursor + 1
        },
        palette::stepped(cursor, len, -1) == if cursor == 0 {
            len - 1
        } else {
            cursor - 1
        },
{
    if cursor == len - 1 {
        assert(len % len == 0) by (nonlinear_arith)
            requires
                len > 0,
        ;
    } else {
        vstd::arithmetic::div_mod::lemma_small_mod((cursor + 1) as nat, len as nat);
    }
    if cursor == 0 {
        vstd::arithmetic::div_mod::lemma_mod_add_multiples_vanish(-1, len);
        vstd::arithmetic::div_mod::lemma_small_mod((len - 1) as nat, len as nat);
    } else {
        vstd::arithmetic::div_mod::lemma_small_mod((cursor - 1) as nat, len as nat);
    }
}

/// In the palette the arrows, and Ctrl-N and Ctrl-P, move the highlight and ask
/// for nothing; a bare `j` or `k` is typed.
pub proof fn law_palette_keys(v: AppView)
    requires
        !v.pinned_focus,
        v.mode == Mode::CommandPalette,
    ensures
        ({
            let len = v.palette.hits.len() as int;
            let down = AppView { palette_cursor: palette::stepped(v.palette_cursor, len, 1), ..v };
            let up = AppView { palette_cursor: palette::stepped(v.palette_cursor, len, -1), ..v };
            &&& list::only_becomes(v.palette_keyed(list::alone(KeyCode::Down)), down)
            &&& list::only_becomes(v.palette_keyed(list::with_control('n')), down)
            &&& list::only_becomes(v.palette_keyed(list::alone(KeyCode::Up)), up)
            &&& list::only_becomes(v.palette_keyed(list::with_control('p')), up)
        }),
        forall|c: char|
            #![trigger list::typed(c)]
            v.palette_keyed(list::typed(c)).app == v && v.palette_keyed(list::typed(c),
            ).requests == seq![
                RequestView::Do(Op::Edit(crate::keys::EditAction::Insert(c))),
                RequestView::Do(Op::RefreshPalette),
            ],
{
    assert forall|c: char| #![trigger list::typed(c)] v.palette_keyed(list::typed(c)).app == v
        && v.palette_keyed(list::typed(c)).requests == seq![
        RequestView::Do(Op::Edit(crate::keys::EditAction::Insert(c))),
        RequestView::Do(Op::RefreshPalette),
    ] by {
        assert(v.palette_keyed(list::typed(c)).requests =~= seq![
            RequestView::Do(Op::Edit(crate::keys::EditAction::Insert(c))),
            RequestView::Do(Op::RefreshPalette),
        ]);
    }
}

/// Esc closes the palette in the mode it was opened from and runs nothing.
pub proof fn law_leaving_the_palette(v: AppView, prior: Mode)
    requires
        !v.pinned_focus,
        v.mode == Mode::CommandPalette,
        v.palette.prior == Some(prior),
    ensures
        list::only_asks(
            v.palette_keyed(list::alone(KeyCode::Esc)),
            AppView { mode: prior, palette: PaletteView { prior: None, ..v.palette }, ..v },
            Op::ClearDraft,
        ),
{
}

/// A palette that was opened from nowhere is left for the list.
pub proof fn law_leaving_goes_to_the_list_at_last(v: AppView)
    requires
        v.palette.prior is None,
    ensures
        v.palette_keyed(list::alone(KeyCode::Esc)).app == (AppView { mode: Mode::Normal, ..v }),
{
    assert((PaletteView { prior: None, ..v.palette }) == v.palette);
}

/// Enter runs the command of the highlighted row, in the mode that the palette was
/// opened from; with no row highlighted it only closes the palette.
pub proof fn law_running_from_the_palette(v: AppView, prior: Mode)
    requires
        !v.pinned_focus,
        v.mode == Mode::CommandPalette,
        v.palette.prior == Some(prior),
        0 <= v.palette_cursor,
    ensures
        ({
            let back = AppView {
                mode: prior,
                palette: PaletteView { prior: None, ..v.palette },
                ..v
            };
            let r = v.palette_keyed(list::alone(KeyCode::Enter));
            let clear = seq![RequestView::Do(Op::ClearDraft)];
            if v.palette_cursor < v.palette.hits.len() {
                let i = v.palette.hits[v.palette_cursor].entry;
                0 <= i < palette::catalogue().len() ==> match palette::catalogue()[i].dispatch {
                    PaletteDispatch::Global(action) => r.app == back.applied(action).app
                        && r.requests == clear + back.applied(action).requests,
                    PaletteDispatch::NotesAction(action) => r.app == back.notes_chosen(action).app
                        && r.requests == clear + back.notes_chosen(action).requests,
                }
            } else {
                r.app == back && r.requests == clear
            }
        }),
{
    let clear = seq![RequestView::Do(Op::ClearDraft)];
    assert(clear + Seq::<RequestView>::empty() =~= clear);
}

} // verus!
