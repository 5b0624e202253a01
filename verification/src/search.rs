//! Fuzzy matching: a needle is found in a text whose characters hold it in
//! order, whatever stands between and whatever the case.
use crate::text;
use vstd::prelude::*;

verus! {

/// The characters of `hay` at which the characters of `needle` are found one
/// after the other, each at the first place it can be.
pub open spec fn leftmost(hay: Seq<char>, needle: Seq<char>) -> Seq<int>
    decreases hay.len(),
{
    if hay.len() == 0 {
        Seq::empty()
    } else {
        let found = leftmost(hay.drop_last(), needle);
        if found.len() < needle.len() && text::same_folded(
            hay.last(),
            needle[found.len() as int],
        ) {
            found.push(hay.len() - 1)
        } else {
            found
        }
    }
}

/// Where `needle` is found in `hay`, in characters.
pub open spec fn found_at(hay: Seq<char>, needle: Seq<char>) -> Option<Seq<int>> {
    if leftmost(hay, needle).len() == needle.len() {
        Some(leftmost(hay, needle))
    } else {
        None
    }
}

/// Positions in ascending order at which `hay` holds the first characters of
/// `needle`.
pub open spec fn spells(hay: Seq<char>, needle: Seq<char>, at: Seq<int>) -> bool {
    &&& at.len() <= needle.len()
    &&& forall|i: int| 0 <= i < at.len() ==> 0 <= #[trigger] at[i] < hay.len()
    &&& forall|i: int, j: int| 0 <= i < j < at.len() ==> #[trigger] at[i] < #[trigger] at[j]
    &&& forall|i: int|
        0 <= i < at.len() ==> text::same_folded(hay[#[trigger] at[i]], needle[i])
}

/// Character positions as byte positions.
pub open spec fn byte_positions(hay: Seq<char>, at: Seq<int>) -> Seq<int> {
    at.map_values(|p: int| text::byte_len(hay, p))
}

/// Integers as they are held in a vector of `usize`.
pub open spec fn ints(v: Seq<usize>) -> Seq<int> {
    v.map_values(|n: usize| n as int)
}

/// `leftmost` spells a part of the needle.
pub proof fn lemma_leftmost_spells(hay: Seq<char>, needle: Seq<char>)
    ensures
        spells(hay, needle, leftmost(hay, needle)),
    decreases hay.len(),
{
    if hay.len() > 0 {
        let d = hay.drop_last();
        lemma_leftmost_spells(d, needle);
        let at = leftmost(d, needle);
        assert forall|i: int| 0 <= i < at.len() implies text::same_folded(
            hay[#[trigger] at[i]],
            needle[i],
        ) by {
            assert(d[at[i]] == hay[at[i]]);
        }
    }
}

/// No positions spell more of the needle than `leftmost` does.
pub proof fn lemma_leftmost_is_longest(hay: Seq<char>, needle: Seq<char>, at: Seq<int>)
    requires
        spells(hay, needle, at),
    ensures
        at.len() <= leftmost(hay, needle).len(),
    decreases hay.len(),
{
    if at.len() > 0 {
        assert(0 <= at[0] < hay.len());
        let d = hay.drop_last();
        lemma_leftmost_spells(d, needle);
        if at.last() == hay.len() - 1 {
            let rest = at.drop_last();
            assert forall|i: int| 0 <= i < rest.len() implies 0 <= #[trigger] rest[i] < d.len() by {
                assert(rest[i] == at[i]);
                assert(at[i] < at[at.len() - 1]);
            }
            assert forall|i: int| 0 <= i < rest.len() implies text::same_folded(
                d[#[trigger] rest[i]],
                needle[i],
            ) by {
                assert(rest[i] == at[i]);
                assert(d[rest[i]] == hay[at[i]]);
            }
            lemma_leftmost_is_longest(d, needle, rest);
            assert(text::same_folded(hay[at[at.len() - 1]], needle[at.len() - 1]));
        } else {
            assert(at[at.len() - 1] < hay.len());
            assert forall|i: int| 0 <= i < at.len() implies 0 <= #[trigger] at[i] < d.len() by {
                if i < at.len() - 1 {
                    assert(at[i] < at[at.len() - 1]);
                }
            }
            assert forall|i: int| 0 <= i < at.len() implies text::same_folded(
                d[#[trigger] at[i]],
                needle[i],
            ) by {
                assert(d[at[i]] == hay[at[i]]);
            }
            lemma_leftmost_is_longest(d, needle, at);
        }
    }
}

/// A needle is found exactly in the texts that hold its characters in order, up
/// to case.
pub proof fn law_found_iff_subsequence(hay: Seq<char>, needle: Seq<char>)
    ensures
        found_at(hay, needle) is Some <==> exists|at: Seq<int>|
            at.len() == needle.len() && #[trigger] spells(hay, needle, at),
        found_at(hay, needle) matches Some(at) ==> spells(hay, needle, at) && at.len()
            == needle.len(),
{
    lemma_leftmost_spells(hay, needle);
    if exists|at: Seq<int>| at.len() == needle.len() && #[trigger] spells(hay, needle, at) {
        let at = choose|at: Seq<int>|
            at.len() == needle.len() && #[trigger] spells(hay, needle, at);
        lemma_leftmost_is_longest(hay, needle, at);
    }
}

/// Where `needle` is found in `hay`, in characters.
pub fn subseq_chars(hay: &str, needle: &str) -> (r: Option<Vec<usize>>)
    ensures
        match (r, found_at(hay@, needle@)) {
            (Some(v), Some(at)) => ints(v@) == at,
            (None, None) => true,
            _ => false,
        },
{
    let h = text::chars_of(hay);
    let n = text::chars_of(needle);
    let mut at: Vec<usize> = Vec::new();
    let mut i: usize = 0;
    assert(h@.take(0) =~= Seq::empty());
    assert(ints(at@) =~= leftmost(h@.take(0), n@));
    while i < h.len()
        invariant
            i <= h@.len(),
            at@.len() <= n@.len(),
            ints(at@) == leftmost(h@.take(i as int), n@),
        decreases h.len() - i,
    {
        let ghost before = ints(at@);
        assert(h@.take(i + 1).drop_last() =~= h@.take(i as int));
        assert(h@.take(i + 1).last() == h@[i as int]);
        if at.len() < n.len() && text::eq_folded(h[i], n[at.len()]) {
            at.push(i);
            assert(ints(at@) =~= before.push(i as int));
        }
        i += 1;
    }
    assert(h@.take(i as int) =~= hay@);
    if at.len() == n.len() {
        Some(at)
    } else {
        None
    }
}

/// Character positions in `hay` as byte positions.
pub fn to_bytes(hay: &str, at: &Vec<usize>) -> (r: Vec<usize>)
    requires
        forall|i: int| 0 <= i < at@.len() ==> #[trigger] at@[i] <= hay@.len(),
    ensures
        ints(r@) == byte_positions(hay@, ints(at@)),
{
    let mut r: Vec<usize> = Vec::new();
    let mut i: usize = 0;
    while i < at.len()
        invariant
            i <= at@.len(),
            r@.len() == i,
            forall|j: int| 0 <= j < at@.len() ==> #[trigger] at@[j] <= hay@.len(),
            forall|j: int| 0 <= j < i ==> #[trigger] r@[j] == text::byte_len(hay@, at@[j] as int),
        decreases at.len() - i,
    {
        r.push(text::byte_offset(hay, at[i]));
        i += 1;
    }
    assert(ints(r@) =~= byte_positions(hay@, ints(at@)));
    r
}

/// The byte positions in `hay` of the characters of `needle`, if `hay` holds
/// them in order up to case: each at the first place it can be.
pub fn subseq_match_ci(hay: &str, needle: &str) -> (r: Option<Vec<usize>>)
    ensures
        match (r, found_at(hay@, needle@)) {
            (Some(v), Some(at)) => ints(v@) == byte_positions(hay@, at),
            (None, None) => true,
            _ => false,
        },
{
    match subseq_chars(hay, needle) {
        Some(at) => {
            proof {
                lemma_leftmost_spells(hay@, needle@);
                assert forall|i: int| 0 <= i < at@.len() implies #[trigger] at@[i]
                    <= hay@.len() by {
                    assert(ints(at@)[i] == at@[i]);
                }
            }
            Some(to_bytes(hay, &at))
        },
        None => None,
    }
}

} // verus!
