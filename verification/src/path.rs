//! Paths as text, on systems where a slash separates the names and a path that
//! begins with one is absolute.
use crate::text;
use vstd::prelude::*;

verus! {

/// `part` taken relative to `base`: an absolute `part` stands for itself, and a
/// slash goes between the two where `base` does not end in one.
pub open spec fn joined_path(base: Seq<char>, part: Seq<char>) -> Seq<char> {
    if part.len() > 0 && part[0] == '/' {
        part
    } else if base.len() == 0 || base.last() == '/' {
        base + part
    } else {
        base.push('/') + part
    }
}

/// The last of a path's components that is neither empty nor `.`, unless that
/// is `..`.
pub open spec fn last_component(components: Seq<Seq<char>>) -> Option<Seq<char>>
    decreases components.len(),
{
    if components.len() == 0 {
        None
    } else if components.last().len() == 0 || components.last() == "."@ {
        last_component(components.drop_last())
    } else if components.last() == ".."@ {
        None
    } else {
        Some(components.last())
    }
}

/// The final name in a path, if it has one.
pub open spec fn path_name(path: Seq<char>) -> Option<Seq<char>> {
    last_component(text::pieces(path, '/'))
}

/// `part` taken relative to `base`.
pub fn join(base: &str, part: &str) -> (r: String)
    ensures
        r@ == joined_path(base@, part@),
{
    if !part.is_empty() && part.get_char(0) == '/' {
        return part.to_owned();
    }
    let n: usize = base.unicode_len();
    let mut r = base.to_owned();
    if n > 0 && base.get_char(n - 1) != '/' {
        r.push('/');
    }
    r.append(part);
    r
}

/// The final name in a path, if it has one.
pub fn file_name(path: &str) -> (r: Option<String>)
    ensures
        text::opt_text(r) == path_name(path@),
{
    let parts = text::split_on(path, '/');
    let ghost all = text::texts(parts@);
    let mut i: usize = parts.len();
    assert(all.take(i as int) =~= all);
    while i > 0
        invariant
            i <= parts@.len(),
            all == text::texts(parts@),
            all == text::pieces(path@, '/'),
            last_component(all) == last_component(all.take(i as int)),
        decreases i,
    {
        let part = parts[i - 1].as_str();
        assert(all.take(i as int).last() == part@);
        assert(all.take(i as int).drop_last() =~= all.take(i - 1));
        if part.is_empty() || text::str_eq(part, ".") {
            i -= 1;
        } else if text::str_eq(part, "..") {
            return None;
        } else {
            return Some(part.to_owned());
        }
    }
    None
}

/// The components that say where a path leads: all but the empty ones and `.`.
pub open spec fn steps(components: Seq<Seq<char>>) -> Seq<Seq<char>>
    decreases components.len(),
{
    if components.len() == 0 {
        Seq::empty()
    } else if components.last().len() == 0 || components.last() == "."@ {
        steps(components.drop_last())
    } else {
        steps(components.drop_last()).push(components.last())
    }
}

/// Whether two paths are the same, component by component: doubled slashes, a
/// slash at the end and `.` inside a path do not tell them apart.
pub open spec fn same_path(a: Seq<char>, b: Seq<char>) -> bool {
    let p = text::pieces(a, '/');
    let q = text::pieces(b, '/');
    &&& steps(p) == steps(q)
    &&& (p[0].len() == 0 && p.len() > 1) == (q[0].len() == 0 && q.len() > 1)
    &&& (p[0] == "."@) == (q[0] == "."@)
}

fn steps_of(parts: &Vec<String>) -> (r: Vec<String>)
    ensures
        text::texts(r@) == steps(text::texts(parts@)),
{
    let ghost all = text::texts(parts@);
    let mut r: Vec<String> = Vec::new();
    let mut i: usize = 0;
    assert(text::texts(r@) =~= steps(all.take(0)));
    while i < parts.len()
        invariant
            i <= parts@.len(),
            all == text::texts(parts@),
            text::texts(r@) == steps(all.take(i as int)),
        decreases parts.len() - i,
    {
        let part = parts[i].as_str();
        let ghost before = text::texts(r@);
        assert(all.take(i + 1).last() == part@);
        assert(all.take(i + 1).drop_last() =~= all.take(i as int));
        if !(part.is_empty() || text::str_eq(part, ".")) {
            r.push(part.to_owned());
            assert(text::texts(r@) =~= before.push(part@));
        }
        i += 1;
    }
    assert(all.take(i as int) =~= all);
    r
}

/// Whether two paths are the same, component by component.
pub fn same(a: &str, b: &str) -> (r: bool)
    ensures
        r == same_path(a@, b@),
{
    let p = text::split_on(a, '/');
    let q = text::split_on(b, '/');
    proof {
        text::lemma_pieces_nonempty(a@, '/');
        text::lemma_pieces_nonempty(b@, '/');
        assert(text::texts(p@)[0] == p@[0]@);
        assert(text::texts(q@)[0] == q@[0]@);
    }
    let p_rooted = p[0].as_str().is_empty() && p.len() > 1;
    let q_rooted = q[0].as_str().is_empty() && q.len() > 1;
    let p_here = text::str_eq(p[0].as_str(), ".");
    let q_here = text::str_eq(q[0].as_str(), ".");
    let x = steps_of(&p);
    let y = steps_of(&q);
    p_rooted == q_rooted && p_here == q_here && text::all_eq(&x, &y)
}

} // verus!
