//! Text primitives: white space, words, lines, trimming and number formatting,
//! each stated over the characters of a string.
use vstd::prelude::*;

verus! {

/// The texts held by a sequence of owned strings.
pub open spec fn texts(v: Seq<String>) -> Seq<Seq<char>> {
    v.map_values(|s: String| s@)
}

/// The number of bytes that the first `k` characters of `s` take in UTF-8.
pub open spec fn byte_len(s: Seq<char>, k: int) -> int {
    vstd::utf8::encode_utf8(s.take(k)).len() as int
}

/// `String::push`: the character is appended at the end.
pub assume_specification[ String::push ](s: &mut String, c: char)
    ensures
        final(s)@ == old(s)@.push(c),
;

/// `String::pop`: the last character is removed and returned, `None` on an
/// empty string.
pub assume_specification[ String::pop ](s: &mut String) -> (r: Option<char>)
    ensures
        old(s)@.len() == 0 ==> r is None && final(s)@ == old(s)@,
        old(s)@.len() > 0 ==> r == Some(old(s)@.last()) && final(s)@ == old(s)@.drop_last(),
;

/// `String::insert`: the character goes in at a byte position, which has to be
/// a character boundary; what stood from there on moves behind it.
pub assume_specification[ String::insert ](s: &mut String, idx: usize, c: char)
    requires
        exists|k: int| 0 <= k <= old(s)@.len() && #[trigger] byte_len(old(s)@, k) == idx,
    ensures
        forall|k: int|
            0 <= k <= old(s)@.len() && #[trigger] byte_len(old(s)@, k) == idx ==> final(s)@
                == old(s)@.insert(k, c),
;

/// `String::remove`: the character that starts at a byte position is taken
/// out and returned.
pub assume_specification[ String::remove ](s: &mut String, idx: usize) -> (r: char)
    requires
        exists|k: int| 0 <= k < old(s)@.len() && #[trigger] byte_len(old(s)@, k) == idx,
    ensures
        forall|k: int|
            0 <= k < old(s)@.len() && #[trigger] byte_len(old(s)@, k) == idx ==> {
                &&& final(s)@ == old(s)@.remove(k)
                &&& r == old(s)@[k]
            },
;

/// `String::split_off`: the string is cut at a byte position, which has to be a
/// character boundary; what follows it is returned.
pub assume_specification[ String::split_off ](s: &mut String, at: usize) -> (r: String)
    requires
        exists|k: int| 0 <= k <= old(s)@.len() && #[trigger] byte_len(old(s)@, k) == at,
    ensures
        forall|k: int|
            0 <= k <= old(s)@.len() && #[trigger] byte_len(old(s)@, k) == at ==> {
                &&& final(s)@ == old(s)@.take(k)
                &&& r@ == old(s)@.skip(k)
            },
;

/// `char::len_utf8`: the number of bytes of the character's UTF-8 form.
pub assume_specification[ char::len_utf8 ](c: char) -> (r: usize)
    ensures
        r == vstd::utf8::encode_scalar(c as u32).len(),
;

/// What `char::to_lowercase` yields for a character.
pub uninterp spec fn char_lowercase(c: char) -> Seq<char>;

/// `char::to_lowercase`, collected: the character's lower-case form, which for
/// an ASCII character is the ASCII lower-case character.
#[verifier::external_body]
fn lowercase_chars(c: char) -> (r: Vec<char>)
    ensures
        r@ == char_lowercase(c),
        (c as u32) < 128 ==> r@ == seq![ascii_lower(c)],
{
    c.to_lowercase().collect()
}

/// What `char::is_alphanumeric` answers for a character.
pub uninterp spec fn char_alphanumeric(c: char) -> bool;

/// `char::is_alphanumeric`: whether the character is a letter or a number,
/// which among the ASCII characters are the letters and the digits.
#[verifier::external_body]
pub(crate) fn is_alphanumeric(c: char) -> (r: bool)
    ensures
        r == char_alphanumeric(c),
        (c as u32) < 128 ==> r == ascii_alphanumeric(c),
{
    c.is_alphanumeric()
}

/// Whether an ASCII character is a letter or a digit.
pub open spec fn ascii_alphanumeric(c: char) -> bool {
    ('a' <= c && c <= 'z') || ('A' <= c && c <= 'Z') || ('0' <= c && c <= '9')
}

/// The ASCII lower-case form of a character: other characters stay themselves.
pub open spec fn ascii_lower(c: char) -> char {
    if 'A' <= c && c <= 'Z' {
        ((c as u32) + 32) as char
    } else {
        c
    }
}

/// Two characters that differ in case only.
pub open spec fn same_folded(a: char, b: char) -> bool {
    char_lowercase(a) == char_lowercase(b)
}

/// Whether two characters are the same up to case.
pub fn eq_folded(a: char, b: char) -> (r: bool)
    ensures
        r == same_folded(a, b),
        (a as u32) < 128 && (b as u32) < 128 ==> r == (ascii_lower(a) == ascii_lower(b)),
{
    let x = lowercase_chars(a);
    let y = lowercase_chars(b);
    let r = chars_eq(&x, &y);
    proof {
        if (a as u32) < 128 && (b as u32) < 128 {
            assert(x@[0] == ascii_lower(a) && y@[0] == ascii_lower(b));
        }
    }
    r
}

/// Whether two character vectors hold the same characters.
pub fn chars_eq(a: &Vec<char>, b: &Vec<char>) -> (r: bool)
    ensures
        r == (a@ == b@),
{
    if a.len() != b.len() {
        return false;
    }
    let mut i: usize = 0;
    while i < a.len()
        invariant
            i <= a.len(),
            a.len() == b.len(),
            forall|j: int| 0 <= j < i ==> a@[j] == b@[j],
        decreases a.len() - i,
    {
        if a[i] != b[i] {
            return false;
        }
        i += 1;
    }
    assert(a@ =~= b@);
    true
}

/// Whether two string slices hold the same characters.
pub fn str_eq(a: &str, b: &str) -> (r: bool)
    ensures
        r == (a@ == b@),
{
    a.to_owned() == b.to_owned()
}

/// The characters of a string, in order.
pub fn chars_of(s: &str) -> (r: Vec<char>)
    ensures
        r@ == s@,
{
    let mut r: Vec<char> = Vec::new();
    for c in it: s.chars()
        invariant
            r@ == s@.take(it.index() as int),
            it.seq() == s@,
    {
        r.push(c);
    }
    r
}

/// The string made of `v[from]` up to, not including, `v[to]`.
pub fn string_of(v: &Vec<char>, from: usize, to: usize) -> (r: String)
    requires
        from <= to <= v@.len(),
    ensures
        r@ == v@.subrange(from as int, to as int),
{
    let mut r = String::new();
    let mut i: usize = from;
    while i < to
        invariant
            from <= i <= to <= v@.len(),
            r@ == v@.subrange(from as int, i as int),
        decreases to - i,
    {
        r.push(v[i]);
        assert(v@.subrange(from as int, i + 1) =~= v@.subrange(from as int, i as int).push(
            v@[i as int],
        ));
        i += 1;
    }
    r
}

/// UTF-8 text is encoded piece by piece.
proof fn lemma_encode_concat(a: Seq<char>, b: Seq<char>)
    ensures
        vstd::utf8::encode_utf8(a + b) == vstd::utf8::encode_utf8(a) + vstd::utf8::encode_utf8(b),
    decreases a.len(),
{
    if a.len() == 0 {
        assert(a + b =~= b);
        assert(vstd::utf8::encode_utf8(a) + vstd::utf8::encode_utf8(b) =~= vstd::utf8::encode_utf8(
            b,
        ));
    } else {
        lemma_encode_concat(a.drop_first(), b);
        assert((a + b).drop_first() =~= a.drop_first() + b);
        assert(vstd::utf8::encode_utf8(a + b) =~= vstd::utf8::encode_utf8(a)
            + vstd::utf8::encode_utf8(b));
    }
}

/// One more character takes its own bytes more.
pub proof fn lemma_byte_len_step(s: Seq<char>, k: int)
    requires
        0 <= k < s.len(),
    ensures
        byte_len(s, k + 1) == byte_len(s, k) + vstd::utf8::encode_scalar(s[k] as u32).len(),
        byte_len(s, k + 1) <= vstd::utf8::encode_utf8(s).len(),
{
    let one = seq![s[k]];
    lemma_encode_concat(s.take(k), one);
    assert(s.take(k) + one =~= s.take(k + 1));
    assert(one.drop_first() =~= Seq::empty());
    assert(vstd::utf8::encode_utf8(one) =~= vstd::utf8::encode_scalar(s[k] as u32)
        + vstd::utf8::encode_utf8(one.drop_first()));
    lemma_encode_concat(s.take(k + 1), s.skip(k + 1));
    assert(s.take(k + 1) + s.skip(k + 1) =~= s);
}

/// The byte position at which the `char_idx`-th character of `s` starts; the
/// length of `s` in bytes where it has no more than `char_idx` characters.
pub fn byte_offset(s: &str, char_idx: usize) -> (r: usize)
    ensures
        char_idx <= s@.len() ==> r == byte_len(s@, char_idx as int),
        char_idx > s@.len() ==> r == byte_len(s@, s@.len() as int),
{
    let total: usize = s.as_bytes().len();
    let v = chars_of(s);
    let mut r: usize = 0;
    let mut i: usize = 0;
    assert(s@.take(0) =~= Seq::empty());
    while i < v.len() && i < char_idx
        invariant
            i <= v@.len(),
            i <= char_idx,
            v@ == s@,
            total == vstd::utf8::encode_utf8(s@).len(),
            r == byte_len(s@, i as int),
        decreases v.len() - i,
    {
        proof {
            lemma_byte_len_step(s@, i as int);
        }
        r += v[i].len_utf8();
        i += 1;
    }
    r
}

// ---- white space and words -----------------------------------------------

/// The characters with Unicode's `White_Space` property.
pub open spec fn is_space(c: char) -> bool {
    let n = c as u32;
    ||| 0x9 <= n <= 0xd
    ||| n == 0x20
    ||| n == 0x85
    ||| n == 0xa0
    ||| n == 0x1680
    ||| 0x2000 <= n <= 0x200a
    ||| n == 0x2028
    ||| n == 0x2029
    ||| n == 0x202f
    ||| n == 0x205f
    ||| n == 0x3000
}

/// Whether `c` is white space.
pub fn is_whitespace(c: char) -> (r: bool)
    ensures
        r == is_space(c),
{
    let n: u32 = c as u32;
    (0x9 <= n && n <= 0xd) || n == 0x20 || n == 0x85 || n == 0xa0 || n == 0x1680 || (0x2000 <= n
        && n <= 0x200a) || n == 0x2028 || n == 0x2029 || n == 0x202f || n == 0x205f || n == 0x3000
}

/// `s` without its leading white space.
pub open spec fn trim_start(s: Seq<char>) -> Seq<char>
    decreases s.len(),
{
    if s.len() > 0 && is_space(s[0]) {
        trim_start(s.drop_first())
    } else {
        s
    }
}

/// `s` without its trailing white space.
pub open spec fn trim_end(s: Seq<char>) -> Seq<char>
    decreases s.len(),
{
    if s.len() > 0 && is_space(s.last()) {
        trim_end(s.drop_last())
    } else {
        s
    }
}

/// `s` without leading and trailing white space.
pub open spec fn trimmed(s: Seq<char>) -> Seq<char> {
    trim_end(trim_start(s))
}

/// A word: at least one character, none of them white space.
pub open spec fn is_word(s: Seq<char>) -> bool {
    s.len() > 0 && forall|i: int| 0 <= i < s.len() ==> !is_space(#[trigger] s[i])
}

/// The words of `s`: its maximal runs of characters that are not white space,
/// in order.
pub open spec fn words(s: Seq<char>) -> Seq<Seq<char>>
    decreases s.len(),
{
    if s.len() == 0 {
        Seq::empty()
    } else {
        let before = words(s.drop_last());
        if is_space(s.last()) {
            before
        } else if s.len() >= 2 && !is_space(s[s.len() - 2]) {
            before.update(before.len() - 1, before.last().push(s.last()))
        } else {
            before.push(seq![s.last()])
        }
    }
}

/// `trim`: the string without the white space at its ends.
pub fn trim(s: &str) -> (r: String)
    ensures
        r@ == trimmed(s@),
{
    let v = chars_of(s);
    let mut a: usize = 0;
    assert(v@.skip(0) =~= v@);
    while a < v.len() && is_whitespace(v[a])
        invariant
            a <= v@.len(),
            trim_start(v@) == trim_start(v@.skip(a as int)),
        decreases v.len() - a,
    {
        assert(v@.skip(a as int).drop_first() =~= v@.skip(a + 1));
        a += 1;
    }
    assert(trim_start(v@) == v@.skip(a as int));
    let mut b: usize = v.len();
    let ghost t = v@.skip(a as int);
    assert(t.take(b - a) =~= t);
    while a < b && is_whitespace(v[b - 1])
        invariant
            a <= b <= v@.len(),
            t == v@.skip(a as int),
            trim_end(t) == trim_end(t.take(b - a)),
        decreases b - a,
    {
        assert(t.take(b - a).drop_last() =~= t.take(b - a - 1));
        assert(t.take(b - a).last() == v@[b - 1]);
        b -= 1;
    }
    assert(a < b ==> t.take(b - a).last() == v@[b - 1]);
    assert(t.take(b - a) =~= v@.subrange(a as int, b as int));
    string_of(&v, a, b)
}

/// A text that does not end in white space has a last word.
pub proof fn lemma_words_nonempty(s: Seq<char>)
    requires
        s.len() > 0,
        !is_space(s.last()),
    ensures
        words(s).len() > 0,
    decreases s.len(),
{
    if s.len() >= 2 && !is_space(s[s.len() - 2]) {
        lemma_words_nonempty(s.drop_last());
    }
}

/// Every element of `words(s)` is a word.
pub proof fn lemma_words_are_words(s: Seq<char>)
    ensures
        forall|i: int| 0 <= i < words(s).len() ==> is_word(#[trigger] words(s)[i]),
    decreases s.len(),
{
    if s.len() > 0 {
        lemma_words_are_words(s.drop_last());
        if s.len() >= 2 && !is_space(s[s.len() - 2]) {
            lemma_words_nonempty(s.drop_last());
        }
    }
}

/// A word is its own only word.
pub proof fn lemma_words_of_word(w: Seq<char>)
    requires
        is_word(w),
    ensures
        words(w) == seq![w],
    decreases w.len(),
{
    let d = w.drop_last();
    if w.len() == 1 {
        assert(words(d) =~= Seq::empty());
        assert(w =~= seq![w.last()]);
        assert(words(w) =~= seq![w]);
    } else {
        assert forall|i: int| 0 <= i < d.len() implies !is_space(#[trigger] d[i]) by {
            assert(d[i] == w[i]);
        }
        lemma_words_of_word(d);
        assert(!is_space(w[w.len() - 2]));
        assert(!is_space(w[w.len() - 1]));
        assert(d.push(w.last()) =~= w);
        assert(words(w) =~= seq![w]);
    }
}

/// White space separates: the words of `a`, a space and `b` are those of `a`
/// followed by those of `b`.
pub proof fn lemma_words_concat(a: Seq<char>, sp: char, b: Seq<char>)
    requires
        is_space(sp),
    ensures
        words(a.push(sp) + b) == words(a) + words(b),
    decreases b.len(),
{
    let s = a.push(sp) + b;
    if b.len() == 0 {
        assert(s =~= a.push(sp));
        assert(s.drop_last() =~= a);
        assert(words(a) + words(b) =~= words(a));
    } else {
        let d = b.drop_last();
        lemma_words_concat(a, sp, d);
        assert(s.drop_last() =~= a.push(sp) + d);
        assert(s.last() == b.last());
        if b.len() >= 2 {
            assert(s[s.len() - 2] == b[b.len() - 2]);
        } else {
            assert(s[s.len() - 2] == sp);
        }
        if is_space(b.last()) {
        } else if b.len() >= 2 && !is_space(b[b.len() - 2]) {
            lemma_words_nonempty(d);
            assert(words(s) =~= words(a) + words(b));
        } else {
            assert(words(s) =~= words(a) + words(b));
        }
    }
}

/// `split_whitespace`, collected: the words of `s`.
pub fn split_words(s: &str) -> (r: Vec<String>)
    ensures
        texts(r@) == words(s@),
{
    let v = chars_of(s);
    let mut r: Vec<String> = Vec::new();
    let mut i: usize = 0;
    assert(texts(r@) =~= words(v@.take(0)));
    while i < v.len()
        invariant
            i <= v@.len(),
            v@ == s@,
            texts(r@) == words(v@.take(i as int)),
        decreases v.len() - i,
    {
        let c = v[i];
        let ghost now = v@.take(i + 1);
        let ghost done = texts(r@);
        assert(now.drop_last() =~= v@.take(i as int));
        assert(now.last() == c);
        if !is_whitespace(c) {
            if i > 0 && !is_whitespace(v[i - 1]) {
                proof {
                    assert(v@.take(i as int).last() == v@[i - 1]);
                    lemma_words_nonempty(v@.take(i as int));
                }
                let n = r.len();
                let mut w = r[n - 1].clone();
                w.push(c);
                r.set(n - 1, w);
                assert(now[now.len() - 2] == v@[i - 1]);
                assert(texts(r@) =~= done.update(n - 1, done.last().push(c)));
            } else {
                let mut w = String::new();
                w.push(c);
                r.push(w);
                assert(w@ =~= seq![c]);
                assert(i > 0 ==> now[now.len() - 2] == v@[i - 1]);
                assert(texts(r@) =~= done.push(seq![c]));
            }
        }
        i += 1;
    }
    assert(v@.take(i as int) =~= s@);
    r
}

// ---- separators ------------------------------------------------------------

/// The pieces of `s` between the occurrences of `sep`: one more than there are
/// occurrences, so at least one.
pub open spec fn pieces(s: Seq<char>, sep: char) -> Seq<Seq<char>>
    decreases s.len(),
{
    if s.len() == 0 {
        seq![Seq::empty()]
    } else {
        let before = pieces(s.drop_last(), sep);
        if s.last() == sep {
            before.push(Seq::empty())
        } else {
            before.update(before.len() - 1, before.last().push(s.last()))
        }
    }
}

/// The texts in `parts` with `sep` between each two of them.
pub open spec fn joined(parts: Seq<Seq<char>>, sep: char) -> Seq<char>
    decreases parts.len(),
{
    if parts.len() == 0 {
        Seq::empty()
    } else if parts.len() == 1 {
        parts[0]
    } else {
        joined(parts.drop_last(), sep).push(sep) + parts.last()
    }
}

/// `split`, collected: the pieces of `s` between the occurrences of `sep`.
pub fn split_on(s: &str, sep: char) -> (r: Vec<String>)
    ensures
        texts(r@) == pieces(s@, sep),
        r@.len() > 0,
{
    let v = chars_of(s);
    let mut r: Vec<String> = Vec::new();
    let mut cur = String::new();
    let mut i: usize = 0;
    assert(texts(r@).push(cur@) =~= pieces(v@.take(0), sep));
    while i < v.len()
        invariant
            i <= v@.len(),
            v@ == s@,
            texts(r@).push(cur@) == pieces(v@.take(i as int), sep),
        decreases v.len() - i,
    {
        let c = v[i];
        let ghost now = v@.take(i + 1);
        let ghost before = texts(r@).push(cur@);
        assert(now.drop_last() =~= v@.take(i as int));
        if c == sep {
            let ghost done = cur@;
            r.push(cur);
            cur = String::new();
            assert(texts(r@) =~= before);
        } else {
            cur.push(c);
            assert(before.last().push(c) == cur@);
            assert(texts(r@).push(cur@) =~= before.update(before.len() - 1, cur@));
        }
        i += 1;
    }
    let ghost before = texts(r@).push(cur@);
    r.push(cur);
    assert(texts(r@) =~= before);
    assert(v@.take(i as int) =~= s@);
    r
}

/// `join`: the strings with `sep` between each two of them.
pub fn join_with(parts: &Vec<String>, sep: char) -> (r: String)
    ensures
        r@ == joined(texts(parts@), sep),
{
    let mut r = String::new();
    let mut i: usize = 0;
    let ghost all = texts(parts@);
    assert(r@ =~= joined(all.take(0), sep));
    while i < parts.len()
        invariant
            i <= parts@.len(),
            all == texts(parts@),
            r@ == joined(all.take(i as int), sep),
        decreases parts.len() - i,
    {
        let ghost before = r@;
        if i > 0 {
            r.push(sep);
        }
        r.append(parts[i].as_str());
        proof {
            let now = all.take(i + 1);
            assert(now.drop_last() =~= all.take(i as int));
            assert(now.last() == parts@[i as int]@);
            if i == 0 {
                assert(now.len() == 1);
                assert(before =~= Seq::empty());
                assert(r@ =~= now[0]);
            } else {
                assert(r@ =~= joined(now.drop_last(), sep).push(sep) + now.last());
            }
        }
        i += 1;
    }
    assert(all.take(i as int) =~= all);
    r
}

/// The pieces of a text and those of what follows a separator come one after
/// the other.
pub proof fn lemma_pieces_concat(a: Seq<char>, sep: char, b: Seq<char>)
    ensures
        pieces(a.push(sep) + b, sep) == pieces(a, sep) + pieces(b, sep),
        pieces(a, sep).len() > 0,
    decreases b.len(),
{
    lemma_pieces_nonempty(a, sep);
    let s = a.push(sep) + b;
    if b.len() == 0 {
        assert(s =~= a.push(sep));
        assert(s.drop_last() =~= a);
        assert(pieces(s, sep) =~= pieces(a, sep) + pieces(b, sep));
    } else {
        let d = b.drop_last();
        lemma_pieces_nonempty(d, sep);
        lemma_pieces_concat(a, sep, d);
        assert(s.drop_last() =~= a.push(sep) + d);
        assert(s.last() == b.last());
        assert(pieces(s, sep) =~= pieces(a, sep) + pieces(b, sep));
    }
}

/// There is at least one piece.
pub proof fn lemma_pieces_nonempty(s: Seq<char>, sep: char)
    ensures
        pieces(s, sep).len() > 0,
    decreases s.len(),
{
    if s.len() > 0 {
        lemma_pieces_nonempty(s.drop_last(), sep);
    }
}

/// A text without the separator is its only piece.
pub proof fn lemma_pieces_single(s: Seq<char>, sep: char)
    requires
        !s.contains(sep),
    ensures
        pieces(s, sep) == seq![s],
    decreases s.len(),
{
    if s.len() == 0 {
        assert(s =~= Seq::empty());
    } else {
        let d = s.drop_last();
        assert forall|i: int| 0 <= i < d.len() implies d[i] != sep by {
            assert(s[i] == d[i]);
            assert(s.contains(s[i]));
        }
        lemma_pieces_single(d, sep);
        assert(s.contains(s.last()));
        assert(d.push(s.last()) =~= s);
        assert(pieces(s, sep) =~= seq![s]);
    }
}

/// No piece contains the separator.
pub proof fn lemma_pieces_free(s: Seq<char>, sep: char)
    ensures
        forall|i: int| 0 <= i < pieces(s, sep).len() ==> !(#[trigger] pieces(s, sep)[i]).contains(sep),
    decreases s.len(),
{
    if s.len() > 0 {
        let d = s.drop_last();
        lemma_pieces_free(d, sep);
        lemma_pieces_nonempty(d, sep);
        let before = pieces(d, sep);
        assert forall|i: int| 0 <= i < pieces(s, sep).len() implies !(#[trigger] pieces(
            s,
            sep,
        )[i]).contains(sep) by {
            if s.last() != sep && i == before.len() - 1 {
                let p = before.last();
                assert(!before[i].contains(sep));
                let q = p.push(s.last());
                if q.contains(sep) {
                    let k = choose|k: int| 0 <= k < q.len() && q[k] == sep;
                    assert(p[k] == sep);
                }
            }
        }
    }
}

/// Splitting undoes joining, for parts that do not contain the separator.
pub proof fn lemma_split_join(parts: Seq<Seq<char>>, sep: char)
    requires
        parts.len() > 0,
        forall|i: int| 0 <= i < parts.len() ==> !(#[trigger] parts[i]).contains(sep),
    ensures
        pieces(joined(parts, sep), sep) == parts,
    decreases parts.len(),
{
    let last = parts.last();
    lemma_pieces_single(last, sep);
    if parts.len() == 1 {
        assert(parts =~= seq![last]);
    } else {
        let d = parts.drop_last();
        assert forall|i: int| 0 <= i < d.len() implies !(#[trigger] d[i]).contains(sep) by {
            assert(d[i] == parts[i]);
        }
        lemma_split_join(d, sep);
        lemma_pieces_concat(joined(d, sep), sep, last);
        assert(parts =~= d + seq![last]);
    }
}

/// Joining undoes splitting.
pub proof fn lemma_join_split(s: Seq<char>, sep: char)
    ensures
        joined(pieces(s, sep), sep) == s,
    decreases s.len(),
{
    if s.len() > 0 {
        let d = s.drop_last();
        lemma_join_split(d, sep);
        lemma_pieces_nonempty(d, sep);
        let p = pieces(d, sep);
        let q = pieces(s, sep);
        if s.last() == sep {
            assert(q.drop_last() =~= p);
            assert(joined(q, sep) =~= s);
        } else if p.len() == 1 {
            assert(q[0] == p[0].push(s.last()));
            assert(joined(q, sep) =~= s);
        } else {
            assert(q.drop_last() =~= p.drop_last());
            assert(q.last() == p.last().push(s.last()));
            assert(joined(p, sep) == joined(p.drop_last(), sep).push(sep) + p.last());
            assert(d.push(s.last()) =~= s);
            assert(joined(q, sep) =~= d.push(s.last()));
        }
    } else {
        assert(joined(pieces(s, sep), sep) =~= s);
    }
}

/// The words of words joined by spaces are those words.
pub proof fn lemma_words_joined(parts: Seq<Seq<char>>)
    requires
        forall|i: int| 0 <= i < parts.len() ==> is_word(#[trigger] parts[i]),
    ensures
        words(joined(parts, ' ')) == parts,
    decreases parts.len(),
{
    if parts.len() == 0 {
        assert(words(joined(parts, ' ')) =~= parts);
    } else {
        let last = parts.last();
        lemma_words_of_word(last);
        if parts.len() == 1 {
            assert(parts =~= seq![last]);
        } else {
            let d = parts.drop_last();
            assert forall|i: int| 0 <= i < d.len() implies is_word(#[trigger] d[i]) by {
                assert(d[i] == parts[i]);
            }
            lemma_words_joined(d);
            lemma_words_concat(joined(d, ' '), ' ', last);
            assert(parts =~= d + seq![last]);
        }
    }
}

// ---- prefixes and suffixes -------------------------------------------------

/// Whether `s` begins with `prefix`.
pub open spec fn has_prefix(s: Seq<char>, prefix: Seq<char>) -> bool {
    prefix.len() <= s.len() && s.take(prefix.len() as int) == prefix
}

/// What follows `prefix` in `s`, if `s` begins with it.
pub open spec fn stripped_prefix(s: Seq<char>, prefix: Seq<char>) -> Option<Seq<char>> {
    if has_prefix(s, prefix) {
        Some(s.skip(prefix.len() as int))
    } else {
        None
    }
}

/// `s` without the `q`s it starts with.
pub open spec fn trim_start_char(s: Seq<char>, q: char) -> Seq<char>
    decreases s.len(),
{
    if s.len() > 0 && s[0] == q {
        trim_start_char(s.drop_first(), q)
    } else {
        s
    }
}

/// `s` without the `q`s it ends in.
pub open spec fn trim_end_char(s: Seq<char>, q: char) -> Seq<char>
    decreases s.len(),
{
    if s.len() > 0 && s.last() == q {
        trim_end_char(s.drop_last(), q)
    } else {
        s
    }
}

/// `s` without the `q`s at both its ends.
pub open spec fn trimmed_char(s: Seq<char>, q: char) -> Seq<char> {
    trim_end_char(trim_start_char(s, q), q)
}

/// What follows `prefix` in the first of `parts` that begins with it.
pub open spec fn first_value(parts: Seq<Seq<char>>, prefix: Seq<char>) -> Option<Seq<char>>
    decreases parts.len(),
{
    if parts.len() == 0 {
        None
    } else {
        match first_value(parts.drop_last(), prefix) {
            Some(v) => Some(v),
            None => stripped_prefix(parts.last(), prefix),
        }
    }
}

/// An optional owned string, as an optional text.
pub open spec fn opt_text(s: Option<String>) -> Option<Seq<char>> {
    match s {
        Some(t) => Some(t@),
        None => None,
    }
}

/// `starts_with`: whether `s` begins with `prefix`.
pub fn starts_with(s: &str, prefix: &str) -> (r: bool)
    ensures
        r == has_prefix(s@, prefix@),
{
    let n: usize = prefix.unicode_len();
    if s.unicode_len() < n {
        return false;
    }
    let head = s.substring_char(0, n);
    assert(head@ =~= s@.take(n as int));
    str_eq(head, prefix)
}

/// `strip_prefix`: what follows `prefix` in `s`, if `s` begins with it.
pub fn strip_prefix(s: &str, prefix: &str) -> (r: Option<String>)
    ensures
        opt_text(r) == stripped_prefix(s@, prefix@),
{
    if starts_with(s, prefix) {
        let rest = s.substring_char(prefix.unicode_len(), s.unicode_len());
        assert(rest@ =~= s@.skip(prefix@.len() as int));
        Some(rest.to_owned())
    } else {
        None
    }
}

/// `trim_matches` with one character: the string without the `q`s at its ends.
pub fn trim_char(s: &str, q: char) -> (r: String)
    ensures
        r@ == trimmed_char(s@, q),
{
    let v = chars_of(s);
    let mut a: usize = 0;
    assert(v@.skip(0) =~= v@);
    while a < v.len() && v[a] == q
        invariant
            a <= v@.len(),
            trim_start_char(v@, q) == trim_start_char(v@.skip(a as int), q),
        decreases v.len() - a,
    {
        assert(v@.skip(a as int).drop_first() =~= v@.skip(a + 1));
        a += 1;
    }
    let mut b: usize = v.len();
    let ghost t = v@.skip(a as int);
    assert(trim_start_char(v@, q) == t);
    assert(t.take(b - a) =~= t);
    while a < b && v[b - 1] == q
        invariant
            a <= b <= v@.len(),
            t == v@.skip(a as int),
            trim_end_char(t, q) == trim_end_char(t.take(b - a), q),
        decreases b - a,
    {
        assert(t.take(b - a).drop_last() =~= t.take(b - a - 1));
        assert(t.take(b - a).last() == v@[b - 1]);
        b -= 1;
    }
    assert(a < b ==> t.take(b - a).last() == v@[b - 1]);
    assert(t.take(b - a) =~= v@.subrange(a as int, b as int));
    string_of(&v, a, b)
}

/// What follows `prefix` in the first of `parts` that begins with it.
pub fn find_value(parts: &Vec<String>, prefix: &str) -> (r: Option<String>)
    ensures
        opt_text(r) == first_value(texts(parts@), prefix@),
{
    let ghost all = texts(parts@);
    let mut i: usize = 0;
    while i < parts.len()
        invariant
            i <= parts@.len(),
            all == texts(parts@),
            first_value(all.take(i as int), prefix@) is None,
        decreases parts.len() - i,
    {
        let found = strip_prefix(parts[i].as_str(), prefix);
        proof {
            assert(all.take(i + 1).drop_last() =~= all.take(i as int));
            assert(all.take(i + 1).last() == parts@[i as int]@);
            if found is Some {
                lemma_first_value_prefix(all, prefix@, i + 1);
            }
        }
        if found.is_some() {
            return found;
        }
        i += 1;
    }
    assert(all.take(i as int) =~= all);
    None
}

/// A value found among the first parts is the value found among all of them.
pub proof fn lemma_first_value_prefix(parts: Seq<Seq<char>>, prefix: Seq<char>, n: int)
    requires
        0 <= n <= parts.len(),
        first_value(parts.take(n), prefix) is Some,
    ensures
        first_value(parts, prefix) == first_value(parts.take(n), prefix),
    decreases parts.len(),
{
    if n < parts.len() {
        assert(parts.drop_last().take(n) =~= parts.take(n));
        lemma_first_value_prefix(parts.drop_last(), prefix, n);
    } else {
        assert(parts.take(n) =~= parts);
    }
}

// ---- numbers ---------------------------------------------------------------

/// The character for a digit below sixteen: `0` to `9`, then `a` to `f`.
pub open spec fn digit(d: int) -> char {
    if d < 10 {
        ((('0' as u32) + d) as u32) as char
    } else {
        ((('a' as u32) + d - 10) as u32) as char
    }
}

/// The digits of `n` in the given base, without leading zeros.
pub open spec fn number(n: nat, base: nat) -> Seq<char>
    decreases n,
    when base >= 2
{
    if n < base {
        seq![digit(n as int)]
    } else {
        proof {
            assert(n / base < n) by (nonlinear_arith)
                requires
                    n >= base,
                    base >= 2,
            ;
        }
        number(n / base, base).push(digit((n % base) as int))
    }
}

/// The character for a digit below sixteen.
pub fn hex_nibble(n: u8) -> (r: char)
    requires
        n < 16,
    ensures
        r == digit(n as int),
{
    if n < 10 {
        (48 + n) as char
    } else {
        (97 + (n - 10)) as char
    }
}

/// `n` in base ten or sixteen.
fn number_text(n: u128, base: u128) -> (r: String)
    requires
        2 <= base <= 16,
    ensures
        r@ == number(n as nat, base as nat),
    decreases n,
{
    if n < base {
        let mut r = String::new();
        r.push(hex_nibble(n as u8));
        assert(r@ =~= number(n as nat, base as nat));
        r
    } else {
        assert(n / base < n) by (nonlinear_arith)
            requires
                n >= base,
                base >= 2,
        ;
        let mut r = number_text(n / base, base);
        assert(n % base < base) by (nonlinear_arith)
            requires
                base >= 2,
        ;
        r.push(hex_nibble((n % base) as u8));
        r
    }
}

/// `n` in decimal.
pub fn decimal(n: usize) -> (r: String)
    ensures
        r@ == number(n as nat, 10),
{
    number_text(n as u128, 10)
}

/// `n` in lower-case hexadecimal.
pub fn hexadecimal(n: u128) -> (r: String)
    ensures
        r@ == number(n as nat, 16),
{
    number_text(n, 16)
}

/// One text behind another.
pub fn concat(a: &str, b: &str) -> (r: String)
    ensures
        r@ == a@ + b@,
{
    let mut r = a.to_owned();
    r.append(b);
    r
}

/// Whether two lists hold the same texts in the same order.
pub fn all_eq(a: &Vec<String>, b: &Vec<String>) -> (r: bool)
    ensures
        r == (texts(a@) == texts(b@)),
{
    if a.len() != b.len() {
        assert(texts(a@).len() != texts(b@).len());
        return false;
    }
    let mut i: usize = 0;
    while i < a.len()
        invariant
            i <= a@.len(),
            a@.len() == b@.len(),
            forall|j: int| 0 <= j < i ==> (#[trigger] a@[j])@ == b@[j]@,
        decreases a.len() - i,
    {
        if !str_eq(a[i].as_str(), b[i].as_str()) {
            assert(texts(a@)[i as int] != texts(b@)[i as int]);
            return false;
        }
        i += 1;
    }
    assert(texts(a@) =~= texts(b@));
    true
}

/// Byte positions grow with character positions.
pub proof fn lemma_byte_len_grows(s: Seq<char>, a: int, b: int)
    requires
        0 <= a <= b <= s.len(),
    ensures
        byte_len(s, a) <= byte_len(s, b),
{
    assert(s.take(b) =~= s.take(a) + s.subrange(a, b));
    lemma_encode_concat(s.take(a), s.subrange(a, b));
}

} // verus!
