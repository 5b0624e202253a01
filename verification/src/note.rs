//! A task's notes folder: the `notes:<id>/` token that links it, where it lies,
//! what it lists, and what a new note starts out with.
use crate::path;
use crate::text;
use crate::todo::Task;
use vstd::prelude::*;

verus! {

/// Subdirectory of the notes directory that holds the tasks' folders.
pub const NOTES_TASKS_SUBDIR: &'static str = "tasks";

/// Subdirectory of the notes directory that unlinked notes move to.
pub const NOTES_UNLINKED_SUBDIR: &'static str = "unlinked";

/// The notes folder of a task.
#[derive(Debug, Clone, PartialEq, Eq)]
pub struct NotesFolder {
    /// The folder's id, as in the task's `notes:<id>/` token.
    pub id: String,
    /// The folder's path: `<notes dir>/tasks/<id>`.
    pub dir: String,
    /// Whether the task already had a `notes:` token.
    pub existed_in_task: bool,
}

/// A notes folder, as values.
pub struct FolderView {
    pub id: Seq<char>,
    pub dir: Seq<char>,
    pub existed_in_task: bool,
}

impl View for NotesFolder {
    type V = FolderView;

    open spec fn view(&self) -> FolderView {
        FolderView { id: self.id@, dir: self.dir@, existed_in_task: self.existed_in_task }
    }
}

impl NotesFolder {
    /// The same folder.
    pub fn copy(&self) -> (r: NotesFolder)
        ensures
            r@ == self@,
    {
        NotesFolder {
            id: self.id.clone(),
            dir: self.dir.clone(),
            existed_in_task: self.existed_in_task,
        }
    }
}

// ---- the notes directory -----------------------------------------------------

/// What the environment says of the notes directory.
#[derive(Debug, Clone, PartialEq, Eq)]
pub struct NotesEnv {
    /// The variable `NOTES_DIR`.
    pub notes_dir: Option<String>,
    /// The variable `HOME`.
    pub home: Option<String>,
}

/// A configured directory with its leading `~` replaced by the home directory,
/// where there is one.
pub open spec fn expanded_dir(value: Seq<char>, home: Option<Seq<char>>) -> Seq<char> {
    match home {
        Some(h) => if value == "~"@ {
            h
        } else {
            match text::stripped_prefix(value, "~/"@) {
                Some(rest) => path::joined_path(h, rest),
                None => value,
            }
        },
        None => value,
    }
}

/// The notes directory: the configured one unless it is blank, else that of the
/// environment, else `notes` in the home directory, else `notes`.
pub open spec fn chosen_dir(
    configured: Option<Seq<char>>,
    env_dir: Option<Seq<char>>,
    home: Option<Seq<char>>,
) -> Seq<char> {
    if configured is Some && text::trimmed(configured->0).len() > 0 {
        expanded_dir(text::trimmed(configured->0), home)
    } else if env_dir is Some {
        env_dir->0
    } else if home is Some {
        path::joined_path(home->0, "notes"@)
    } else {
        "notes"@
    }
}

fn expand_note_dir(value: &str, env: &NotesEnv) -> (r: String)
    ensures
        r@ == expanded_dir(value@, text::opt_text(env.home)),
{
    match &env.home {
        Some(home) => {
            if text::str_eq(value, "~") {
                return home.clone();
            }
            match text::strip_prefix(value, "~/") {
                Some(rest) => path::join(home.as_str(), rest.as_str()),
                None => value.to_owned(),
            }
        },
        None => value.to_owned(),
    }
}

/// The notes directory for a configured value and an environment.
pub fn notes_dir_from_config(configured: Option<&str>, env: &NotesEnv) -> (r: String)
    ensures
        r@ == chosen_dir(
            match configured {
                Some(v) => Some(v@),
                None => None,
            },
            text::opt_text(env.notes_dir),
            text::opt_text(env.home),
        ),
{
    if let Some(value) = configured {
        let value = text::trim(value);
        if !value.as_str().is_empty() {
            return expand_note_dir(value.as_str(), env);
        }
    }
    if let Some(dir) = &env.notes_dir {
        return dir.clone();
    }
    if let Some(home) = &env.home {
        return path::join(home.as_str(), "notes");
    }
    "notes".to_owned()
}

// ---- the notes token ----------------------------------------------------------

/// The value of the first `prefix` token of a line.
pub open spec fn token_value(raw: Seq<char>, prefix: Seq<char>) -> Option<Seq<char>> {
    text::first_value(text::words(raw), prefix)
}

/// The id that the value of a `notes:` token names: it may be quoted, it ends
/// in a slash, and it is not empty.
pub open spec fn id_of_value(value: Seq<char>) -> Option<Seq<char>> {
    let v = text::trimmed_char(value, '"');
    if v.len() > 1 && v.last() == '/' {
        Some(v.drop_last())
    } else {
        None
    }
}

/// The id that a word names: that of a `notes:<id>/` token.
pub open spec fn id_of_word(word: Seq<char>) -> Option<Seq<char>> {
    match text::stripped_prefix(word, "notes:"@) {
        Some(v) => id_of_value(v),
        None => None,
    }
}

/// The id that the first `notes:<id>/` token among words names.
pub open spec fn first_id(words: Seq<Seq<char>>) -> Option<Seq<char>>
    decreases words.len(),
{
    if words.len() == 0 {
        None
    } else {
        match first_id(words.drop_last()) {
            Some(id) => Some(id),
            None => id_of_word(words.last()),
        }
    }
}

/// The id in the first `notes:<id>/` token of a line. A word that begins like
/// one but names no id is passed over.
pub open spec fn notes_id(raw: Seq<char>) -> Option<Seq<char>> {
    first_id(text::words(raw))
}

/// The path that a word names: that of a legacy `note:<path>` token.
pub open spec fn rel_of_word(word: Seq<char>) -> Option<Seq<char>> {
    match text::stripped_prefix(word, "note:"@) {
        Some(v) => {
            let rel = text::trimmed_char(v, '"');
            if rel.len() > 0 {
                Some(rel)
            } else {
                None
            }
        },
        None => None,
    }
}

/// The path that the first legacy token among words names.
pub open spec fn first_rel(words: Seq<Seq<char>>) -> Option<Seq<char>>
    decreases words.len(),
{
    if words.len() == 0 {
        None
    } else {
        match first_rel(words.drop_last()) {
            Some(rel) => Some(rel),
            None => rel_of_word(words.last()),
        }
    }
}

/// The path in the first legacy `note:<path>` token of a line.
pub open spec fn legacy_rel(raw: Seq<char>) -> Option<Seq<char>> {
    first_rel(text::words(raw))
}

fn word_id(word: &str) -> (r: Option<String>)
    ensures
        text::opt_text(r) == id_of_word(word@),
{
    match text::strip_prefix(word, "notes:") {
        Some(value) => {
            let v = text::trim_char(value.as_str(), '"');
            let n: usize = v.as_str().unicode_len();
            if n > 1 && v.as_str().get_char(n - 1) == '/' {
                let id = v.as_str().substring_char(0, n - 1);
                assert(id@ =~= v@.drop_last());
                Some(id.to_owned())
            } else {
                None
            }
        },
        None => None,
    }
}

fn word_rel(word: &str) -> (r: Option<String>)
    ensures
        text::opt_text(r) == rel_of_word(word@),
{
    match text::strip_prefix(word, "note:") {
        Some(value) => {
            let rel = text::trim_char(value.as_str(), '"');
            if rel.as_str().is_empty() {
                None
            } else {
                Some(rel)
            }
        },
        None => None,
    }
}

/// The id in a line's `notes:<id>/` token, if it has one.
pub fn notes_id_from_raw(raw: &str) -> (r: Option<String>)
    ensures
        text::opt_text(r) == notes_id(raw@),
{
    let words = text::split_words(raw);
    let ghost all = text::texts(words@);
    let mut found: Option<String> = None;
    let mut i: usize = 0;
    while i < words.len()
        invariant
            i <= words@.len(),
            all == text::texts(words@),
            text::opt_text(found) == first_id(all.take(i as int)),
        decreases words.len() - i,
    {
        assert(all.take(i + 1).drop_last() =~= all.take(i as int));
        assert(all.take(i + 1).last() == words@[i as int]@);
        if found.is_none() {
            found = word_id(words[i].as_str());
        }
        i += 1;
    }
    assert(all.take(i as int) =~= all);
    found
}

/// The path in a line's legacy `note:<path>` token, if it has one.
pub fn legacy_note_rel_from_raw(raw: &str) -> (r: Option<String>)
    ensures
        text::opt_text(r) == legacy_rel(raw@),
{
    let words = text::split_words(raw);
    let ghost all = text::texts(words@);
    let mut found: Option<String> = None;
    let mut i: usize = 0;
    while i < words.len()
        invariant
            i <= words@.len(),
            all == text::texts(words@),
            text::opt_text(found) == first_rel(all.take(i as int)),
        decreases words.len() - i,
    {
        assert(all.take(i + 1).drop_last() =~= all.take(i as int));
        assert(all.take(i + 1).last() == words@[i as int]@);
        if found.is_none() {
            found = word_rel(words[i].as_str());
        }
        i += 1;
    }
    assert(all.take(i as int) =~= all);
    found
}

/// The token that links a folder to its task.
pub open spec fn link_token(id: Seq<char>) -> Seq<char> {
    ("notes:"@ + id).push('/')
}

/// The token that links a folder to its task: `notes:<id>/`.
pub fn notes_token(id: &str) -> (r: String)
    ensures
        r@ == link_token(id@),
{
    let mut r = "notes:".to_owned();
    r.append(id);
    r.push('/');
    r
}

/// Whether a word is a legacy token for `rel`.
pub open spec fn legacy_word(word: Seq<char>, rel: Seq<char>) -> bool {
    match text::stripped_prefix(word, "note:"@) {
        Some(v) => text::trimmed_char(v, '"') == rel,
        None => false,
    }
}

/// The words of a line but for its legacy tokens for `rel`.
pub open spec fn without_legacy(words: Seq<Seq<char>>, rel: Seq<char>) -> Seq<Seq<char>> {
    words.filter(|w: Seq<char>| !legacy_word(w, rel))
}

/// A line with its legacy tokens for `rel` replaced by the link to folder `id`.
pub open spec fn migrated_line(raw: Seq<char>, rel: Seq<char>, id: Seq<char>) -> Seq<char> {
    text::joined(without_legacy(text::words(raw), rel), ' ').push(' ') + link_token(id)
}

/// The line with its legacy tokens for `rel` dropped and the link to folder `id`
/// at its end.
pub fn migrated_raw(raw: &str, rel: &str, id: &str) -> (r: String)
    ensures
        r@ == migrated_line(raw@, rel@, id@),
{
    let words = text::split_words(raw);
    let mut kept: Vec<String> = Vec::new();
    let ghost all = text::texts(words@);
    let ghost keep = |w: Seq<char>| !legacy_word(w, rel@);
    let mut i: usize = 0;
    assert(text::texts(kept@) =~= all.take(0).filter(keep)) by {
        reveal(Seq::filter);
    }
    while i < words.len()
        invariant
            i <= words@.len(),
            all == text::texts(words@),
            all == text::words(raw@),
            keep == (|w: Seq<char>| !legacy_word(w, rel@)),
            text::texts(kept@) == all.take(i as int).filter(keep),
        decreases words.len() - i,
    {
        let word = words[i].as_str();
        let legacy = match text::strip_prefix(word, "note:") {
            Some(v) => text::str_eq(text::trim_char(v.as_str(), '"').as_str(), rel),
            None => false,
        };
        let ghost before = text::texts(kept@);
        if !legacy {
            kept.push(word.to_owned());
            assert(text::texts(kept@) =~= before.push(word@));
        }
        proof {
            reveal(Seq::filter);
            assert(all.take(i + 1).drop_last() =~= all.take(i as int));
            assert(all.take(i + 1).last() == word@);
        }
        i += 1;
    }
    assert(all.take(i as int) =~= all);
    let mut r = text::join_with(&kept, ' ');
    r.push(' ');
    r.append(notes_token(id).as_str());
    r
}

// ---- ids and folders ----------------------------------------------------------

/// `getrandom::Error`: why the system gave no random bytes.
#[verifier::external_type_specification]
#[verifier::external_body]
pub struct ExGetrandomError(getrandom::Error);

/// `getrandom::getrandom`: the slice is filled with random bytes from the
/// system, or an error says that it was not. Its length stays; nothing is said
/// of the bytes, nor of when the call fails.
pub assume_specification[ getrandom::getrandom ](dest: &mut [u8]) -> (r: Result<
    (),
    getrandom::Error,
>)
    ensures
        final(dest)@.len() == old(dest)@.len(),
;

/// Bytes in hexadecimal, two digits each.
pub open spec fn hex_text(bytes: Seq<u8>) -> Seq<char>
    decreases bytes.len(),
{
    if bytes.len() == 0 {
        Seq::empty()
    } else {
        hex_text(bytes.drop_last()).push(text::digit(bytes.last() as int / 16)).push(
            text::digit(bytes.last() as int % 16),
        )
    }
}

/// Bytes in hexadecimal, two lower-case digits each.
pub fn hex_encode(bytes: &Vec<u8>) -> (r: String)
    ensures
        r@ == hex_text(bytes@),
{
    let mut out = String::new();
    let mut i: usize = 0;
    assert(bytes@.take(0) =~= Seq::empty());
    while i < bytes.len()
        invariant
            i <= bytes@.len(),
            out@ == hex_text(bytes@.take(i as int)),
        decreases bytes.len() - i,
    {
        let b: u8 = bytes[i];
        assert(b >> 4 == b / 16 && b & 0xf == b % 16) by (bit_vector);
        assert(b / 16 < 16 && b % 16 < 16);
        out.push(text::hex_nibble(b >> 4));
        out.push(text::hex_nibble(b & 0xf));
        assert(bytes@.take(i + 1).drop_last() =~= bytes@.take(i as int));
        i += 1;
    }
    assert(bytes@.take(i as int) =~= bytes@);
    out
}

/// The id made of a clock reading and a counter, both in hexadecimal.
pub open spec fn clock_id(nanos: u128, counter: u64) -> Seq<char> {
    text::number(nanos as nat, 16) + text::number(counter as nat, 16)
}

/// The id made of a clock reading and a counter, for when there are no random
/// bytes.
pub fn fallback_notes_id(nanos: u128, counter: u64) -> (r: String)
    ensures
        r@ == clock_id(nanos, counter),
{
    let mut r = text::hexadecimal(nanos);
    r.append(text::hexadecimal(counter as u128).as_str());
    r
}

/// An id that `generate_notes_id` may give: eight random bytes in hexadecimal,
/// or the clock's id.
pub open spec fn fresh_id(id: Seq<char>, nanos: u128, counter: u64) -> bool {
    id == clock_id(nanos, counter) || exists|bytes: Seq<u8>|
        bytes.len() == 8 && id == #[trigger] hex_text(bytes)
}

/// The id made of random bytes where there are any, else of the clock.
pub fn id_from_entropy(entropy: Option<Vec<u8>>, nanos: u128, counter: u64) -> (r: String)
    ensures
        r@ == match entropy {
            Some(bytes) => hex_text(bytes@),
            None => clock_id(nanos, counter),
        },
{
    match entropy {
        Some(bytes) => hex_encode(&bytes),
        None => fallback_notes_id(nanos, counter),
    }
}

/// A new id for a task's notes folder, which depends on nothing in the task:
/// sixteen hexadecimal digits of random bytes from the system. Where the system
/// has none, the id is made of the caller's clock reading and counter.
pub fn generate_notes_id(nanos: u128, counter: u64) -> (r: String)
    ensures
        fresh_id(r@, nanos, counter),
{
    let mut bytes: Vec<u8> = vec![0, 0, 0, 0, 0, 0, 0, 0];
    assert(bytes@.len() == 8);
    let filled = getrandom::getrandom(bytes.as_mut_slice()).is_ok();
    if filled {
        id_from_entropy(Some(bytes), nanos, counter)
    } else {
        id_from_entropy(None, nanos, counter)
    }
}

/// Where the folder with an id lies.
pub open spec fn folder_path(notes_dir: Seq<char>, id: Seq<char>) -> Seq<char> {
    path::joined_path(path::joined_path(notes_dir, NOTES_TASKS_SUBDIR@), id)
}

fn folder_path_for_id(notes_dir: &str, id: &str) -> (r: String)
    ensures
        r@ == folder_path(notes_dir@, id@),
{
    path::join(path::join(notes_dir, NOTES_TASKS_SUBDIR).as_str(), id)
}

/// The notes folder of a task: that of its `notes:` token, or a new one that it
/// is not linked to yet. Nothing is created.
pub fn folder_for_task(task: &Task, notes_dir: &str, nanos: u128, counter: u64) -> (r: NotesFolder)
    ensures
        r@.dir == folder_path(notes_dir@, r@.id),
        r@.existed_in_task == (notes_id(task.raw@) is Some),
        match notes_id(task.raw@) {
            Some(id) => r@.id == id,
            None => fresh_id(r@.id, nanos, counter),
        },
{
    match notes_id_from_raw(task.raw.as_str()) {
        Some(id) => {
            let dir = folder_path_for_id(notes_dir, id.as_str());
            NotesFolder { id, dir, existed_in_task: true }
        },
        None => {
            let id = generate_notes_id(nanos, counter);
            let dir = folder_path_for_id(notes_dir, id.as_str());
            NotesFolder { id, dir, existed_in_task: false }
        },
    }
}

// ---- files in a folder ----------------------------------------------------------

/// Whether a file name has the extension `md`.
pub open spec fn is_note_name(name: Seq<char>) -> bool {
    name.len() > 3 && name.skip(name.len() - 3) == ".md"@
}

/// Whether `a` comes before `b`, or is `b`, character by character.
pub open spec fn text_le(a: Seq<char>, b: Seq<char>) -> bool
    decreases a.len(),
{
    if a.len() == 0 {
        true
    } else if b.len() == 0 {
        false
    } else if a[0] == b[0] {
        text_le(a.drop_first(), b.drop_first())
    } else {
        a[0] < b[0]
    }
}

/// `x` put in its place among sorted texts.
pub open spec fn insert_sorted(s: Seq<Seq<char>>, x: Seq<char>) -> Seq<Seq<char>>
    decreases s.len(),
{
    if s.len() == 0 || text_le(s.last(), x) {
        s.push(x)
    } else {
        insert_sorted(s.drop_last(), x).push(s.last())
    }
}

/// The names with the extension `md`, sorted.
pub open spec fn sorted_notes(names: Seq<Seq<char>>) -> Seq<Seq<char>>
    decreases names.len(),
{
    if names.len() == 0 {
        Seq::empty()
    } else {
        let before = sorted_notes(names.drop_last());
        if is_note_name(names.last()) {
            insert_sorted(before, names.last())
        } else {
            before
        }
    }
}

/// The paths of a folder's notes, sorted by name.
pub open spec fn note_paths(dir: Seq<char>, names: Seq<Seq<char>>) -> Seq<Seq<char>> {
    sorted_notes(names).map_values(|n: Seq<char>| path::joined_path(dir, n))
}

fn has_md_extension(name: &str) -> (r: bool)
    ensures
        r == is_note_name(name@),
{
    let n: usize = name.unicode_len();
    assert(n > 3 ==> name@.subrange(n - 3, n as int) =~= name@.skip(n - 3));
    n > 3 && text::str_eq(name.substring_char(n - 3, n), ".md")
}

fn is_text_le(a: &str, b: &str) -> (r: bool)
    ensures
        r == text_le(a@, b@),
{
    let x = text::chars_of(a);
    let y = text::chars_of(b);
    let mut i: usize = 0;
    assert(x@.skip(0) =~= x@ && y@.skip(0) =~= y@);
    while i < x.len() && i < y.len() && x[i] == y[i]
        invariant
            i <= x@.len(),
            i <= y@.len(),
            text_le(x@, y@) == text_le(x@.skip(i as int), y@.skip(i as int)),
        decreases x.len() - i,
    {
        assert(x@.skip(i as int).drop_first() =~= x@.skip(i + 1));
        assert(y@.skip(i as int).drop_first() =~= y@.skip(i + 1));
        i += 1;
    }
    if i >= x.len() {
        true
    } else if i >= y.len() {
        false
    } else {
        assert(x@.skip(i as int)[0] == x@[i as int] && y@.skip(i as int)[0] == y@[i as int]);
        x[i] < y[i]
    }
}

fn insert_name(sorted: &mut Vec<String>, name: String)
    ensures
        text::texts(final(sorted)@) == insert_sorted(text::texts(old(sorted)@), name@),
{
    let ghost all = text::texts(sorted@);
    let mut i: usize = sorted.len();
    assert(all.take(i as int) =~= all);
    assert(all.skip(i as int) =~= Seq::empty());
    assert(insert_sorted(all.take(i as int), name@) + all.skip(i as int) =~= insert_sorted(
        all,
        name@,
    ));
    while i > 0 && !is_text_le(sorted[i - 1].as_str(), name.as_str())
        invariant
            i <= sorted@.len(),
            all == text::texts(sorted@),
            insert_sorted(all.take(i as int), name@) + all.skip(i as int) == insert_sorted(
                all,
                name@,
            ),
        decreases i,
    {
        proof {
            let t = all.take(i as int);
            assert(t.last() == all[i - 1]);
            assert(t.drop_last() =~= all.take(i - 1));
            assert(insert_sorted(all.take(i - 1), name@) + all.skip(i - 1) =~= insert_sorted(
                t,
                name@,
            ) + all.skip(i as int));
        }
        i -= 1;
    }
    proof {
        let t = all.take(i as int);
        assert(i > 0 ==> t.last() == all[i - 1]);
        assert(t.push(name@) + all.skip(i as int) =~= all.insert(i as int, name@));
    }
    let ghost x = name@;
    sorted.insert(i, name);
    assert(text::texts(sorted@) =~= all.insert(i as int, x));
}

/// The notes among the names of a folder's files, as paths sorted by name. A
/// folder that does not exist has no files.
pub fn list_notes(dir: &str, names: &Vec<String>) -> (r: Vec<String>)
    ensures
        text::texts(r@) == note_paths(dir@, text::texts(names@)),
{
    let ghost all = text::texts(names@);
    let mut sorted: Vec<String> = Vec::new();
    let mut i: usize = 0;
    assert(text::texts(sorted@) =~= sorted_notes(all.take(0)));
    while i < names.len()
        invariant
            i <= names@.len(),
            all == text::texts(names@),
            text::texts(sorted@) == sorted_notes(all.take(i as int)),
        decreases names.len() - i,
    {
        assert(all.take(i + 1).drop_last() =~= all.take(i as int));
        assert(all.take(i + 1).last() == names@[i as int]@);
        if has_md_extension(names[i].as_str()) {
            insert_name(&mut sorted, names[i].clone());
        }
        i += 1;
    }
    assert(all.take(i as int) =~= all);
    let ghost notes = text::texts(sorted@);
    let mut r: Vec<String> = Vec::new();
    let mut k: usize = 0;
    while k < sorted.len()
        invariant
            k <= sorted@.len(),
            notes == text::texts(sorted@),
            r@.len() == k,
            forall|j: int| 0 <= j < k ==> (#[trigger] r@[j])@ == path::joined_path(dir@, notes[j]),
        decreases sorted.len() - k,
    {
        r.push(path::join(dir, sorted[k].as_str()));
        k += 1;
    }
    assert(text::texts(r@) =~= note_paths(dir@, all));
    r
}

/// Where a note file goes when it is moved into a folder.
pub open spec fn moved_path(old_path: Seq<char>, new_dir: Seq<char>) -> Option<Seq<char>> {
    match path::path_name(old_path) {
        Some(name) => Some(path::joined_path(new_dir, name)),
        None => None,
    }
}

/// Where a legacy note goes when it is moved into the folder `new_dir`: the
/// same file name there. A path without a file name cannot be moved.
pub fn migrate_legacy_note(old_path: &str, new_dir: &str) -> (r: Result<String, String>)
    ensures
        match (r, moved_path(old_path@, new_dir@)) {
            (Ok(p), Some(q)) => p@ == q,
            (Err(m), None) => m@ == "old_path has no file name"@,
            _ => false,
        },
{
    match path::file_name(old_path) {
        Some(name) => Ok(path::join(new_dir, name.as_str())),
        None => Err("old_path has no file name".to_owned()),
    }
}

/// Where an unlinked note goes in the shared directory of unlinked notes: under
/// its own name, or with the task's id before it where that name is taken.
pub open spec fn unlinked_path(
    notes_dir: Seq<char>,
    name: Seq<char>,
    id: Seq<char>,
    taken: bool,
) -> Seq<char> {
    path::joined_path(
        path::joined_path(notes_dir, NOTES_UNLINKED_SUBDIR@),
        if taken {
            id.push('-') + name
        } else {
            name
        },
    )
}

/// Where a note named `name` goes when it is unlinked from the task with `id`.
pub fn unlink_target(notes_dir: &str, name: &str, id: &str, taken: bool) -> (r: String)
    ensures
        r@ == unlinked_path(notes_dir@, name@, id@, taken),
{
    let dir = path::join(notes_dir, NOTES_UNLINKED_SUBDIR);
    if taken {
        let mut prefixed = id.to_owned();
        prefixed.push('-');
        prefixed.append(name);
        path::join(dir.as_str(), prefixed.as_str())
    } else {
        path::join(dir.as_str(), name)
    }
}

// ---- what a new note starts out with ------------------------------------------------

/// A metadata line, or nothing where there is no value.
pub open spec fn metadata(label: Seq<char>, value: Option<Seq<char>>) -> Seq<char> {
    match value {
        Some(v) => (label + v).push('\n'),
        None => Seq::empty(),
    }
}

/// Tags with their sign before each of them, separated by spaces.
pub open spec fn signed_tags(sign: char, tags: Seq<Seq<char>>) -> Seq<char> {
    text::joined(tags.map_values(|t: Seq<char>| seq![sign] + t), ' ')
}

/// The tags of a task, `None` where it has none.
pub open spec fn tag_list(sign: char, tags: Seq<Seq<char>>) -> Option<Seq<char>> {
    if tags.len() > 0 {
        Some(signed_tags(sign, tags))
    } else {
        None
    }
}

/// The value of the first `key:` token of a line, unless it is empty.
pub open spec fn key_value(raw: Seq<char>, key: Seq<char>) -> Option<Seq<char>> {
    match token_value(raw, key.push(':')) {
        Some(v) => if v.len() > 0 {
            Some(v)
        } else {
            None
        },
        None => None,
    }
}

/// Whether a word is a web address.
pub open spec fn is_url(word: Seq<char>) -> bool {
    text::has_prefix(word, "http://"@) || text::has_prefix(word, "https://"@)
}

/// The first web address among words.
pub open spec fn first_url(words: Seq<Seq<char>>) -> Option<Seq<char>>
    decreases words.len(),
{
    if words.len() == 0 {
        None
    } else {
        match first_url(words.drop_last()) {
            Some(u) => Some(u),
            None => if is_url(words.last()) {
                Some(words.last())
            } else {
                None
            },
        }
    }
}

/// The text that a new note for a task starts out with.
pub open spec fn template(task: Task) -> Seq<char> {
    "# "@ + (if task.body@.len() == 0 {
        "Task"@
    } else {
        task.body@
    }) + "\n\n## Metadata\n\n"@ + metadata(
        "- Priority: "@,
        match task.priority {
            Some(p) => Some(seq![p]),
            None => None,
        },
    ) + metadata("- Created: "@, text::opt_text(task.created_date)) + metadata(
        "- Due: "@,
        text::opt_text(task.due),
    ) + metadata("- Projects: "@, tag_list('+', text::texts(task.projects@))) + metadata(
        "- Contexts: "@,
        tag_list('@', text::texts(task.contexts@)),
    ) + metadata("- ClickUp: "@, key_value(task.raw@, "clickup"@)) + metadata(
        "- ClickUp status: "@,
        key_value(task.raw@, "clickup_status"@),
    ) + metadata("- URL: "@, first_url(text::words(task.raw@)))
        + "\n## Task\n\n```todo.txt\n"@ + task.raw@ + "\n```\n\n## My notes\n\n"@
}

fn append_metadata(out: &mut String, label: &str, value: Option<String>)
    ensures
        final(out)@ == old(out)@ + metadata(label@, text::opt_text(value)),
{
    match value {
        Some(v) => {
            out.append(label);
            out.append(v.as_str());
            out.push('\n');
            assert(out@ =~= old(out)@ + metadata(label@, Some(v@)));
        },
        None => {
            assert(out@ =~= old(out)@ + Seq::<char>::empty());
        },
    }
}

fn kv_from_raw(raw: &str, key: &str) -> (r: Option<String>)
    ensures
        text::opt_text(r) == key_value(raw@, key@),
{
    let mut prefix = key.to_owned();
    prefix.push(':');
    let words = text::split_words(raw);
    match text::find_value(&words, prefix.as_str()) {
        Some(v) => if v.as_str().is_empty() {
            None
        } else {
            Some(v)
        },
        None => None,
    }
}

fn join_tags(sign: char, tags: &Vec<String>) -> (r: Option<String>)
    ensures
        text::opt_text(r) == tag_list(sign, text::texts(tags@)),
{
    if tags.is_empty() {
        return None;
    }
    let ghost all = text::texts(tags@);
    let mut signed: Vec<String> = Vec::new();
    let mut i: usize = 0;
    while i < tags.len()
        invariant
            i <= tags@.len(),
            all == text::texts(tags@),
            signed@.len() == i,
            forall|j: int| 0 <= j < i ==> (#[trigger] signed@[j])@ == seq![sign] + all[j],
        decreases tags.len() - i,
    {
        let mut tag = String::new();
        tag.push(sign);
        tag.append(tags[i].as_str());
        assert(tag@ =~= seq![sign] + tags@[i as int]@);
        signed.push(tag);
        i += 1;
    }
    assert(text::texts(signed@) =~= all.map_values(|t: Seq<char>| seq![sign] + t));
    Some(text::join_with(&signed, ' '))
}

fn find_url(raw: &str) -> (r: Option<String>)
    ensures
        text::opt_text(r) == first_url(text::words(raw@)),
{
    let words = text::split_words(raw);
    let ghost all = text::texts(words@);
    let mut found: Option<String> = None;
    let mut i: usize = 0;
    while i < words.len()
        invariant
            i <= words@.len(),
            all == text::texts(words@),
            text::opt_text(found) == first_url(all.take(i as int)),
        decreases words.len() - i,
    {
        let word = words[i].as_str();
        assert(all.take(i + 1).drop_last() =~= all.take(i as int));
        assert(all.take(i + 1).last() == word@);
        if found.is_none() && (text::starts_with(word, "http://") || text::starts_with(
            word,
            "https://",
        )) {
            found = Some(word.to_owned());
        }
        i += 1;
    }
    assert(all.take(i as int) =~= all);
    found
}

/// The text that a new note for a task starts out with: a title, the task's
/// metadata, the task's line and a heading to write under.
pub fn note_template(task: &Task) -> (r: String)
    ensures
        r@ == template(*task),
{
    let mut out = "# ".to_owned();
    if task.body.as_str().is_empty() {
        out.append("Task");
    } else {
        out.append(task.body.as_str());
    }
    out.append("\n\n## Metadata\n\n");
    let priority = match task.priority {
        Some(p) => {
            let mut t = String::new();
            t.push(p);
            assert(t@ =~= seq![p]);
            Some(t)
        },
        None => None,
    };
    append_metadata(&mut out, "- Priority: ", priority);
    append_metadata(&mut out, "- Created: ", task.created_date.clone());
    append_metadata(&mut out, "- Due: ", task.due.clone());
    append_metadata(&mut out, "- Projects: ", join_tags('+', &task.projects));
    append_metadata(&mut out, "- Contexts: ", join_tags('@', &task.contexts));
    append_metadata(&mut out, "- ClickUp: ", kv_from_raw(task.raw.as_str(), "clickup"));
    append_metadata(
        &mut out,
        "- ClickUp status: ",
        kv_from_raw(task.raw.as_str(), "clickup_status"),
    );
    append_metadata(&mut out, "- URL: ", find_url(task.raw.as_str()));
    out.append("\n## Task\n\n```todo.txt\n");
    out.append(task.raw.as_str());
    out.append("\n```\n\n## My notes\n\n");
    out
}

// ---- laws --------------------------------------------------------------------------

/// An id that a `notes:` token can carry: a word that does not start with a
/// quote.
pub open spec fn linkable_id(id: Seq<char>) -> bool {
    text::is_word(id) && id[0] != '"'
}

/// The link token is one word, whose value names the id.
proof fn lemma_link_token(id: Seq<char>)
    requires
        linkable_id(id),
    ensures
        text::is_word(link_token(id)),
        text::stripped_prefix(link_token(id), "notes:"@) == Some(id.push('/')),
        text::stripped_prefix(link_token(id), "note:"@) is None,
        id_of_value(id.push('/')) == Some(id),
{
    reveal_strlit("notes:");
    reveal_strlit("note:");
    let t = link_token(id);
    assert forall|i: int| 0 <= i < t.len() implies !text::is_space(#[trigger] t[i]) by {
        if 6 <= i < t.len() - 1 {
            assert(t[i] == id[i - 6]);
        }
    }
    assert(t.take(6) =~= "notes:"@);
    assert(t.skip(6) =~= id.push('/'));
    assert(t.take(5)[4] == 's');
    assert("note:"@[4] == ':');
    let v = id.push('/');
    assert(v[0] == id[0]);
    assert(text::trim_start_char(v, '"') == v);
    assert(v.last() == '/');
    assert(text::trim_end_char(v, '"') == v);
    assert(v.drop_last() =~= id);
}

/// Linking works: a line that names no id names the folder's id once the link
/// token is appended to it.
pub proof fn law_link_resolves(raw: Seq<char>, id: Seq<char>)
    requires
        linkable_id(id),
        notes_id(raw) is None,
    ensures
        notes_id(raw.push(' ') + link_token(id)) == Some(id),
{
    lemma_link_token(id);
    text::lemma_words_concat(raw, ' ', link_token(id));
    text::lemma_words_of_word(link_token(id));
    let ws = text::words(raw).push(link_token(id));
    assert(text::words(raw) + seq![link_token(id)] =~= ws);
    assert(ws.drop_last() =~= text::words(raw));
}

/// What is kept of words are words, each of which was to be kept; where the words
/// name no id, what is kept of them names none.
proof fn lemma_kept_words(words: Seq<Seq<char>>, keep: spec_fn(Seq<char>) -> bool)
    requires
        forall|i: int| 0 <= i < words.len() ==> text::is_word(#[trigger] words[i]),
    ensures
        forall|i: int|
            0 <= i < words.filter(keep).len() ==> text::is_word(#[trigger] words.filter(keep)[i])
                && keep(words.filter(keep)[i]),
        first_id(words) is None ==> first_id(words.filter(keep)) is None,
    decreases words.len(),
{
    reveal(Seq::filter);
    if words.len() > 0 {
        let d = words.drop_last();
        assert forall|i: int| 0 <= i < d.len() implies text::is_word(#[trigger] d[i]) by {
            assert(d[i] == words[i]);
        }
        lemma_kept_words(d, keep);
        assert(d.filter(keep).push(words.last()).drop_last() =~= d.filter(keep));
    }
}

/// Migrating a line drops its legacy tokens, keeps every other word in its
/// place, and puts the link at the end. A line that named no id then names the
/// folder's.
pub proof fn law_migration_links(raw: Seq<char>, rel: Seq<char>, id: Seq<char>)
    requires
        linkable_id(id),
    ensures
        text::words(migrated_line(raw, rel, id)) == without_legacy(text::words(raw), rel).push(
            link_token(id),
        ),
        forall|i: int|
            0 <= i < text::words(migrated_line(raw, rel, id)).len() ==> !legacy_word(
                #[trigger] text::words(migrated_line(raw, rel, id))[i],
                rel,
            ),
        notes_id(raw) is None ==> notes_id(migrated_line(raw, rel, id)) == Some(id),
{
    let all = text::words(raw);
    let keep = |w: Seq<char>| !legacy_word(w, rel);
    let kept = without_legacy(all, rel);
    text::lemma_words_are_words(raw);
    lemma_kept_words(all, keep);
    lemma_link_token(id);
    text::lemma_words_joined(kept);
    text::lemma_words_concat(text::joined(kept, ' '), ' ', link_token(id));
    text::lemma_words_of_word(link_token(id));
    let ws = kept.push(link_token(id));
    assert(kept + seq![link_token(id)] =~= ws);
    assert(ws.drop_last() =~= kept);
}

/// Every digit below sixteen is a letter or a digit, and no two are the same.
proof fn lemma_digit(d: int, e: int)
    requires
        0 <= d < 16,
        0 <= e < 16,
    ensures
        '0' <= text::digit(d) <= '9' || 'a' <= text::digit(d) <= 'f',
        !text::is_space(text::digit(d)),
        text::digit(d) == text::digit(e) ==> d == e,
{
}

/// A number's digits are hexadecimal digits, at least one of them.
proof fn lemma_number_digits(n: nat)
    ensures
        text::number(n, 16).len() > 0,
        forall|i: int|
            0 <= i < text::number(n, 16).len() ==> hex_digit(#[trigger] text::number(n, 16)[i]),
    decreases n,
{
    if n < 16 {
        lemma_digit(n as int, 0);
    } else {
        lemma_number_digits(n / 16);
        lemma_digit((n % 16) as int, 0);
    }
}

/// A lower-case hexadecimal digit.
pub open spec fn hex_digit(c: char) -> bool {
    '0' <= c <= '9' || 'a' <= c <= 'f'
}

/// Two hexadecimal digits stand for each byte, and different bytes have
/// different texts.
pub proof fn law_hex_is_faithful(a: Seq<u8>, b: Seq<u8>)
    ensures
        hex_text(a).len() == 2 * a.len(),
        forall|i: int| 0 <= i < hex_text(a).len() ==> hex_digit(#[trigger] hex_text(a)[i]),
        hex_text(a) == hex_text(b) ==> a == b,
    decreases a.len(),
{
    if a.len() > 0 {
        let d = a.drop_last();
        let hi = a.last() as int / 16;
        let lo = a.last() as int % 16;
        lemma_digit(hi, lo);
        lemma_digit(lo, hi);
        if b.len() > 0 {
            let e = b.drop_last();
            law_hex_is_faithful(d, e);
            lemma_digit(hi, b.last() as int / 16);
            lemma_digit(lo, b.last() as int % 16);
            if hex_text(a) == hex_text(b) {
                let x = hex_text(a);
                let y = hex_text(b);
                assert(x.last() == y.last());
                assert(x[x.len() - 2] == y[y.len() - 2]);
                assert(x.drop_last().drop_last() =~= hex_text(d));
                assert(y.drop_last().drop_last() =~= hex_text(e));
                assert(x.last() == text::digit(lo) && y.last() == text::digit(
                    b.last() as int % 16,
                ));
                assert(x[x.len() - 2] == text::digit(hi) && y[y.len() - 2] == text::digit(
                    b.last() as int / 16,
                ));
                assert(a.last() as int == 16 * hi + lo);
                assert(b.last() as int == 16 * (b.last() as int / 16) + b.last() as int % 16);
                assert(a.last() == b.last());
                assert(d == e);
                assert(a =~= d.push(a.last()));
                assert(b =~= e.push(b.last()));
            }
        } else {
            law_hex_is_faithful(d, d);
            assert(hex_text(b).len() == 0);
        }
    } else if b.len() > 0 {
        assert(hex_text(a).len() == 0);
        assert(hex_text(b).len() > 0);
    } else {
        assert(a =~= b);
    }
}

/// Every generated id can be linked: it is a word of hexadecimal digits.
pub proof fn law_fresh_ids_are_linkable(id: Seq<char>, nanos: u128, counter: u64)
    requires
        fresh_id(id, nanos, counter),
    ensures
        linkable_id(id),
        forall|i: int| 0 <= i < id.len() ==> hex_digit(#[trigger] id[i]),
{
    if id == clock_id(nanos, counter) {
        lemma_number_digits(nanos as nat);
        lemma_number_digits(counter as nat);
        let n = text::number(nanos as nat, 16);
        assert forall|i: int| 0 <= i < id.len() implies hex_digit(#[trigger] id[i]) by {
            if i < n.len() {
                assert(id[i] == n[i]);
            } else {
                assert(id[i] == text::number(counter as nat, 16)[i - n.len()]);
            }
        }
    } else {
        let bytes = choose|bytes: Seq<u8>| bytes.len() == 8 && id == #[trigger] hex_text(bytes);
        law_hex_is_faithful(bytes, bytes);
    }
    assert forall|i: int| 0 <= i < id.len() implies !text::is_space(#[trigger] id[i]) by {
        assert(hex_digit(id[i]));
    }
    assert(hex_digit(id[0]));
}

/// The order of texts is total and transitive.
proof fn lemma_text_le(a: Seq<char>, b: Seq<char>, c: Seq<char>)
    ensures
        text_le(a, b) || text_le(b, a),
        text_le(a, b) && text_le(b, c) ==> text_le(a, c),
    decreases a.len(),
{
    if a.len() > 0 && b.len() > 0 && a[0] == b[0] {
        if c.len() > 0 {
            lemma_text_le(a.drop_first(), b.drop_first(), c.drop_first());
        } else {
            lemma_text_le(a.drop_first(), b.drop_first(), c);
        }
    }
}

/// Sorted by name.
pub open spec fn sorted_texts(s: Seq<Seq<char>>) -> bool {
    forall|i: int, j: int| 0 <= i <= j < s.len() ==> text_le(#[trigger] s[i], #[trigger] s[j])
}

proof fn lemma_text_le_refl(a: Seq<char>)
    ensures
        text_le(a, a),
    decreases a.len(),
{
    if a.len() > 0 {
        lemma_text_le_refl(a.drop_first());
    }
}

proof fn lemma_insert_sorted(s: Seq<Seq<char>>, x: Seq<char>)
    requires
        sorted_texts(s),
    ensures
        sorted_texts(insert_sorted(s, x)),
        insert_sorted(s, x).to_multiset() == s.to_multiset().insert(x),
    decreases s.len(),
{
    broadcast use vstd::seq_lib::group_to_multiset_ensures;

    lemma_text_le_refl(x);
    let r = insert_sorted(s, x);
    if s.len() == 0 || text_le(s.last(), x) {
        assert forall|i: int, j: int| 0 <= i <= j < r.len() implies text_le(
            #[trigger] r[i],
            #[trigger] r[j],
        ) by {
            if j == s.len() && i < j {
                lemma_text_le(s[i], s.last(), x);
            }
        }
    } else {
        let d = s.drop_last();
        let inner = insert_sorted(d, x);
        assert(sorted_texts(d));
        lemma_insert_sorted(d, x);
        assert(d.push(s.last()) =~= s);
        assert(s.to_multiset() =~= d.to_multiset().insert(s.last()));
        assert(r.to_multiset() =~= s.to_multiset().insert(x));
        lemma_text_le(s.last(), x, x);
        assert forall|i: int, j: int| 0 <= i <= j < r.len() implies text_le(
            #[trigger] r[i],
            #[trigger] r[j],
        ) by {
            if j == r.len() - 1 && i < j {
                assert(inner.to_multiset().count(inner[i]) > 0);
                if inner[i] != x {
                    assert(d.to_multiset().count(inner[i]) > 0);
                    assert(d.contains(inner[i]));
                    let k = choose|k: int| 0 <= k < d.len() && d[k] == inner[i];
                    assert(text_le(s[k], s[s.len() - 1]));
                }
            } else if i == r.len() - 1 {
                lemma_text_le_refl(r[i]);
            } else {
                assert(r[i] == inner[i] && r[j] == inner[j]);
            }
        }
    }
}

/// What a filter lets through was there before.
proof fn lemma_filtered_from(s: Seq<Seq<char>>, f: spec_fn(Seq<char>) -> bool, x: Seq<char>)
    requires
        s.filter(f).contains(x),
    ensures
        s.contains(x),
    decreases s.len(),
{
    reveal(Seq::filter);
    if s.len() > 0 {
        let d = s.drop_last();
        if f(s.last()) && s.last() == x {
            assert(s[s.len() - 1] == x);
        } else {
            let k = choose|k: int| 0 <= k < s.filter(f).len() && s.filter(f)[k] == x;
            assert(d.filter(f)[k] == x);
            lemma_filtered_from(d, f, x);
            let i = choose|i: int| 0 <= i < d.len() && d[i] == x;
            assert(s[i] == x);
        }
    }
}

/// A listing holds the `.md` names and no others, each as often as it was given,
/// in order. Where no two names were the same, no two in the listing are.
pub proof fn law_listing_is_sorted(names: Seq<Seq<char>>)
    ensures
        sorted_texts(sorted_notes(names)),
        sorted_notes(names).to_multiset() == names.filter(
            |n: Seq<char>| is_note_name(n),
        ).to_multiset(),
        names.no_duplicates() ==> sorted_notes(names).no_duplicates(),
    decreases names.len(),
{
    broadcast use vstd::seq_lib::group_to_multiset_ensures;

    reveal(Seq::filter);
    let f = |n: Seq<char>| is_note_name(n);
    if names.len() > 0 {
        let d = names.drop_last();
        law_listing_is_sorted(d);
        if is_note_name(names.last()) {
            let x = names.last();
            let before = sorted_notes(d);
            lemma_insert_sorted(before, x);
            assert(names.filter(f) == d.filter(f).push(x));
            if names.no_duplicates() {
                assert(d.no_duplicates());
                before.lemma_multiset_has_no_duplicates();
                if before.to_multiset().contains(x) {
                    assert(d.filter(f).to_multiset().count(x) > 0);
                    assert(d.filter(f).contains(x));
                    lemma_filtered_from(d, f, x);
                    let i = choose|i: int| 0 <= i < d.len() && d[i] == x;
                    assert(names[i] == names[names.len() - 1]);
                }
                sorted_notes(names).lemma_multiset_has_no_duplicates_conv();
            }
        } else {
            assert(names.no_duplicates() ==> d.no_duplicates());
        }
    } else {
        assert(sorted_notes(names) =~= names.filter(f));
    }
}

} // verus!
