//! What a note's text, its folder, its link and its listing are made of.
use crate::note;
use crate::path;
use crate::text;
use crate::todo::Task;
use vstd::prelude::*;

verus! {

/// A line of a note, where there is something to say.
pub open spec fn said_line(label: Seq<char>, value: Option<Seq<char>>) -> Seq<char> {
    match value {
        Some(v) => label + v + "\n"@,
        None => Seq::empty(),
    }
}

/// The start of a new note.
pub open spec fn note_head(task: Task) -> Seq<char> {
    if task.body@.len() == 0 {
        "# Task\n\n## Metadata\n\n"@
    } else {
        "# "@ + task.body@ + "\n\n## Metadata\n\n"@
    }
}

/// The end of a new note.
pub open spec fn note_tail(task: Task) -> Seq<char> {
    "\n## Task\n\n```todo.txt\n"@ + task.raw@ + "\n```\n\n## My notes\n\n"@
}

/// A new note begins with the task's description as its title, and ends with the
/// task's whole line as it stands in the file and a heading to write under.
pub proof fn law_new_notes_hold_the_whole_line(task: Task)
    ensures
        ({
            let t = note::template(task);
            let end = "```todo.txt\n"@ + task.raw@ + "\n```\n\n## My notes\n\n"@;
            &&& t.len() >= note_head(task).len() + note_tail(task).len()
            &&& t.take(note_head(task).len() as int) == note_head(task)
            &&& t.skip(t.len() - note_tail(task).len()) == note_tail(task)
            &&& t.skip(t.len() - end.len()) == end
        }),
{
    reveal_strlit("# ");
    reveal_strlit("Task");
    reveal_strlit("\n\n## Metadata\n\n");
    reveal_strlit("# Task\n\n## Metadata\n\n");
    reveal_strlit("\n## Task\n\n```todo.txt\n");
    reveal_strlit("```todo.txt\n");
    let t = note::template(task);
    let head = note_head(task);
    let tail = note_tail(task);
    let end = "```todo.txt\n"@ + task.raw@ + "\n```\n\n## My notes\n\n"@;
    law_new_notes_hold_the_metadata(task);
    let middle = note_metadata(task);
    assert(t =~= head + middle + tail);
    assert(t.take(head.len() as int) =~= head);
    assert(t.skip(t.len() - tail.len()) =~= tail);
    assert(tail.skip(tail.len() - end.len()) =~= end);
    assert(t.skip(t.len() - end.len()) =~= tail.skip(tail.len() - end.len()));
}

/// What a new note says of a task between its start and its end, in this order.
pub open spec fn note_metadata(task: Task) -> Seq<char> {
    said_line(
        "- Priority: "@,
        match task.priority {
            Some(p) => Some(seq![p]),
            None => None,
        },
    ) + said_line("- Created: "@, text::opt_text(task.created_date)) + said_line(
        "- Due: "@,
        text::opt_text(task.due),
    ) + said_line(
        "- Projects: "@,
        if task.projects@.len() == 0 {
            None
        } else {
            Some(note::signed_tags('+', text::texts(task.projects@)))
        },
    ) + said_line(
        "- Contexts: "@,
        if task.contexts@.len() == 0 {
            None
        } else {
            Some(note::signed_tags('@', text::texts(task.contexts@)))
        },
    ) + said_line("- ClickUp: "@, note::key_value(task.raw@, "clickup"@)) + said_line(
        "- ClickUp status: "@,
        note::key_value(task.raw@, "clickup_status"@),
    ) + said_line("- URL: "@, note::first_url(text::words(task.raw@)))
}

/// Between its start and its end a new note says what is known of the task, a line
/// each, and nothing of what is not known.
pub proof fn law_new_notes_hold_the_metadata(task: Task)
    ensures
        note::template(task) == note_head(task) + note_metadata(task) + note_tail(task),
{
    reveal_strlit("# ");
    reveal_strlit("Task");
    reveal_strlit("\n\n## Metadata\n\n");
    reveal_strlit("# Task\n\n## Metadata\n\n");
    reveal_strlit("\n");
    lemma_lines_agree();
    assert(text::texts(task.projects@).len() == task.projects@.len());
    assert(text::texts(task.contexts@).len() == task.contexts@.len());
    let head = "# "@ + (if task.body@.len() == 0 {
        "Task"@
    } else {
        task.body@
    }) + "\n\n## Metadata\n\n"@;
    assert(head =~= note_head(task));
    let h = note_head(task);
    let m1 = said_line(
        "- Priority: "@,
        match task.priority {
            Some(p) => Some(seq![p]),
            None => None,
        },
    );
    let m2 = said_line("- Created: "@, text::opt_text(task.created_date));
    let m3 = said_line("- Due: "@, text::opt_text(task.due));
    let m4 = said_line("- Projects: "@, note::tag_list('+', text::texts(task.projects@)));
    let m5 = said_line("- Contexts: "@, note::tag_list('@', text::texts(task.contexts@)));
    let m6 = said_line("- ClickUp: "@, note::key_value(task.raw@, "clickup"@));
    let m7 = said_line("- ClickUp status: "@, note::key_value(task.raw@, "clickup_status"@));
    let m8 = said_line("- URL: "@, note::first_url(text::words(task.raw@)));
    lemma_regroup(h, m1, m2);
    lemma_regroup(h, m1 + m2, m3);
    lemma_regroup(h, m1 + m2 + m3, m4);
    lemma_regroup(h, m1 + m2 + m3 + m4, m5);
    lemma_regroup(h, m1 + m2 + m3 + m4 + m5, m6);
    lemma_regroup(h, m1 + m2 + m3 + m4 + m5 + m6, m7);
    lemma_regroup(h, m1 + m2 + m3 + m4 + m5 + m6 + m7, m8);
    let all = h + (m1 + m2 + m3 + m4 + m5 + m6 + m7 + m8);
    let a = "\n## Task\n\n```todo.txt\n"@;
    let b = "\n```\n\n## My notes\n\n"@;
    lemma_regroup(all, a, task.raw@);
    lemma_regroup(all, a + task.raw@, b);
}

proof fn lemma_regroup(a: Seq<char>, b: Seq<char>, c: Seq<char>)
    ensures
        a + b + c == a + (b + c),
{
    assert(a + b + c =~= a + (b + c));
}

proof fn lemma_lines_agree()
    ensures
        forall|label: Seq<char>, value: Option<Seq<char>>|
            #![trigger note::metadata(label, value)]
            note::metadata(label, value) == said_line(label, value),
{
    reveal_strlit("\n");
    assert forall|label: Seq<char>, value: Option<Seq<char>>|
        #![trigger note::metadata(label, value)]
        note::metadata(label, value) == said_line(label, value) by {
        assert(note::metadata(label, value) =~= said_line(label, value));
    }
}

/// Tags are listed each with its sign before it and a blank between them.
pub proof fn law_tags_keep_their_signs(sign: char, tags: Seq<Seq<char>>, tag: Seq<char>)
    ensures
        note::signed_tags(sign, seq![tag]) == seq![sign] + tag,
        tags.len() > 0 ==> note::signed_tags(sign, tags.push(tag)) == note::signed_tags(sign, tags)
            + seq![' ', sign] + tag,
{
    let f = |t: Seq<char>| seq![sign] + t;
    assert(seq![tag].map_values(f) =~= seq![seq![sign] + tag]);
    if tags.len() > 0 {
        assert(tags.push(tag).map_values(f).drop_last() =~= tags.map_values(f));
        assert(tags.push(tag).map_values(f).last() == seq![sign] + tag);
        assert(note::signed_tags(sign, tags.push(tag)) =~= note::signed_tags(sign, tags) + seq![
            ' ',
            sign,
        ] + tag);
    }
}

proof fn lemma_first_value(words: Seq<Seq<char>>, prefix: Seq<char>, i: int)
    requires
        0 <= i < words.len(),
        words[i].len() >= prefix.len(),
        words[i].take(prefix.len() as int) == prefix,
        forall|j: int|
            0 <= j < i ==> !(#[trigger] words[j].len() >= prefix.len() && words[j].take(
                prefix.len() as int,
            ) == prefix),
    ensures
        text::first_value(words, prefix) == Some(words[i].skip(prefix.len() as int)),
    decreases words.len(),
{
    let d = words.drop_last();
    if i < words.len() - 1 {
        assert(d[i] == words[i]);
        assert forall|j: int| 0 <= j < i implies !(#[trigger] d[j].len() >= prefix.len() && d[j].take(
            prefix.len() as int,
        ) == prefix) by {
            assert(d[j] == words[j]);
            assert(words[j].len() >= 0);
        }
        lemma_first_value(d, prefix, i);
    } else {
        assert forall|j: int| 0 <= j < d.len() implies !(#[trigger] d[j].len() >= prefix.len()
            && d[j].take(prefix.len() as int) == prefix) by {
            assert(d[j] == words[j]);
            assert(words[j].len() >= 0);
        }
        lemma_no_value(d, prefix);
    }
}

proof fn lemma_no_value(words: Seq<Seq<char>>, prefix: Seq<char>)
    requires
        forall|j: int|
            0 <= j < words.len() ==> !(#[trigger] words[j].len() >= prefix.len() && words[j].take(
                prefix.len() as int,
            ) == prefix),
    ensures
        text::first_value(words, prefix) is None,
    decreases words.len(),
{
    if words.len() > 0 {
        let d = words.drop_last();
        assert forall|j: int| 0 <= j < d.len() implies !(#[trigger] d[j].len() >= prefix.len()
            && d[j].take(prefix.len() as int) == prefix) by {
            assert(d[j] == words[j]);
            assert(words[j].len() >= 0);
        }
        lemma_no_value(d, prefix);
        assert(words[words.len() - 1].len() >= 0);
    }
}

/// The value of a key is what stands behind `key:` in the first word that begins
/// so, unless nothing does.
pub proof fn law_key_values(raw: Seq<char>, key: Seq<char>, i: int)
    requires
        0 <= i < text::words(raw).len(),
        ({
            let p = key + ":"@;
            let ws = text::words(raw);
            &&& ws[i].len() >= p.len() && ws[i].take(p.len() as int) == p
            &&& forall|j: int|
                0 <= j < i ==> !(#[trigger] ws[j].len() >= p.len() && ws[j].take(p.len() as int)
                    == p)
        }),
    ensures
        note::key_value(raw, key) == ({
            let v = text::words(raw)[i].skip(key.len() as int + 1);
            if v.len() == 0 {
                None
            } else {
                Some(v)
            }
        }),
{
    reveal_strlit(":");
    assert(key + ":"@ =~= key.push(':'));
    lemma_first_value(text::words(raw), key + ":"@, i);
}

/// A key that no word begins with has no value.
pub proof fn law_missing_keys(raw: Seq<char>, key: Seq<char>)
    requires
        ({
            let p = key + ":"@;
            let ws = text::words(raw);
            forall|j: int|
                0 <= j < ws.len() ==> !(#[trigger] ws[j].len() >= p.len() && ws[j].take(
                    p.len() as int,
                ) == p)
        }),
    ensures
        note::key_value(raw, key) is None,
{
    reveal_strlit(":");
    assert(key + ":"@ =~= key.push(':'));
    lemma_no_value(text::words(raw), key + ":"@);
}

/// The address of a line is the first of its words that begins with `http://` or
/// `https://`.
pub proof fn law_first_address(words: Seq<Seq<char>>)
    ensures
        match note::first_url(words) {
            Some(u) => exists|i: int|
                #![trigger words[i]]
                0 <= i < words.len() && words[i] == u && address(u) && forall|j: int|
                    0 <= j < i ==> !address(#[trigger] words[j]),
            None => forall|j: int| 0 <= j < words.len() ==> !address(#[trigger] words[j]),
        },
    decreases words.len(),
{
    if words.len() > 0 {
        let d = words.drop_last();
        law_first_address(d);
        assert forall|j: int| 0 <= j < d.len() implies d[j] == words[j] by {}
        match note::first_url(d) {
            Some(u) => {
                let i = choose|i: int|
                    #![trigger d[i]]
                    0 <= i < d.len() && d[i] == u && address(u) && forall|j: int|
                        0 <= j < i ==> !address(#[trigger] d[j]);
                assert(words[i] == u);
                assert forall|j: int| 0 <= j < i implies !address(#[trigger] words[j]) by {
                    assert(!address(d[j]));
                }
            },
            None => {
                assert forall|j: int| 0 <= j < d.len() implies !address(#[trigger] words[j]) by {
                    assert(!address(d[j]));
                }
                assert(words[words.len() - 1] == words.last());
                law_addresses(words.last());
            },
        }
    }
}

/// Whether a word is a web address.
pub open spec fn address(word: Seq<char>) -> bool {
    ||| word.len() >= 7 && word.take(7) == "http://"@
    ||| word.len() >= 8 && word.take(8) == "https://"@
}

/// What the two beginnings of an address are long.
pub proof fn law_addresses(word: Seq<char>)
    ensures
        note::is_url(word) == address(word),
{
    reveal_strlit("http://");
    reveal_strlit("https://");
}

/// The link of a folder is spelled `notes:`, its id and a slash.
pub proof fn law_links_are_spelled_so(id: Seq<char>)
    ensures
        note::link_token(id) == "notes:"@ + id + "/"@,
{
    reveal_strlit("/");
    assert(note::link_token(id) =~= "notes:"@ + id + "/"@);
}

/// A word names an id exactly where it is `notes:`, the id and a slash, with any
/// quotes around the latter two dropped.
pub proof fn law_words_that_name_an_id(word: Seq<char>, id: Seq<char>)
    ensures
        note::id_of_word(word) == Some(id) <==> id.len() > 0 && word.len() >= 6 && word.take(6)
            == "notes:"@ && text::trimmed_char(word.skip(6), '"') == id + "/"@,
{
    reveal_strlit("notes:");
    reveal_strlit("/");
    if let Some(v) = text::stripped_prefix(word, "notes:"@) {
        let t = text::trimmed_char(v, '"');
        if t.len() > 0 && t.last() == '/' {
            assert(t.drop_last() + "/"@ =~= t);
        }
        assert((id + "/"@).drop_last() =~= id);
    }
}

/// A line's folder is the first that any of its words names.
pub proof fn law_the_first_link_counts(words: Seq<Seq<char>>)
    ensures
        match note::first_id(words) {
            Some(id) => exists|i: int|
                #![trigger words[i]]
                0 <= i < words.len() && note::id_of_word(words[i]) == Some(id) && forall|j: int|
                    0 <= j < i ==> note::id_of_word(#[trigger] words[j]) is None,
            None => forall|j: int|
                0 <= j < words.len() ==> note::id_of_word(#[trigger] words[j]) is None,
        },
    decreases words.len(),
{
    if words.len() > 0 {
        let d = words.drop_last();
        law_the_first_link_counts(d);
        match note::first_id(d) {
            Some(id) => {
                let i = choose|i: int|
                    #![trigger d[i]]
                    0 <= i < d.len() && note::id_of_word(d[i]) == Some(id) && forall|j: int|
                        0 <= j < i ==> note::id_of_word(#[trigger] d[j]) is None;
                assert(words[i] == d[i]);
                assert forall|j: int| 0 <= j < i implies note::id_of_word(
                    #[trigger] words[j],
                ) is None by {
                    assert(words[j] == d[j]);
                }
            },
            None => {
                assert forall|j: int| 0 <= j < d.len() implies note::id_of_word(
                    #[trigger] words[j],
                ) is None by {
                    assert(words[j] == d[j]);
                }
                assert(words[words.len() - 1] == words.last());
            },
        }
    }
}

/// The same of the legacy link: the first word `note:` with a path behind it.
pub proof fn law_the_first_legacy_link_counts(words: Seq<Seq<char>>)
    ensures
        match note::first_rel(words) {
            Some(rel) => exists|i: int|
                #![trigger words[i]]
                0 <= i < words.len() && names_path(words[i], rel) && forall|j: int, other: Seq<char>|
                    0 <= j < i ==> !#[trigger] names_path(words[j], other),
            None => forall|j: int, other: Seq<char>|
                0 <= j < words.len() ==> !#[trigger] names_path(words[j], other),
        },
    decreases words.len(),
{
    reveal_strlit("note:");
    if words.len() > 0 {
        let d = words.drop_last();
        law_the_first_legacy_link_counts(d);
        match note::first_rel(d) {
            Some(rel) => {
                let i = choose|i: int|
                    #![trigger d[i]]
                    0 <= i < d.len() && names_path(d[i], rel) && forall|j: int, other: Seq<char>|
                        0 <= j < i ==> !#[trigger] names_path(d[j], other);
                assert(words[i] == d[i]);
                assert forall|j: int, other: Seq<char>| 0 <= j < i implies !#[trigger] names_path(
                    words[j],
                    other,
                ) by {
                    assert(words[j] == d[j]);
                    assert(!names_path(d[j], other));
                }
            },
            None => {
                assert forall|j: int, other: Seq<char>|
                    0 <= j < d.len() implies !#[trigger] names_path(words[j], other) by {
                    assert(words[j] == d[j]);
                    assert(!names_path(d[j], other));
                }
                assert(words[words.len() - 1] == words.last());
            },
        }
    }
}

/// Whether a word is `note:` and a path, with any quotes around it dropped.
pub open spec fn names_path(word: Seq<char>, rel: Seq<char>) -> bool {
    rel.len() > 0 && word.len() >= 5 && word.take(5) == "note:"@ && text::trimmed_char(
        word.skip(5),
        '"',
    ) == rel
}

/// Migrating keeps every word of a line but its legacy links to the path that is
/// moved, each between blanks, and puts the new link at the end.
pub proof fn law_migrated_lines(raw: Seq<char>, rel: Seq<char>, id: Seq<char>)
    ensures
        note::migrated_line(raw, rel, id) == text::joined(
            text::words(raw).filter(
                |w: Seq<char>|
                    !(w.len() >= 5 && w.take(5) == "note:"@ && text::trimmed_char(w.skip(5), '"')
                        == rel),
            ),
            ' ',
        ) + " notes:"@ + id + "/"@,
{
    reveal_strlit("note:");
    reveal_strlit(" notes:");
    reveal_strlit("notes:");
    reveal_strlit("/");
    let f = |w: Seq<char>| !note::legacy_word(w, rel);
    let g = |w: Seq<char>|
        !(w.len() >= 5 && w.take(5) == "note:"@ && text::trimmed_char(w.skip(5), '"') == rel);
    assert(f =~= g);
    assert(note::migrated_line(raw, rel, id) =~= text::joined(text::words(raw).filter(g), ' ')
        + " notes:"@ + id + "/"@);
}

/// Names are put behind a directory with one slash between them, and a name that
/// begins with one stands for itself.
pub proof fn law_joined_paths(base: Seq<char>, part: Seq<char>)
    ensures
        part.len() > 0 && part[0] == '/' ==> path::joined_path(base, part) == part,
        base.len() > 0 && base.last() != '/' && (part.len() == 0 || part[0] != '/')
            ==> path::joined_path(base, part) == base + "/"@ + part,
        base.len() > 0 && base.last() == '/' && (part.len() == 0 || part[0] != '/')
            ==> path::joined_path(base, part) == base + part,
        base.len() == 0 ==> path::joined_path(base, part) == part,
{
    reveal_strlit("/");
    assert(base.push('/') + part =~= base + "/"@ + part);
    if base.len() == 0 {
        assert(base + part =~= part);
    }
}

/// A task's folder lies in `tasks` in the notes directory, under its id.
pub proof fn law_folders_lie_in_tasks(notes_dir: Seq<char>, id: Seq<char>)
    requires
        notes_dir.len() > 0,
        notes_dir.last() != '/',
        id.len() > 0,
        id[0] != '/',
    ensures
        note::folder_path(notes_dir, id) == notes_dir + "/tasks/"@ + id,
{
    reveal_strlit("tasks");
    reveal_strlit("/tasks/");
    assert(note::NOTES_TASKS_SUBDIR@ == "tasks"@);
    assert(note::folder_path(notes_dir, id) =~= notes_dir + "/tasks/"@ + id);
}

/// An unlinked note goes to `unlinked` in the notes directory, under its own name,
/// or with the task's id and a dash before it where that name is taken.
pub proof fn law_unlinked_notes_lie_in_unlinked(
    notes_dir: Seq<char>,
    name: Seq<char>,
    id: Seq<char>,
)
    requires
        notes_dir.len() > 0,
        notes_dir.last() != '/',
        name.len() > 0,
        name[0] != '/',
        id.len() > 0,
        id[0] != '/',
    ensures
        note::unlinked_path(notes_dir, name, id, false) == notes_dir + "/unlinked/"@ + name,
        note::unlinked_path(notes_dir, name, id, true) == notes_dir + "/unlinked/"@ + id + "-"@
            + name,
{
    reveal_strlit("unlinked");
    reveal_strlit("/unlinked/");
    reveal_strlit("-");
    assert(note::NOTES_UNLINKED_SUBDIR@ == "unlinked"@);
    assert(note::unlinked_path(notes_dir, name, id, false) =~= notes_dir + "/unlinked/"@ + name);
    assert(note::unlinked_path(notes_dir, name, id, true) =~= notes_dir + "/unlinked/"@ + id + "-"@
        + name);
}

/// The notes directory is the configured one, blanks around it aside, with a
/// leading `~` for the home directory; else the environment's; else `notes` in the
/// home directory; else `notes`.
pub proof fn law_notes_directory(
    configured: Option<Seq<char>>,
    env_dir: Option<Seq<char>>,
    home: Option<Seq<char>>,
)
    ensures
        ({
            let r = note::chosen_dir(configured, env_dir, home);
            let value = match configured {
                Some(c) => text::trimmed(c),
                None => Seq::empty(),
            };
            if value.len() > 0 {
                match home {
                    Some(h) => {
                        &&& value == "~"@ ==> r == h
                        &&& value.len() >= 2 && value.take(2) == "~/"@ ==> r == path::joined_path(
                            h,
                            value.skip(2),
                        )
                        &&& value != "~"@ && !(value.len() >= 2 && value.take(2) == "~/"@) ==> r
                            == value
                    },
                    None => r == value,
                }
            } else if env_dir is Some {
                r == env_dir->0
            } else if home is Some {
                r == path::joined_path(home->0, "notes"@)
            } else {
                r == "notes"@
            }
        }),
{
    reveal_strlit("~");
    reveal_strlit("~/");
    if let Some(c) = configured {
        let value = text::trimmed(c);
        assert("~"@[0] == '~' && "~/"@[0] == '~');
        if value.len() >= 2 {
            assert(value.take(2)[0] == value[0]);
        }
    }
}

/// A note is a file whose name is `.md` behind at least one character.
pub proof fn law_notes_end_in_md(stem: Seq<char>, name: Seq<char>)
    ensures
        stem.len() > 0 ==> note::is_note_name(stem + ".md"@),
        !note::is_note_name(".md"@),
        note::is_note_name(name) ==> name.len() > 3 && name == name.take(name.len() - 3) + ".md"@,
{
    reveal_strlit(".md");
    assert((stem + ".md"@).skip(stem.len() as int) =~= ".md"@);
    if note::is_note_name(name) {
        assert(name =~= name.take(name.len() - 3) + name.skip(name.len() - 3));
    }
}

/// Names are compared character by character: the first one in which they differ
/// decides, and a name comes before those that go on where it ends.
pub proof fn law_names_are_ordered_by_their_first_difference(a: Seq<char>, b: Seq<char>, k: int)
    requires
        0 <= k <= a.len(),
        k <= b.len(),
        forall|i: int| 0 <= i < k ==> a[i] == b[i],
        k == a.len() || k == b.len() || a[k] != b[k],
    ensures
        note::text_le(a, b) == (k == a.len() || (k < b.len() && a[k] < b[k])),
    decreases k,
{
    if k > 0 {
        let x = a.drop_first();
        let y = b.drop_first();
        assert forall|i: int| 0 <= i < k - 1 implies x[i] == y[i] by {
            assert(a[i + 1] == b[i + 1]);
        }
        law_names_are_ordered_by_their_first_difference(x, y, k - 1);
    }
}

/// A listing names each file by the folder's path and its own name.
pub proof fn law_listings_name_files_in_the_folder(dir: Seq<char>, names: Seq<Seq<char>>, i: int)
    requires
        0 <= i < note::sorted_notes(names).len(),
    ensures
        note::note_paths(dir, names).len() == note::sorted_notes(names).len(),
        note::note_paths(dir, names)[i] == path::joined_path(dir, note::sorted_notes(names)[i]),
{
}

/// The digits below sixteen.
pub proof fn law_digits()
    ensures
        text::digit(0) == '0' && text::digit(1) == '1' && text::digit(2) == '2' && text::digit(3)
            == '3' && text::digit(4) == '4' && text::digit(5) == '5' && text::digit(6) == '6'
            && text::digit(7) == '7' && text::digit(8) == '8' && text::digit(9) == '9',
        text::digit(10) == 'a' && text::digit(11) == 'b' && text::digit(12) == 'c' && text::digit(
            13,
        ) == 'd' && text::digit(14) == 'e' && text::digit(15) == 'f',
{
}

/// A number's last digit is its remainder, and what stands before it is the number
/// without it.
pub proof fn law_numbers_are_written_digit_by_digit(n: nat, base: nat, d: nat)
    requires
        2 <= base <= 16,
        d < base,
    ensures
        text::number(d, base) == seq![text::digit(d as int)],
        n > 0 ==> text::number(n * base + d, base) == text::number(n, base).push(
            text::digit(d as int),
        ),
{
    if n > 0 {
        assert(n * base + d >= base && (n * base + d) / base == n && (n * base + d) % base == d)
            by (nonlinear_arith)
            requires
                n > 0,
                2 <= base,
                d < base,
        ;
    }
}

/// A byte is written as its two hexadecimal digits, the higher first.
pub proof fn law_bytes_are_written_high_digit_first(bytes: Seq<u8>, b: u8)
    ensures
        note::hex_text(bytes.push(b)) == note::hex_text(bytes) + seq![
            text::digit(b as int / 16),
            text::digit(b as int % 16),
        ],
{
    assert(bytes.push(b).drop_last() =~= bytes);
    assert(note::hex_text(bytes.push(b)) =~= note::hex_text(bytes) + seq![
        text::digit(b as int / 16),
        text::digit(b as int % 16),
    ]);
}

/// An id that the clock makes is its reading and the counter, one behind the other,
/// in hexadecimal; ids of one moment differ where their counters do.
pub proof fn law_clock_ids(nanos: u128, a: u64, b: u64)
    ensures
        note::clock_id(nanos, a) == text::number(nanos as nat, 16) + text::number(a as nat, 16),
        note::clock_id(nanos, a) == note::clock_id(nanos, b) ==> text::number(a as nat, 16)
            == text::number(b as nat, 16),
{
    let n = text::number(nanos as nat, 16);
    assert(note::clock_id(nanos, a).skip(n.len() as int) =~= text::number(a as nat, 16));
    assert(note::clock_id(nanos, b).skip(n.len() as int) =~= text::number(b as nat, 16));
}

/// What is blank and what is not: the white space of ASCII, the no-break space, the
/// spaces of every width with those of Ogham and ideographic writing, and what ends a
/// line or a paragraph; no other character.
pub proof fn law_blanks(c: char)
    ensures
        text::is_space(' ') && text::is_space('\t') && text::is_space('\n') && text::is_space('\r')
            && text::is_space('\u{b}') && text::is_space('\u{c}'),
        text::is_space('\u{85}') && text::is_space('\u{a0}') && text::is_space('\u{1680}')
            && text::is_space('\u{2028}') && text::is_space('\u{2029}') && text::is_space(
            '\u{202f}',
        ) && text::is_space('\u{205f}') && text::is_space('\u{3000}'),
        '\u{2000}' <= c && c <= '\u{200a}' ==> text::is_space(c),
        '!' <= c && c <= '~' ==> !text::is_space(c),
        text::is_space(c) && c > ' ' && (c < '\u{2000}' || '\u{200a}' < c) ==> c == '\u{85}' || c
            == '\u{a0}' || c == '\u{1680}' || c == '\u{2028}' || c == '\u{2029}' || c == '\u{202f}'
            || c == '\u{205f}' || c == '\u{3000}',
        text::is_space(c) && c < ' ' ==> '\t' <= c && c <= '\r',
{
}

/// Trimming takes away the blanks at both ends and nothing else.
pub proof fn law_trimming(s: Seq<char>)
    ensures
        exists|a: int, b: int| #[trigger] trims(s, a, b) && text::trimmed(s) == s.subrange(a, b),
{
    lemma_trim_start(s);
    let a = choose|a: int|
        0 <= a <= s.len() && #[trigger] s.skip(a) == text::trim_start(s) && (forall|i: int|
            0 <= i < a ==> text::is_space(#[trigger] s[i])) && (a < s.len() ==> !text::is_space(
            s[a],
        ));
    let t = text::trim_start(s);
    lemma_trim_end(t);
    let n = choose|n: int|
        0 <= n <= t.len() && #[trigger] t.take(n) == text::trim_end(t) && (forall|i: int|
            n <= i < t.len() ==> text::is_space(#[trigger] t[i])) && (n > 0 ==> !text::is_space(
            t[n - 1],
        ));
    let b = a + n;
    assert(s.subrange(a, b) =~= t.take(n));
    assert(trims(s, a, b)) by {
        assert forall|i: int| b <= i < s.len() implies text::is_space(#[trigger] s[i]) by {
            assert(t[i - a] == s[i]);
        }
        if a < b {
            assert(t[n - 1] == s[b - 1]);
        }
    }
}

/// Whether the part of a text from `a` to `b` is what is left without the blanks
/// at its ends.
pub open spec fn trims(s: Seq<char>, a: int, b: int) -> bool {
    &&& 0 <= a <= b <= s.len()
    &&& forall|i: int| 0 <= i < a ==> text::is_space(#[trigger] s[i])
    &&& forall|i: int| b <= i < s.len() ==> text::is_space(#[trigger] s[i])
    &&& a < b ==> !text::is_space(s[a]) && !text::is_space(s[b - 1])
}

proof fn lemma_trim_start(s: Seq<char>)
    ensures
        exists|a: int|
            0 <= a <= s.len() && #[trigger] s.skip(a) == text::trim_start(s) && (forall|i: int|
                0 <= i < a ==> text::is_space(#[trigger] s[i])) && (a < s.len() ==> !text::is_space(
                s[a],
            )),
    decreases s.len(),
{
    if s.len() > 0 && text::is_space(s[0]) {
        let d = s.drop_first();
        lemma_trim_start(d);
        let a = choose|a: int|
            0 <= a <= d.len() && #[trigger] d.skip(a) == text::trim_start(d) && (forall|i: int|
                0 <= i < a ==> text::is_space(#[trigger] d[i])) && (a < d.len() ==> !text::is_space(
                d[a],
            ));
        assert(s.skip(a + 1) =~= d.skip(a));
        assert forall|i: int| 0 <= i < a + 1 implies text::is_space(#[trigger] s[i]) by {
            if i > 0 {
                assert(d[i - 1] == s[i]);
            }
        }
        if a + 1 < s.len() {
            assert(d[a] == s[a + 1]);
        }
    } else {
        assert(s.skip(0) =~= s);
    }
}

proof fn lemma_trim_end(t: Seq<char>)
    ensures
        exists|n: int|
            0 <= n <= t.len() && #[trigger] t.take(n) == text::trim_end(t) && (forall|i: int|
                n <= i < t.len() ==> text::is_space(#[trigger] t[i])) && (n > 0 ==> !text::is_space(
                t[n - 1],
            )),
    decreases t.len(),
{
    if t.len() > 0 && text::is_space(t.last()) {
        let d = t.drop_last();
        lemma_trim_end(d);
        let n = choose|n: int|
            0 <= n <= d.len() && #[trigger] d.take(n) == text::trim_end(d) && (forall|i: int|
                n <= i < d.len() ==> text::is_space(#[trigger] d[i])) && (n > 0 ==> !text::is_space(
                d[n - 1],
            ));
        assert(t.take(n) =~= d.take(n));
        assert forall|i: int| n <= i < t.len() implies text::is_space(#[trigger] t[i]) by {
            if i < d.len() {
                assert(d[i] == t[i]);
            }
        }
        if n > 0 {
            assert(d[n - 1] == t[n - 1]);
        }
    } else {
        assert(t.take(t.len() as int) =~= t);
    }
}

/// Parts are joined with one separator between each two of them.
pub proof fn law_joined_parts(parts: Seq<Seq<char>>, sep: char, part: Seq<char>)
    ensures
        text::joined(Seq::empty(), sep) == Seq::<char>::empty(),
        text::joined(seq![part], sep) == part,
        parts.len() > 0 ==> text::joined(parts.push(part), sep) == text::joined(parts, sep) + seq![
            sep,
        ] + part,
{
    if parts.len() > 0 {
        assert(parts.push(part).drop_last() =~= parts);
        assert(text::joined(parts.push(part), sep) =~= text::joined(parts, sep) + seq![sep] + part);
    }
}

/// A line is cut into words at its blanks: a word stands for itself, a blank parts
/// what stands before it from what stands behind it, and there is no empty word.
pub proof fn law_words_stand_between_blanks(a: Seq<char>, blank: char, b: Seq<char>)
    requires
        text::is_space(blank),
    ensures
        text::words(a + seq![blank] + b) == text::words(a) + text::words(b),
        text::is_word(b) ==> text::words(b) == seq![b],
        text::words(Seq::empty()).len() == 0,
        forall|i: int| 0 <= i < text::words(a).len() ==> text::is_word(#[trigger] text::words(a)[i]),
{
    text::lemma_words_concat(a, blank, b);
    assert(a + seq![blank] + b =~= a.push(blank) + b);
    if text::is_word(b) {
        text::lemma_words_of_word(b);
    }
    text::lemma_words_are_words(a);
}

/// Dropping quotes takes away all of them at both ends and nothing else.
pub proof fn law_unquoting(s: Seq<char>, q: char)
    ensures
        exists|a: int, b: int| #[trigger]
            unquotes(s, q, a, b) && text::trimmed_char(s, q) == s.subrange(a, b),
{
    lemma_unquote_start(s, q);
    let a = choose|a: int|
        0 <= a <= s.len() && #[trigger] s.skip(a) == text::trim_start_char(s, q) && (forall|i: int|
            0 <= i < a ==> #[trigger] s[i] == q) && (a < s.len() ==> s[a] != q);
    let t = text::trim_start_char(s, q);
    lemma_unquote_end(t, q);
    let n = choose|n: int|
        0 <= n <= t.len() && #[trigger] t.take(n) == text::trim_end_char(t, q) && (forall|i: int|
            n <= i < t.len() ==> #[trigger] t[i] == q) && (n > 0 ==> t[n - 1] != q);
    let b = a + n;
    assert(s.subrange(a, b) =~= t.take(n));
    assert(unquotes(s, q, a, b)) by {
        assert forall|i: int| b <= i < s.len() implies #[trigger] s[i] == q by {
            assert(t[i - a] == s[i]);
        }
        if a < b {
            assert(t[n - 1] == s[b - 1]);
        }
    }
}

/// Whether the part of a text from `a` to `b` is what is left without the quotes at
/// its ends.
pub open spec fn unquotes(s: Seq<char>, q: char, a: int, b: int) -> bool {
    &&& 0 <= a <= b <= s.len()
    &&& forall|i: int| 0 <= i < a ==> #[trigger] s[i] == q
    &&& forall|i: int| b <= i < s.len() ==> #[trigger] s[i] == q
    &&& a < b ==> s[a] != q && s[b - 1] != q
}

proof fn lemma_unquote_start(s: Seq<char>, q: char)
    ensures
        exists|a: int|
            0 <= a <= s.len() && #[trigger] s.skip(a) == text::trim_start_char(s, q) && (forall|
                i: int,
            |
                0 <= i < a ==> #[trigger] s[i] == q) && (a < s.len() ==> s[a] != q),
    decreases s.len(),
{
    if s.len() > 0 && s[0] == q {
        let d = s.drop_first();
        lemma_unquote_start(d, q);
        let a = choose|a: int|
            0 <= a <= d.len() && #[trigger] d.skip(a) == text::trim_start_char(d, q) && (forall|
                i: int,
            |
                0 <= i < a ==> #[trigger] d[i] == q) && (a < d.len() ==> d[a] != q);
        assert(s.skip(a + 1) =~= d.skip(a));
        assert forall|i: int| 0 <= i < a + 1 implies #[trigger] s[i] == q by {
            if i > 0 {
                assert(d[i - 1] == s[i]);
            }
        }
        if a + 1 < s.len() {
            assert(d[a] == s[a + 1]);
        }
    } else {
        assert(s.skip(0) =~= s);
    }
}

proof fn lemma_unquote_end(t: Seq<char>, q: char)
    ensures
        exists|n: int|
            0 <= n <= t.len() && #[trigger] t.take(n) == text::trim_end_char(t, q) && (forall|
                i: int,
            |
                n <= i < t.len() ==> #[trigger] t[i] == q) && (n > 0 ==> t[n - 1] != q),
    decreases t.len(),
{
    if t.len() > 0 && t.last() == q {
        let d = t.drop_last();
        lemma_unquote_end(d, q);
        let n = choose|n: int|
            0 <= n <= d.len() && #[trigger] d.take(n) == text::trim_end_char(d, q) && (forall|
                i: int,
            |
                n <= i < d.len() ==> #[trigger] d[i] == q) && (n > 0 ==> d[n - 1] != q);
        assert(t.take(n) =~= d.take(n));
        assert forall|i: int| n <= i < t.len() implies #[trigger] t[i] == q by {
            if i < d.len() {
                assert(d[i] == t[i]);
            }
        }
        if n > 0 {
            assert(d[n - 1] == t[n - 1]);
        }
    } else {
        assert(t.take(t.len() as int) =~= t);
    }
}

/// The ASCII letters differ from their lower-case forms by their case alone.
pub proof fn law_lower_case(c: char)
    ensures
        text::ascii_lower('A') == 'a' && text::ascii_lower('M') == 'm' && text::ascii_lower('Z')
            == 'z',
        !('A' <= c && c <= 'Z') ==> text::ascii_lower(c) == c,
        'A' <= c && c <= 'Z' ==> text::ascii_lower(c) as u32 == c as u32 + 32,
{
}

/// The digits that an id is written with, and the characters that can stand in a
/// word of ASCII.
pub proof fn law_ascii_classes(c: char)
    ensures
        note::hex_digit(c) <==> 48 <= c as int <= 57 || 97 <= c as int <= 102,
        text::ascii_alphanumeric(c) <==> 48 <= c as int <= 57 || 65 <= c as int <= 90 || 97
            <= c as int <= 122,
{
}

} // verus!
