//! How the fields of a task are written into the columns of the store: the
//! urgency and the status by their names, the tags as one text with a
//! semicolon between them.

use crate::backend::tags::{lemma_sorted_is_unique, strictly_sorted, TagSet};
use crate::backend::task::{Status, Urgency};
use crate::strings::{from_chars, push_char, rank_strs, texts, to_chars, Rank};
use vstd::prelude::*;

verus! {

/// The character that stands between the tags in the column of the tags.
pub open spec fn separator() -> char {
    ';'
}

/// The name under which an urgency is stored.
pub open spec fn urgency_name(urgency: Urgency) -> Seq<char> {
    match urgency {
        Urgency::Low => "Low"@,
        Urgency::Medium => "Medium"@,
        Urgency::High => "High"@,
        Urgency::Critical => "Critical"@,
    }
}

/// The name under which a status is stored.
pub open spec fn status_name(status: Status) -> Seq<char> {
    match status {
        Status::Open => "Open"@,
        Status::Working => "Working"@,
        Status::Paused => "Paused"@,
        Status::Completed => "Completed"@,
    }
}

impl Urgency {
    /// The name under which the urgency is stored.
    pub fn name(&self) -> (name: String)
        ensures
            name@ == urgency_name(*self),
    {
        match self {
            Urgency::Low => String::from_str("Low"),
            Urgency::Medium => String::from_str("Medium"),
            Urgency::High => String::from_str("High"),
            Urgency::Critical => String::from_str("Critical"),
        }
    }

    /// The urgency that is stored under `name`, if `name` is the name of
    /// one.
    pub fn from_name(name: &str) -> (urgency: Option<Urgency>)
        ensures
            match urgency {
                Some(u) => name@ == urgency_name(u),
                None => forall|u: Urgency| name@ != urgency_name(u),
            },
    {
        if rank_strs(name, "Low") == Rank::Same {
            Some(Urgency::Low)
        } else if rank_strs(name, "Medium") == Rank::Same {
            Some(Urgency::Medium)
        } else if rank_strs(name, "High") == Rank::Same {
            Some(Urgency::High)
        } else if rank_strs(name, "Critical") == Rank::Same {
            Some(Urgency::Critical)
        } else {
            None
        }
    }
}

impl Status {
    /// The name under which the status is stored.
    pub fn name(&self) -> (name: String)
        ensures
            name@ == status_name(*self),
    {
        match self {
            Status::Open => String::from_str("Open"),
            Status::Working => String::from_str("Working"),
            Status::Paused => String::from_str("Paused"),
            Status::Completed => String::from_str("Completed"),
        }
    }

    /// The status that is stored under `name`, if `name` is the name of one.
    pub fn from_name(name: &str) -> (status: Option<Status>)
        ensures
            match status {
                Some(s) => name@ == status_name(s),
                None => forall|s: Status| name@ != status_name(s),
            },
    {
        if rank_strs(name, "Open") == Rank::Same {
            Some(Status::Open)
        } else if rank_strs(name, "Working") == Rank::Same {
            Some(Status::Working)
        } else if rank_strs(name, "Paused") == Rank::Same {
            Some(Status::Paused)
        } else if rank_strs(name, "Completed") == Rank::Same {
            Some(Status::Completed)
        } else {
            None
        }
    }
}

/// No two urgencies and no two statuses are stored under one name, so the
/// name read back from the store gives the value that was written.
pub proof fn lemma_names_are_distinct(a: Urgency, b: Urgency, s: Status, t: Status)
    ensures
        urgency_name(a) == urgency_name(b) ==> a == b,
        status_name(s) == status_name(t) ==> s == t,
{
    reveal_strlit("Low");
    reveal_strlit("Medium");
    reveal_strlit("High");
    reveal_strlit("Critical");
    reveal_strlit("Open");
    reveal_strlit("Working");
    reveal_strlit("Paused");
    reveal_strlit("Completed");
    if a != b && urgency_name(a) == urgency_name(b) {
        assert(urgency_name(a).len() == urgency_name(b).len());
        assert(false);
    }
    if s != t && status_name(s) == status_name(t) {
        assert(status_name(s).len() == status_name(t).len());
        assert(status_name(s)[0] == status_name(t)[0]);
        assert(false);
    }
}

/// The texts of `parts` as one text, with `sep` between each two.
pub open spec fn joined_by(parts: Seq<Seq<char>>, sep: char) -> Seq<char>
    decreases parts.len(),
{
    if parts.len() == 0 {
        Seq::empty()
    } else if parts.len() == 1 {
        parts[0]
    } else {
        parts[0].push(sep) + joined_by(parts.drop_first(), sep)
    }
}

/// The index of the first `sep` in `text`, or the length of `text` if it
/// has none.
pub open spec fn first_index(text: Seq<char>, sep: char) -> int
    decreases text.len(),
{
    if text.len() == 0 {
        0
    } else if text[0] == sep {
        0
    } else {
        1 + first_index(text.drop_first(), sep)
    }
}

/// The pieces into which the occurrences of `sep` cut `text`. A text
/// without `sep` is one piece, the empty text as well; a `sep` at the start
/// or at the end has an empty piece beside it.
pub open spec fn split_on(text: Seq<char>, sep: char) -> Seq<Seq<char>>
    decreases text.len(),
    via split_on_decreases
{
    let at = first_index(text, sep);
    if at >= text.len() {
        seq![text]
    } else {
        seq![text.take(at)] + split_on(text.skip(at + 1), sep)
    }
}

#[via_fn]
proof fn split_on_decreases(text: Seq<char>, sep: char) {
    lemma_first_index(text, sep);
}

/// The first index lies within the text or at its end, no character before
/// it is `sep`, and the character at it, if there is one, is `sep`.
pub proof fn lemma_first_index(text: Seq<char>, sep: char)
    ensures
        0 <= first_index(text, sep) <= text.len(),
        forall|k: int| 0 <= k < first_index(text, sep) ==> text[k] != sep,
        first_index(text, sep) < text.len() ==> text[first_index(text, sep)] == sep,
    decreases text.len(),
{
    if text.len() > 0 && text[0] != sep {
        let rest = text.drop_first();
        lemma_first_index(rest, sep);
        assert forall|k: int| 0 <= k < first_index(text, sep) implies text[k] != sep by {
            if k > 0 {
                assert(text[k] == rest[k - 1]);
            }
        }
    }
}

/// There is at least one piece.
pub proof fn lemma_split_on_nonempty(text: Seq<char>, sep: char)
    ensures
        split_on(text, sep).len() >= 1,
{
    lemma_first_index(text, sep);
}

/// A character that is no `sep`, put before a text, goes into its first
/// piece; a `sep` put before it begins a new, empty piece.
pub proof fn lemma_split_on_cons(c: char, text: Seq<char>, sep: char)
    ensures
        split_on(text, sep).len() >= 1,
        c != sep ==> split_on(seq![c] + text, sep) == seq![seq![c] + split_on(text, sep)[0]]
            + split_on(text, sep).drop_first(),
        c == sep ==> split_on(seq![c] + text, sep) == seq![Seq::<char>::empty()] + split_on(
            text,
            sep,
        ),
{
    let whole = seq![c] + text;
    lemma_first_index(text, sep);
    lemma_first_index(whole, sep);
    assert(whole.drop_first() =~= text);
    let at = first_index(text, sep);
    if c == sep {
        assert(whole.take(0) =~= Seq::<char>::empty());
        assert(whole.skip(1) =~= text);
    } else {
        assert(first_index(whole, sep) == at + 1);
        if at >= text.len() {
            assert(split_on(whole, sep) =~= seq![whole]);
            assert(split_on(text, sep) =~= seq![text]);
            assert(seq![seq![c] + text] + seq![text].drop_first() =~= seq![whole]);
        } else {
            assert(whole.take(at + 1) =~= seq![c] + text.take(at));
            assert(whole.skip(at + 2) =~= text.skip(at + 1));
            let tail = split_on(text.skip(at + 1), sep);
            assert(split_on(text, sep) == seq![text.take(at)] + tail);
            assert((seq![text.take(at)] + tail).drop_first() =~= tail);
            assert(split_on(whole, sep) =~= seq![seq![c] + text.take(at)] + tail);
        }
    }
}

/// Tags that are written into the column come back as they were, if there
/// is a tag at all and no tag has the separator in it.
pub proof fn lemma_split_undoes_join(parts: Seq<Seq<char>>, sep: char)
    requires
        parts.len() >= 1,
        forall|i: int, k: int|
            0 <= i < parts.len() && 0 <= k < parts[i].len() ==> parts[i][k] != sep,
    ensures
        split_on(joined_by(parts, sep), sep) == parts,
    decreases parts.len(), parts[0].len(),
{
    let first = parts[0];
    let rest = parts.drop_first();
    let text = joined_by(parts, sep);
    if first.len() == 0 {
        if parts.len() == 1 {
            lemma_first_index(text, sep);
            assert(split_on(text, sep) =~= parts);
        } else {
            assert forall|i: int, k: int|
                0 <= i < rest.len() && 0 <= k < rest[i].len() implies rest[i][k] != sep by {
                assert(rest[i] == parts[i + 1]);
            }
            lemma_split_undoes_join(rest, sep);
            let tail = joined_by(rest, sep);
            assert(text =~= seq![sep] + tail);
            lemma_split_on_cons(sep, tail, sep);
            assert(first =~= Seq::<char>::empty());
            assert(seq![Seq::<char>::empty()] + rest =~= parts);
        }
    } else {
        let c = first[0];
        let shorter = seq![first.drop_first()] + rest;
        assert(shorter.drop_first() =~= rest);
        assert forall|i: int, k: int|
            0 <= i < shorter.len() && 0 <= k < shorter[i].len() implies shorter[i][k] != sep by {
            if i == 0 {
                assert(shorter[0][k] == parts[0][k + 1]);
            } else {
                assert(shorter[i] == parts[i]);
            }
        }
        lemma_split_undoes_join(shorter, sep);
        let tail = joined_by(shorter, sep);
        assert(text =~= seq![c] + tail) by {
            if parts.len() == 1 {
                assert(first =~= seq![c] + first.drop_first());
            } else {
                assert(first.push(sep) + joined_by(rest, sep) =~= seq![c] + (
                first.drop_first().push(sep) + joined_by(rest, sep)));
            }
        }
        assert(c != sep);
        lemma_split_on_cons(c, tail, sep);
        assert(seq![c] + first.drop_first() =~= first);
        assert(seq![first] + shorter.drop_first() =~= parts);
    }
}

/// The tags that are read back from the column into which a tag set was
/// written are that tag set, if it holds a tag and none of its tags has the
/// separator in it: what `decode_tags` makes of what `encode_tags` made of
/// `tags` is `tags`.
pub proof fn lemma_tags_round_trip(tags: Seq<Seq<char>>, back: Seq<Seq<char>>)
    requires
        strictly_sorted(tags),
        tags.len() >= 1,
        forall|i: int, k: int|
            0 <= i < tags.len() && 0 <= k < tags[i].len() ==> tags[i][k] != separator(),
        strictly_sorted(back),
        back.to_set() == split_on(joined_by(tags, separator()), separator()).to_set(),
    ensures
        back == tags,
{
    lemma_split_undoes_join(tags, separator());
    lemma_sorted_is_unique(back, tags);
}

/// The first piece of `pieces` with `front` put before it.
pub open spec fn prefixed(front: Seq<char>, pieces: Seq<Seq<char>>) -> Seq<Seq<char>> {
    seq![front + pieces[0]] + pieces.drop_first()
}

/// The text of the column of the tags for a task with the given tags: the
/// tags in lexicographic order, with a semicolon between each two.
pub fn encode_tags(tags: &TagSet) -> (column: String)
    ensures
        column@ == joined_by(tags@, separator()),
{
    let names = tags.to_vec();
    let ghost all = tags@;
    let mut i: usize = names.len();
    proof {
        assert(all.skip(i as int) =~= Seq::<Seq<char>>::empty());
    }
    let mut chars: Vec<char> = Vec::new();
    while i > 0
        invariant
            i <= names.len(),
            texts(names@) == all,
            chars@ == joined_by(all.skip(i as int), separator()),
        decreases i,
    {
        i = i - 1;
        let mut piece = to_chars(names[i].as_str());
        let ghost tail = all.skip(i + 1);
        let ghost here = all.skip(i as int);
        proof {
            assert(here.drop_first() =~= tail);
            assert(here[0] == all[i as int]);
            assert(piece@ == all[i as int]);
        }
        if i + 1 < names.len() {
            piece.push(';');
        }
        piece.append(&mut chars);
        chars = piece;
        proof {
            if tail.len() == 0 {
                assert(here.len() == 1);
                assert(chars@ =~= here[0]);
            } else {
                assert(here.len() > 1);
            }
        }
    }
    proof {
        assert(all.skip(0) =~= all);
    }
    from_chars(&chars)
}

/// The tags that the text of the column of the tags holds: the pieces
/// between its semicolons, each once.
pub fn decode_tags(column: &str) -> (tags: TagSet)
    ensures
        tags@.to_set() == split_on(column@, separator()).to_set(),
        strictly_sorted(tags@),
{
    let chars = to_chars(column);
    let mut parts: Vec<String> = Vec::new();
    let mut piece = String::new();
    let mut i: usize = 0;
    let ghost sep = separator();
    proof {
        assert(chars@.skip(0) =~= chars@);
        lemma_split_on_nonempty(chars@, sep);
        assert(texts(parts@) + prefixed(piece@, split_on(chars@, sep)) =~= split_on(chars@, sep));
    }
    while i < chars.len()
        invariant
            i <= chars.len(),
            sep == separator(),
            split_on(chars@.skip(i as int), sep).len() >= 1,
            split_on(chars@, sep) == texts(parts@) + prefixed(
                piece@,
                split_on(chars@.skip(i as int), sep),
            ),
        decreases chars.len() - i,
    {
        let c = chars[i];
        let ghost rest = chars@.skip(i + 1);
        let ghost before = texts(parts@);
        let ghost front = piece@;
        proof {
            assert(chars@.skip(i as int) =~= seq![c] + rest);
            lemma_split_on_cons(c, rest, sep);
        }
        if c == ';' {
            let mut done = String::new();
            core::mem::swap(&mut piece, &mut done);
            parts.push(done);
            proof {
                assert(texts(parts@) =~= before.push(front));
                let pieces = split_on(rest, sep);
                assert(prefixed(front, seq![Seq::<char>::empty()] + pieces) =~= seq![front]
                    + pieces);
                assert(prefixed(piece@, pieces) =~= pieces);
            }
        } else {
            push_char(&mut piece, c);
            proof {
                let pieces = split_on(rest, sep);
                assert(front + (seq![c] + pieces[0]) =~= front.push(c) + pieces[0]);
                assert(prefixed(front, seq![seq![c] + pieces[0]] + pieces.drop_first())
                    =~= prefixed(piece@, pieces));
            }
        }
        i = i + 1;
    }
    proof {
        assert(chars@.skip(chars@.len() as int) =~= Seq::<char>::empty());
        lemma_first_index(Seq::<char>::empty(), sep);
        assert(split_on(Seq::<char>::empty(), sep) =~= seq![Seq::<char>::empty()]);
        assert(prefixed(piece@, seq![Seq::<char>::empty()]) =~= seq![piece@]);
    }
    let ghost before = texts(parts@);
    let ghost last = piece@;
    parts.push(piece);
    proof {
        assert(texts(parts@) =~= before.push(last));
        assert(texts(parts@) =~= split_on(column@, sep));
    }
    TagSet::from_vec(parts)
}

} // verus!
