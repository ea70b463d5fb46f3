//! The set of tags of a task.
//!
//! A tag set holds each tag once and hands its tags out in lexicographic
//! order, which is the order in which they are shown and in which a tag is
//! picked by its position.

use crate::strings::{
    lemma_precedes_asymmetric, lemma_precedes_transitive, precedes, rank_strs, texts, Rank,
};
use vstd::prelude::*;

verus! {

/// Each text comes strictly before every later one, so none occurs twice.
pub open spec fn strictly_sorted(s: Seq<Seq<char>>) -> bool {
    forall|i: int, j: int| 0 <= i < j < s.len() ==> precedes(#[trigger] s[i], #[trigger] s[j])
}

/// The sorted sequence `s` with `t` put in its place, or `s` itself where it
/// holds `t` already.
pub open spec fn insert_sorted(s: Seq<Seq<char>>, t: Seq<char>) -> Seq<Seq<char>>
    decreases s.len(),
{
    if s.len() == 0 {
        seq![t]
    } else if s[0] == t {
        s
    } else if precedes(t, s[0]) {
        seq![t] + s
    } else {
        seq![s[0]] + insert_sorted(s.drop_first(), t)
    }
}

/// Where the first `p` texts of `s` come before `t`, inserting `t` leaves them
/// alone and puts `t` into the rest.
proof fn lemma_insert_sorted_skips(s: Seq<Seq<char>>, t: Seq<char>, p: int)
    requires
        0 <= p <= s.len(),
        forall|i: int| 0 <= i < p ==> precedes(#[trigger] s[i], t),
    ensures
        insert_sorted(s, t) == s.take(p) + insert_sorted(s.skip(p), t),
    decreases p,
{
    if p == 0 {
        assert(s.skip(0) =~= s);
        assert(s.take(0) + insert_sorted(s, t) =~= insert_sorted(s, t));
    } else {
        let rest = s.drop_first();
        lemma_precedes_asymmetric(s[0], t);
        assert forall|i: int| 0 <= i < p - 1 implies precedes(#[trigger] rest[i], t) by {
            assert(rest[i] == s[i + 1]);
        }
        lemma_insert_sorted_skips(rest, t, p - 1);
        assert(rest.skip(p - 1) =~= s.skip(p));
        assert(seq![s[0]] + (rest.take(p - 1) + insert_sorted(s.skip(p), t)) =~= s.take(p)
            + insert_sorted(s.skip(p), t));
    }
}

/// Putting a tag into a sorted sequence keeps it sorted and adds exactly that
/// tag to what it holds.
pub proof fn lemma_insert_sorted(s: Seq<Seq<char>>, t: Seq<char>)
    requires
        strictly_sorted(s),
    ensures
        strictly_sorted(insert_sorted(s, t)),
        insert_sorted(s, t).to_set() == s.to_set().insert(t),
        s.contains(t) ==> insert_sorted(s, t) == s,
        !s.contains(t) ==> insert_sorted(s, t).len() == s.len() + 1,
    decreases s.len(),
{
    let r = insert_sorted(s, t);
    if s.len() == 0 {
        assert(r.to_set() =~= s.to_set().insert(t)) by {
            assert forall|x: Seq<char>| r.to_set().contains(x) <==> s.to_set().insert(t).contains(
                x,
            ) by {
                if x == t {
                    assert(r[0] == t);
                }
                if r.contains(x) {
                    let k = choose|k: int| 0 <= k < r.len() && r[k] == x;
                    assert(k == 0);
                }
            }
        }
    } else if s[0] == t {
        assert(s.contains(t));
        assert(r.to_set() =~= s.to_set().insert(t));
    } else if precedes(t, s[0]) {
        assert forall|i: int, j: int| 0 <= i < j < r.len() implies precedes(
            #[trigger] r[i],
            #[trigger] r[j],
        ) by {
            if i == 0 {
                if j > 1 {
                    assert(r[j] == s[j - 1]);
                    assert(precedes(s[0], s[j - 1]));
                    lemma_precedes_transitive(t, s[0], s[j - 1]);
                }
            } else {
                assert(r[i] == s[i - 1]);
                assert(r[j] == s[j - 1]);
            }
        }
        assert(!s.contains(t)) by {
            if s.contains(t) {
                let k = choose|k: int| 0 <= k < s.len() && s[k] == t;
                if k > 0 {
                    assert(precedes(s[0], s[k]));
                }
                lemma_precedes_asymmetric(t, s[0]);
            }
        }
        assert(r.to_set() =~= s.to_set().insert(t)) by {
            assert forall|x: Seq<char>| r.to_set().contains(x) <==> s.to_set().insert(t).contains(
                x,
            ) by {
                if x == t {
                    assert(r[0] == t);
                }
                if s.contains(x) {
                    let k = choose|k: int| 0 <= k < s.len() && s[k] == x;
                    assert(r[k + 1] == x);
                }
                if r.contains(x) {
                    let k = choose|k: int| 0 <= k < r.len() && r[k] == x;
                    if k > 0 {
                        assert(s[k - 1] == x);
                    }
                }
            }
        }
    } else {
        let rest = s.drop_first();
        let inner = insert_sorted(rest, t);
        assert(strictly_sorted(rest)) by {
            assert forall|i: int, j: int| 0 <= i < j < rest.len() implies precedes(
                #[trigger] rest[i],
                #[trigger] rest[j],
            ) by {
                assert(rest[i] == s[i + 1]);
                assert(rest[j] == s[j + 1]);
            }
        }
        lemma_insert_sorted(rest, t);
        crate::strings::lemma_precedes_total(t, s[0]);
        assert(precedes(s[0], t));
        assert forall|x: Seq<char>| inner.contains(x) implies precedes(s[0], x) by {
            assert(inner.to_set().contains(x));
            assert(rest.to_set().insert(t).contains(x));
            if x != t {
                assert(rest.contains(x));
                let k = choose|k: int| 0 <= k < rest.len() && rest[k] == x;
                assert(s[k + 1] == x);
            }
        }
        assert forall|i: int, j: int| 0 <= i < j < r.len() implies precedes(
            #[trigger] r[i],
            #[trigger] r[j],
        ) by {
            assert(r[j] == inner[j - 1]);
            assert(inner.contains(inner[j - 1]));
            if i > 0 {
                assert(r[i] == inner[i - 1]);
            }
        }
        assert(s.contains(t) <==> rest.contains(t)) by {
            if s.contains(t) {
                let k = choose|k: int| 0 <= k < s.len() && s[k] == t;
                assert(rest[k - 1] == t);
            }
            if rest.contains(t) {
                let k = choose|k: int| 0 <= k < rest.len() && rest[k] == t;
                assert(s[k + 1] == t);
            }
        }
        if s.contains(t) {
            assert(r =~= s);
        }
        assert(r.to_set() =~= s.to_set().insert(t)) by {
            assert forall|x: Seq<char>| r.to_set().contains(x) <==> s.to_set().insert(t).contains(
                x,
            ) by {
                if r.contains(x) {
                    let k = choose|k: int| 0 <= k < r.len() && r[k] == x;
                    if k > 0 {
                        assert(inner[k - 1] == x);
                        assert(inner.contains(x));
                        assert(inner.to_set().contains(x));
                        if x != t {
                            assert(rest.contains(x));
                            let m = choose|m: int| 0 <= m < rest.len() && rest[m] == x;
                            assert(s[m + 1] == x);
                        }
                    } else {
                        assert(s[0] == x);
                    }
                }
                if s.contains(x) || x == t {
                    if x == s[0] {
                        assert(r[0] == x);
                    } else {
                        if x != t {
                            let k = choose|k: int| 0 <= k < s.len() && s[k] == x;
                            assert(rest[k - 1] == x);
                            assert(rest.contains(x));
                        }
                        assert(rest.to_set().insert(t).contains(x));
                        assert(inner.to_set().contains(x));
                        assert(inner.contains(x));
                        let m = choose|m: int| 0 <= m < inner.len() && inner[m] == x;
                        assert(r[m + 1] == x);
                    }
                }
            }
        }
    }
}

/// The tags of a sorted sequence without its first tag: sorted as well, and
/// exactly the tags of the sequence but the first.
proof fn lemma_sorted_rest(s: Seq<Seq<char>>)
    requires
        strictly_sorted(s),
        s.len() > 0,
    ensures
        strictly_sorted(s.drop_first()),
        forall|x: Seq<char>| s.drop_first().contains(x) <==> s.contains(x) && x != s[0],
{
    let rest = s.drop_first();
    assert forall|i: int, j: int| 0 <= i < j < rest.len() implies precedes(
        #[trigger] rest[i],
        #[trigger] rest[j],
    ) by {
        assert(rest[i] == s[i + 1]);
        assert(rest[j] == s[j + 1]);
    }
    assert forall|x: Seq<char>| rest.contains(x) <==> s.contains(x) && x != s[0] by {
        if rest.contains(x) {
            let k = choose|k: int| 0 <= k < rest.len() && rest[k] == x;
            assert(s[k + 1] == x);
            assert(precedes(s[0], s[k + 1]));
            lemma_precedes_asymmetric(s[0], x);
        }
        if s.contains(x) && x != s[0] {
            let k = choose|k: int| 0 <= k < s.len() && s[k] == x;
            assert(rest[k - 1] == x);
        }
    }
}

/// A set of tags has one sorted sequence: two sorted sequences that hold the
/// same tags are the same sequence.
pub proof fn lemma_sorted_is_unique(a: Seq<Seq<char>>, b: Seq<Seq<char>>)
    requires
        strictly_sorted(a),
        strictly_sorted(b),
        a.to_set() == b.to_set(),
    ensures
        a == b,
    decreases a.len(),
{
    if a.len() == 0 || b.len() == 0 {
        if a.len() > 0 {
            assert(a.to_set().contains(a[0]));
            assert(b.contains(a[0]));
        }
        if b.len() > 0 {
            assert(b.to_set().contains(b[0]));
            assert(a.contains(b[0]));
        }
        assert(a =~= b);
    } else {
        assert(a.to_set().contains(a[0]));
        assert(b.contains(a[0]));
        assert(b.to_set().contains(b[0]));
        assert(a.contains(b[0]));
        let k = choose|k: int| 0 <= k < b.len() && b[k] == a[0];
        let m = choose|m: int| 0 <= m < a.len() && a[m] == b[0];
        if k > 0 && m > 0 {
            assert(precedes(b[0], b[k]));
            assert(precedes(a[0], a[m]));
            lemma_precedes_asymmetric(b[0], a[0]);
        }
        assert(a[0] == b[0]);
        lemma_sorted_rest(a);
        lemma_sorted_rest(b);
        let ra = a.drop_first();
        let rb = b.drop_first();
        assert(ra.to_set() =~= rb.to_set()) by {
            assert forall|x: Seq<char>| ra.to_set().contains(x) <==> rb.to_set().contains(x) by {
                assert(a.contains(x) <==> a.to_set().contains(x));
                assert(b.contains(x) <==> b.to_set().contains(x));
            }
        }
        lemma_sorted_is_unique(ra, rb);
        assert(a =~= seq![a[0]] + ra);
        assert(b =~= seq![b[0]] + rb);
    }
}

/// Putting a tag in takes no tag out.
pub proof fn lemma_insert_sorted_len(s: Seq<Seq<char>>, t: Seq<char>)
    ensures
        insert_sorted(s, t).len() >= s.len(),
    decreases s.len(),
{
    if s.len() > 0 && s[0] != t && !precedes(t, s[0]) {
        lemma_insert_sorted_len(s.drop_first(), t);
    }
}

/// A tag that is put in twice is held once: the second insertion changes
/// nothing.
pub proof fn lemma_insert_twice(s: Seq<Seq<char>>, t: Seq<char>)
    requires
        strictly_sorted(s),
    ensures
        insert_sorted(insert_sorted(s, t), t) == insert_sorted(s, t),
        insert_sorted(s, t).contains(t),
        insert_sorted(s, t).no_duplicates(),
{
    let once = insert_sorted(s, t);
    lemma_insert_sorted(s, t);
    assert(once.to_set().contains(t));
    assert(once.contains(t));
    lemma_insert_sorted(once, t);
    assert forall|i: int, j: int| 0 <= i < once.len() && 0 <= j < once.len() && i != j implies once[i]
        != once[j] by {
        if i < j {
            lemma_precedes_asymmetric(once[i], once[j]);
        } else {
            lemma_precedes_asymmetric(once[j], once[i]);
        }
    }
}

/// A sorted sequence stays sorted when one of its texts is taken out.
pub proof fn lemma_remove_keeps_sorted(s: Seq<Seq<char>>, at: int)
    requires
        strictly_sorted(s),
        0 <= at < s.len(),
    ensures
        strictly_sorted(s.remove(at)),
{
    let r = s.remove(at);
    assert forall|i: int, j: int| 0 <= i < j < r.len() implies precedes(
        #[trigger] r[i],
        #[trigger] r[j],
    ) by {
        let si = if i < at { i } else { i + 1 };
        let sj = if j < at { j } else { j + 1 };
        assert(r[i] == s[si]);
        assert(r[j] == s[sj]);
    }
}

fn insert_into(tags: &mut Vec<String>, tag: String) -> (inserted: bool)
    requires
        strictly_sorted(texts(old(tags)@)),
    ensures
        texts(final(tags)@) == insert_sorted(texts(old(tags)@), tag@),
        strictly_sorted(texts(final(tags)@)),
        inserted == !texts(old(tags)@).contains(tag@),
{
    let ghost before = texts(tags@);
    let n = tags.len();
    let mut p: usize = 0;
    let mut found = false;
    while p < n
        invariant_except_break
            !found,
        invariant
            p <= n,
            n == tags.len(),
            tags@ == old(tags)@,
            before == texts(tags@),
            forall|i: int| 0 <= i < p ==> precedes(#[trigger] before[i], tag@),
        ensures
            p <= n,
            found ==> p < n && before[p as int] == tag@,
            !found && p < n ==> precedes(tag@, before[p as int]),
        decreases n - p,
    {
        match rank_strs(tags[p].as_str(), tag.as_str()) {
            Rank::Before => {
                p += 1;
            },
            Rank::Same => {
                found = true;
                break ;
            },
            Rank::After => {
                break ;
            },
        }
    }
    proof {
        lemma_insert_sorted_skips(before, tag@, p as int);
        lemma_insert_sorted(before, tag@);
        let tail = before.skip(p as int);
        if found {
            assert(tail[0] == tag@);
            assert(before.take(p as int) + tail =~= before);
            assert(before.contains(tag@));
        } else {
            if p < n {
                assert(tail[0] == before[p as int]);
                lemma_precedes_asymmetric(tag@, before[p as int]);
                assert(insert_sorted(tail, tag@) == seq![tag@] + tail);
            } else {
                assert(tail.len() == 0);
            }
            assert(before.take(p as int) + (seq![tag@] + tail) =~= before.insert(p as int, tag@));
            assert(!before.contains(tag@)) by {
                if before.contains(tag@) {
                    let k = choose|k: int| 0 <= k < before.len() && before[k] == tag@;
                    if k < p {
                        lemma_precedes_asymmetric(before[k], tag@);
                    } else if k > p {
                        assert(precedes(before[p as int], before[k]));
                        lemma_precedes_asymmetric(before[p as int], tag@);
                    } else {
                        lemma_precedes_asymmetric(tag@, before[p as int]);
                    }
                }
            }
        }
    }
    if found {
        false
    } else {
        tags.insert(p, tag);
        assert(texts(tags@) =~= before.insert(p as int, tag@));
        true
    }
}

fn remove_from(tags: &mut Vec<String>, at: usize) -> (tag: String)
    requires
        strictly_sorted(texts(old(tags)@)),
        at < old(tags)@.len(),
    ensures
        texts(final(tags)@) == texts(old(tags)@).remove(at as int),
        strictly_sorted(texts(final(tags)@)),
        tag@ == texts(old(tags)@)[at as int],
{
    proof {
        lemma_remove_keeps_sorted(texts(tags@), at as int);
    }
    let tag = tags.remove(at);
    assert(texts(tags@) =~= texts(old(tags)@).remove(at as int));
    tag
}

/// A set of tags, kept in lexicographic order.
#[derive(Debug, PartialEq, Eq)]
pub struct TagSet {
    tags: Vec<String>,
}

impl View for TagSet {
    type V = Seq<Seq<char>>;

    /// The tags, in lexicographic order.
    closed spec fn view(&self) -> Seq<Seq<char>> {
        texts(self.tags@)
    }
}

impl TagSet {
    #[verifier::type_invariant]
    spec fn ordered(&self) -> bool {
        strictly_sorted(texts(self.tags@))
    }

    /// The set with no tag in it.
    pub fn new() -> (set: TagSet)
        ensures
            set@ == Seq::<Seq<char>>::empty(),
    {
        let set = TagSet { tags: Vec::new() };
        assert(set@ =~= Seq::<Seq<char>>::empty());
        set
    }

    /// The number of tags.
    pub fn len(&self) -> (n: usize)
        ensures
            n == self@.len(),
            strictly_sorted(self@),
    {
        proof {
            use_type_invariant(self);
        }
        self.tags.len()
    }

    /// Whether the set holds no tag.
    pub fn is_empty(&self) -> (empty: bool)
        ensures
            empty == (self@.len() == 0),
    {
        self.tags.len() == 0
    }

    /// The tag at position `at` of the sorted tags, if there is one.
    pub fn get(&self, at: usize) -> (tag: Option<&String>)
        ensures
            at < self@.len() ==> tag is Some && tag->0@ == self@[at as int],
            at >= self@.len() ==> tag is None,
    {
        if at < self.tags.len() {
            Some(&self.tags[at])
        } else {
            None
        }
    }

    /// Whether `tag` is in the set.
    pub fn contains(&self, tag: &str) -> (found: bool)
        ensures
            found == self@.contains(tag@),
    {
        let mut i: usize = 0;
        while i < self.tags.len()
            invariant
                i <= self.tags.len(),
                forall|j: int| 0 <= j < i ==> self@[j] != tag@,
            decreases self.tags.len() - i,
        {
            if rank_strs(self.tags[i].as_str(), tag) == Rank::Same {
                assert(self@[i as int] == tag@);
                return true;
            }
            i += 1;
        }
        false
    }

    /// Puts `tag` into the set. Returns whether it was new; a tag that the
    /// set holds already is not added a second time.
    pub fn insert(&mut self, tag: String) -> (inserted: bool)
        ensures
            final(self)@ == insert_sorted(old(self)@, tag@),
            final(self)@.to_set() == old(self)@.to_set().insert(tag@),
            strictly_sorted(final(self)@),
            inserted == !old(self)@.contains(tag@),
    {
        proof {
            use_type_invariant(&*self);
            lemma_insert_sorted(self@, tag@);
        }
        let mut tags: Vec<String> = Vec::new();
        core::mem::swap(&mut self.tags, &mut tags);
        let inserted = insert_into(&mut tags, tag);
        self.tags = tags;
        inserted
    }

    /// Takes the tag at position `at` of the sorted tags out of the set and
    /// returns it. Where there is no such position the set stays as it is.
    pub fn remove_at(&mut self, at: usize) -> (tag: Option<String>)
        ensures
            at < old(self)@.len() ==> tag is Some && tag->0@ == old(self)@[at as int],
            at < old(self)@.len() ==> final(self)@ == old(self)@.remove(at as int),
            at >= old(self)@.len() ==> tag is None && final(self)@ == old(self)@,
            strictly_sorted(final(self)@),
    {
        proof {
            use_type_invariant(&*self);
        }
        if at < self.tags.len() {
            let mut tags: Vec<String> = Vec::new();
            core::mem::swap(&mut self.tags, &mut tags);
            let tag = remove_from(&mut tags, at);
            self.tags = tags;
            Some(tag)
        } else {
            None
        }
    }

    /// The tags in lexicographic order, each as a string of its own.
    pub fn to_vec(&self) -> (tags: Vec<String>)
        ensures
            texts(tags@) == self@,
            strictly_sorted(self@),
    {
        proof {
            use_type_invariant(self);
        }
        let mut out: Vec<String> = Vec::new();
        let mut i: usize = 0;
        while i < self.tags.len()
            invariant
                i <= self.tags.len(),
                texts(out@) == self@.take(i as int),
            decreases self.tags.len() - i,
        {
            let tag = self.tags[i].clone();
            let ghost before = out@;
            assert(tag@ == self@[i as int]);
            out.push(tag);
            assert(texts(out@) =~= texts(before).push(self@[i as int]));
            assert(self@.take(i + 1) =~= self@.take(i as int).push(self@[i as int]));
            i += 1;
        }
        assert(self@.take(self@.len() as int) =~= self@);
        out
    }

    /// The set of the tags in `tags`: each of them once, whatever their order
    /// and however often they occur there.
    pub fn from_vec(tags: Vec<String>) -> (set: TagSet)
        ensures
            set@.to_set() == texts(tags@).to_set(),
            strictly_sorted(set@),
    {
        let mut set = TagSet::new();
        let mut i: usize = 0;
        while i < tags.len()
            invariant
                i <= tags.len(),
                set@.to_set() == texts(tags@).take(i as int).to_set(),
                strictly_sorted(set@),
            decreases tags.len() - i,
        {
            let tag = tags[i].clone();
            set.insert(tag);
            proof {
                let all = texts(tags@);
                assert(all.take(i + 1) =~= all.take(i as int).push(all[i as int]));
                assert(all.take(i + 1).to_set() =~= all.take(i as int).to_set().insert(
                    all[i as int],
                )) by {
                    let a = all.take(i as int);
                    let b = all.take(i + 1);
                    assert forall|x: Seq<char>| b.to_set().contains(x) <==> a.to_set().insert(
                        all[i as int],
                    ).contains(x) by {
                        if b.contains(x) {
                            let k = choose|k: int| 0 <= k < b.len() && b[k] == x;
                            if k < i {
                                assert(a[k] == x);
                            }
                        }
                        if a.contains(x) {
                            let k = choose|k: int| 0 <= k < a.len() && a[k] == x;
                            assert(b[k] == x);
                        }
                        if x == all[i as int] {
                            assert(b[i as int] == x);
                        }
                    }
                }
            }
            i += 1;
        }
        assert(texts(tags@).take(tags@.len() as int) =~= texts(tags@));
        set
    }
}

impl Clone for TagSet {
    fn clone(&self) -> (copy: Self)
        ensures
            copy@ == self@,
    {
        proof {
            use_type_invariant(self);
        }
        let tags = self.to_vec();
        TagSet { tags }
    }
}

} // verus!
