//! The list of recently opened or saved files, most recent first.

use vstd::prelude::*;
use vstd::string::*;
use crate::paths::{file_name_of, path_file_name};

verus! {

/// How many recent files are kept.
pub const RECENT_LIMIT: usize = 20;

/// A list of strings taken by their characters.
pub open spec fn texts(v: Seq<String>) -> Seq<Seq<char>> {
    v.map_values(|s: String| s@)
}

/// `s` with every occurrence of `p` taken out.
pub open spec fn without(s: Seq<Seq<char>>, p: Seq<char>) -> Seq<Seq<char>> {
    s.filter(differs_from(p))
}

/// The predicate "is not `p`".
pub open spec fn differs_from(p: Seq<char>) -> spec_fn(Seq<char>) -> bool {
    |q: Seq<char>| q != p
}

/// The list after `p` was opened or saved: `p` first, then the other entries
/// in their order, at most `RECENT_LIMIT` in all.
pub open spec fn spec_record_recent(s: Seq<Seq<char>>, p: Seq<char>) -> Seq<Seq<char>> {
    let r = seq![p] + without(s, p);
    if r.len() > RECENT_LIMIT { r.take(RECENT_LIMIT as int) } else { r }
}

/// No entry occurs twice.
pub open spec fn no_duplicates(s: Seq<Seq<char>>) -> bool {
    forall|i: int, j: int| 0 <= i < j < s.len() ==> s[i] != s[j]
}

proof fn lemma_without_push(s: Seq<Seq<char>>, x: Seq<char>, p: Seq<char>)
    ensures
        without(s.push(x), p) == (if x != p { without(s, p).push(x) } else { without(s, p) }),
{
    s.lemma_filter_push(x, differs_from(p));
}

/// The entries of `recent` other than `path`, in order.
fn entries_without(recent: &Vec<String>, path: &str) -> (out: Vec<String>)
    ensures
        texts(out@) == without(texts(recent@), path@),
{
    let mut out: Vec<String> = Vec::new();
    let mut i: usize = 0;
    while i < recent.len()
        invariant
            i <= recent.len(),
            texts(out@) == without(texts(recent@).take(i as int), path@),
        decreases recent.len() - i,
    {
        let ghost s = texts(recent@);
        assert(s.take(i + 1) =~= s.take(i as int).push(recent@[i as int]@));
        proof {
            lemma_without_push(s.take(i as int), recent@[i as int]@, path@);
        }
        let entry = recent[i].clone();
        if !crate::text::text_eq(entry.as_str(), path) {
            out.push(entry);
            assert(without(s.take(i + 1), path@) == without(s.take(i as int), path@).push(recent@[i as int]@));
            assert(texts(out@) =~= without(s.take(i as int), path@).push(recent@[i as int]@));
        } else {
            assert(without(s.take(i + 1), path@) == without(s.take(i as int), path@));
        }
        i = i + 1;
    }
    assert(texts(recent@).take(recent.len() as int) =~= texts(recent@));
    out
}

/// Puts `path` at the front of the recent files, drops its older occurrence
/// and keeps at most `RECENT_LIMIT` entries.
pub fn record_recent_file(recent: &mut Vec<String>, path: &str)
    ensures
        texts(final(recent)@) == spec_record_recent(texts(old(recent)@), path@),
{
    let mut kept = entries_without(recent, path);
    kept.insert(0, String::from_str(path));
    assert(texts(kept@) =~= seq![path@] + without(texts(old(recent)@), path@));
    kept.truncate(RECENT_LIMIT);
    assert(texts(kept@) =~= spec_record_recent(texts(old(recent)@), path@));
    *recent = kept;
}

/// Takes every occurrence of `path` out of the recent files.
pub fn remove_recent_file(recent: &mut Vec<String>, path: &str)
    ensures
        texts(final(recent)@) == without(texts(old(recent)@), path@),
{
    let kept = entries_without(recent, path);
    *recent = kept;
}

/// One entry of the recent-files list as TypeMark shows it.
#[derive(Debug)]
pub struct RecentEntry {
    pub path: String,
    pub name: String,
}

/// The name shown for a recent file: its file name, else the whole path.
pub open spec fn spec_recent_name(p: Seq<char>) -> Seq<char> {
    match path_file_name(p) {
        Some(n) => n,
        None => p,
    }
}

/// The recent files with the names to show for them, in order.
pub fn recent_file_entries(recent: &Vec<String>) -> (entries: Vec<RecentEntry>)
    ensures
        entries.len() == recent.len(),
        forall|i: int| 0 <= i < recent.len() ==> {
            &&& (#[trigger] entries@[i]).path@ == recent@[i]@
            &&& entries@[i].name@ == spec_recent_name(recent@[i]@)
        },
{
    let mut entries: Vec<RecentEntry> = Vec::new();
    let mut i: usize = 0;
    while i < recent.len()
        invariant
            i <= recent.len(),
            entries.len() == i,
            forall|k: int| 0 <= k < i ==> {
                &&& (#[trigger] entries@[k]).path@ == recent@[k]@
                &&& entries@[k].name@ == spec_recent_name(recent@[k]@)
            },
        decreases recent.len() - i,
    {
        let path = recent[i].clone();
        let name = match file_name_of(path.as_str()) {
            Some(n) => n,
            None => path.clone(),
        };
        entries.push(RecentEntry { path, name });
        i = i + 1;
    }
    entries
}


/// Filtering out `p` from a list that does not hold `p` leaves it as it is.
proof fn lemma_without_absent(s: Seq<Seq<char>>, p: Seq<char>)
    requires
        forall|i: int| 0 <= i < s.len() ==> s[i] != p,
    ensures
        without(s, p) == s,
    decreases s.len(),
{
    if s.len() > 0 {
        let t = s.drop_last();
        lemma_without_absent(t, p);
        assert(s =~= t.push(s.last()));
        lemma_without_push(t, s.last(), p);
    } else {
        reveal(Seq::filter);
    }
}

/// No entry of `without(s, p)` is `p`, and every entry of it is in `s`.
proof fn lemma_without_members(s: Seq<Seq<char>>, p: Seq<char>)
    ensures
        forall|i: int| 0 <= i < without(s, p).len() ==> without(s, p)[i] != p,
        forall|q: Seq<char>| without(s, p).contains(q) ==> s.contains(q),
{
    assert forall|i: int| 0 <= i < without(s, p).len() implies without(s, p)[i] != p by {
        s.lemma_filter_pred(differs_from(p), i);
    }
    assert forall|q: Seq<char>| without(s, p).contains(q) implies s.contains(q) by {
        s.lemma_filter_contains_rev(differs_from(p), q);
    }
}

/// Filtering keeps a list free of duplicates.
proof fn lemma_without_no_duplicates(s: Seq<Seq<char>>, p: Seq<char>)
    requires
        no_duplicates(s),
    ensures
        no_duplicates(without(s, p)),
    decreases s.len(),
{
    if s.len() > 0 {
        let t = s.drop_last();
        let x = s.last();
        assert(s =~= t.push(x));
        assert(no_duplicates(t));
        lemma_without_no_duplicates(t, p);
        lemma_without_push(t, x, p);
        lemma_without_members(t, p);
        assert forall|j: int| 0 <= j < without(t, p).len() implies without(t, p)[j] != x by {
            assert(without(t, p).contains(without(t, p)[j]));
            assert(t.contains(without(t, p)[j]));
        }
    } else {
        reveal(Seq::filter);
    }
}

/// After a file is recorded it is the first recent file, it occurs only
/// there, and the list holds at most `RECENT_LIMIT` entries.
pub proof fn lemma_record_recent_front(s: Seq<Seq<char>>, p: Seq<char>)
    ensures
        spec_record_recent(s, p).len() >= 1,
        spec_record_recent(s, p).len() <= RECENT_LIMIT,
        spec_record_recent(s, p)[0] == p,
        forall|i: int| 1 <= i < spec_record_recent(s, p).len() ==> spec_record_recent(s, p)[i] != p,
{
    lemma_without_members(s, p);
    let r = seq![p] + without(s, p);
    assert forall|i: int| 1 <= i < spec_record_recent(s, p).len() implies spec_record_recent(s, p)[i] != p by {
        assert(spec_record_recent(s, p)[i] == r[i]);
        assert(r[i] == without(s, p)[i - 1]);
    }
}

/// Recording a file keeps the recent files free of duplicates.
pub proof fn lemma_record_recent_no_duplicates(s: Seq<Seq<char>>, p: Seq<char>)
    requires
        no_duplicates(s),
    ensures
        no_duplicates(spec_record_recent(s, p)),
{
    lemma_without_no_duplicates(s, p);
    lemma_without_members(s, p);
    let w = without(s, p);
    let r = seq![p] + w;
    assert(no_duplicates(r)) by {
        assert forall|i: int, j: int| 0 <= i < j < r.len() implies r[i] != r[j] by {
            if i == 0 {
                assert(r[j] == w[j - 1]);
            } else {
                assert(r[i] == w[i - 1]);
                assert(r[j] == w[j - 1]);
            }
        }
    }
}

/// Recording the same file twice in a row gives the list that recording it
/// once gives.
pub proof fn lemma_record_recent_idempotent(s: Seq<Seq<char>>, p: Seq<char>)
    ensures
        spec_record_recent(spec_record_recent(s, p), p) == spec_record_recent(s, p),
{
    let w = without(s, p);
    let r = spec_record_recent(s, p);
    lemma_without_members(s, p);
    let tail = r.drop_first();
    assert(r =~= seq![p] + tail);
    assert forall|i: int| 0 <= i < tail.len() implies tail[i] != p by {
        assert(tail[i] == w[i]);
    }
    lemma_without_absent(tail, p);
    tail.lemma_filter_prepend(p, differs_from(p));
    assert(without(r, p) =~= tail);
    assert(seq![p] + without(r, p) =~= r);
}

/// Recording a file that is not in the list yet, while there is room, puts
/// it in front of the list and keeps every other entry in its order.
pub proof fn lemma_record_new_file(s: Seq<Seq<char>>, p: Seq<char>)
    requires
        !s.contains(p),
        s.len() < RECENT_LIMIT,
    ensures
        spec_record_recent(s, p) == seq![p] + s,
{
    assert forall|i: int| 0 <= i < s.len() implies s[i] != p by {
        if s[i] == p {
            assert(s.contains(p));
        }
    }
    lemma_without_absent(s, p);
}

/// The list never holds more than `RECENT_LIMIT` files, and recording a
/// file into a full list drops the oldest other entry.
pub proof fn lemma_record_full_list(s: Seq<Seq<char>>, p: Seq<char>)
    requires
        !s.contains(p),
        s.len() == RECENT_LIMIT,
    ensures
        spec_record_recent(s, p) == seq![p] + s.take(RECENT_LIMIT - 1),
{
    lemma_record_new_file(s.take(RECENT_LIMIT - 1), p);
    assert forall|i: int| 0 <= i < s.len() implies s[i] != p by {
        if s[i] == p {
            assert(s.contains(p));
        }
    }
    lemma_without_absent(s, p);
    assert((seq![p] + s).take(RECENT_LIMIT as int) =~= seq![p] + s.take(RECENT_LIMIT - 1));
}

} // verus!
