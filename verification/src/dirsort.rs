//! Entries of a local directory as the directory view shows them: hidden
//! entries left out unless asked for, directories apart from files, each
//! group in a stable order by lower-cased name. Names compare as `str`
//! does: character by character, by code point.
use vstd::prelude::*;
use crate::text::{chars_of, lowercased, to_lowercase};

verus! {

/// An entry read from a local directory.
#[derive(Debug, Clone, PartialEq, Eq)]
pub struct LocalEntry {
    pub name: String,
    pub is_dir: bool,
    /// Size in bytes
    pub size: u64,
}

impl LocalEntry {
    /// A copy of the entry.
    pub fn duplicate(&self) -> (d: LocalEntry)
        ensures
            d == *self,
    {
        LocalEntry { name: self.name.clone(), is_dir: self.is_dir, size: self.size }
    }
}

/// `a` sorts strictly before `b`: at the first difference the smaller
/// code point, or `a` a proper prefix of `b`.
pub open spec fn code_lt(a: Seq<char>, b: Seq<char>) -> bool
    decreases a.len(),
{
    if a.len() == 0 {
        b.len() > 0
    } else if b.len() == 0 {
        false
    } else if a[0] != b[0] {
        (a[0] as u32) < (b[0] as u32)
    } else {
        code_lt(a.drop_first(), b.drop_first())
    }
}

/// Whether `a` sorts strictly before `b`.
pub fn chars_lt(a: &Vec<char>, b: &Vec<char>) -> (r: bool)
    ensures
        r == code_lt(a@, b@),
{
    let mut i: usize = 0;
    assert(a@.skip(0) =~= a@ && b@.skip(0) =~= b@);
    while i < a.len() && i < b.len()
        invariant
            0 <= i <= a@.len(),
            i <= b@.len(),
            code_lt(a@, b@) == code_lt(a@.skip(i as int), b@.skip(i as int)),
        decreases a@.len() - i,
    {
        assert(a@.skip(i as int)[0] == a@[i as int]);
        assert(b@.skip(i as int)[0] == b@[i as int]);
        if a[i] != b[i] {
            return (a[i] as u32) < (b[i] as u32);
        }
        assert(a@.skip(i as int).drop_first() =~= a@.skip(i + 1));
        assert(b@.skip(i as int).drop_first() =~= b@.skip(i + 1));
        i = i + 1;
    }
    i < b.len()
}

/// The key an entry sorts by.
pub open spec fn sort_key(e: LocalEntry) -> Seq<char> {
    lowercased(e.name@)
}

/// `e` put into the sorted `s` after every entry that does not sort after
/// it.
pub open spec fn insert_sorted(s: Seq<LocalEntry>, e: LocalEntry) -> Seq<LocalEntry>
    decreases s.len(),
{
    if s.len() == 0 {
        seq![e]
    } else if code_lt(sort_key(e), sort_key(s.last())) {
        insert_sorted(s.drop_last(), e).push(s.last())
    } else {
        s.push(e)
    }
}

/// The entries in a stable order by key.
pub open spec fn sorted_by_name(s: Seq<LocalEntry>) -> Seq<LocalEntry>
    decreases s.len(),
{
    if s.len() == 0 {
        s
    } else {
        insert_sorted(sorted_by_name(s.drop_last()), s.last())
    }
}

/// Whether an entry is listed: hidden (dot) entries only when asked for.
pub open spec fn listed(e: LocalEntry, show_hidden: bool) -> bool {
    show_hidden || !(e.name@.len() > 0 && e.name@[0] == '.')
}

/// The listed directories (or files) among the first `n` entries, in
/// their order.
pub open spec fn picked(es: Seq<LocalEntry>, show_hidden: bool, dirs: bool, n: nat) -> Seq<LocalEntry>
    decreases n,
{
    if n == 0 {
        Seq::empty()
    } else {
        let prev = picked(es, show_hidden, dirs, (n - 1) as nat);
        let e = es[n - 1];
        if listed(e, show_hidden) && e.is_dir == dirs {
            prev.push(e)
        } else {
            prev
        }
    }
}

/// The listed directories, or files, of a directory, sorted by name.
pub open spec fn shown_entries(es: Seq<LocalEntry>, show_hidden: bool, dirs: bool) -> Seq<LocalEntry> {
    sorted_by_name(picked(es, show_hidden, dirs, es.len()))
}

proof fn lemma_insert_at(s: Seq<LocalEntry>, e: LocalEntry, j: int)
    requires
        0 <= j <= s.len(),
        forall|t: int| j <= t < s.len() ==> code_lt(sort_key(e), #[trigger] sort_key(s[t])),
        j > 0 ==> !code_lt(sort_key(e), sort_key(s[j - 1])),
    ensures
        insert_sorted(s, e) == s.take(j).push(e) + s.skip(j),
    decreases s.len(),
{
    if s.len() == 0 {
        assert(s.take(j).push(e) + s.skip(j) =~= seq![e]);
    } else if j == s.len() {
        assert(s.last() == s[j - 1]);
        assert(s.take(j).push(e) + s.skip(j) =~= s.push(e));
    } else {
        let last = s.last();
        assert(last == s[s.len() - 1]);
        assert(code_lt(sort_key(e), sort_key(last)));
        let r = s.drop_last();
        assert forall|t: int| j <= t < r.len() implies code_lt(sort_key(e), #[trigger] sort_key(r[t])) by {
            assert(r[t] == s[t]);
        }
        if j > 0 {
            assert(r[j - 1] == s[j - 1]);
        }
        lemma_insert_at(r, e, j);
        assert((r.take(j).push(e) + r.skip(j)).push(last) =~= s.take(j).push(e) + s.skip(j));
    }
}

/// Inserts `e` (with key `k`) into the sorted `v`, keys kept alongside.
fn insert_entry(v: &mut Vec<LocalEntry>, keys: &mut Vec<Vec<char>>, e: LocalEntry, k: Vec<char>)
    requires
        old(keys)@.len() == old(v)@.len(),
        forall|t: int| 0 <= t < old(v)@.len() ==> #[trigger] old(keys)@[t]@ == sort_key(old(v)@[t]),
        k@ == sort_key(e),
    ensures
        final(v)@ == insert_sorted(old(v)@, e),
        final(keys)@.len() == final(v)@.len(),
        forall|t: int| 0 <= t < final(v)@.len() ==> #[trigger] final(keys)@[t]@ == sort_key(final(v)@[t]),
{
    let mut j: usize = v.len();
    while j > 0
        invariant
            j <= v@.len(),
            keys@.len() == v@.len(),
            v@ == old(v)@,
            keys@ == old(keys)@,
            forall|t: int| 0 <= t < v@.len() ==> #[trigger] keys@[t]@ == sort_key(v@[t]),
            k@ == sort_key(e),
            forall|t: int| j <= t < v@.len() ==> code_lt(sort_key(e), #[trigger] sort_key(v@[t])),
        ensures
            j <= v@.len(),
            forall|t: int| j <= t < v@.len() ==> code_lt(sort_key(e), #[trigger] sort_key(v@[t])),
            j > 0 ==> !code_lt(sort_key(e), sort_key(v@[j - 1])),
        decreases j,
    {
        assert(keys@[j - 1]@ == sort_key(v@[j - 1]));
        if !chars_lt(&k, &keys[j - 1]) {
            break;
        }
        j = j - 1;
    }
    proof {
        lemma_insert_at(v@, e, j as int);
    }
    let ghost s0 = v@;
    let ghost k0 = keys@;
    v.insert(j, e);
    keys.insert(j, k);
    assert(v@ =~= s0.take(j as int).push(e) + s0.skip(j as int));
    assert forall|t: int| 0 <= t < v@.len() implies #[trigger] keys@[t]@ == sort_key(v@[t]) by {
        if t < j {
            assert(keys@[t] == k0[t] && v@[t] == s0[t]);
        } else if t > j {
            assert(keys@[t] == k0[t - 1] && v@[t] == s0[t - 1]);
        }
    }
}

/// The listed directories (`dirs`) or files of `entries`, sorted by name.
pub fn shown_local_entries(entries: &Vec<LocalEntry>, show_hidden: bool, dirs: bool) -> (v: Vec<LocalEntry>)
    ensures
        v@ == shown_entries(entries@, show_hidden, dirs),
{
    let mut v: Vec<LocalEntry> = Vec::new();
    let mut keys: Vec<Vec<char>> = Vec::new();
    let mut i: usize = 0;
    while i < entries.len()
        invariant
            0 <= i <= entries@.len(),
            keys@.len() == v@.len(),
            forall|t: int| 0 <= t < v@.len() ==> #[trigger] keys@[t]@ == sort_key(v@[t]),
            v@ == sorted_by_name(picked(entries@, show_hidden, dirs, i as nat)),
        decreases entries@.len() - i,
    {
        let e = &entries[i];
        let cs = chars_of(e.name.as_str());
        let hidden = cs.len() > 0 && cs[0] == '.';
        let ghost before = picked(entries@, show_hidden, dirs, i as nat);
        if (show_hidden || !hidden) && e.is_dir == dirs {
            let lower = to_lowercase(e.name.as_str());
            let k = chars_of(lower.as_str());
            let d = e.duplicate();
            insert_entry(&mut v, &mut keys, d, k);
            assert(picked(entries@, show_hidden, dirs, (i + 1) as nat) == before.push(entries@[i as int]));
            assert(before.push(entries@[i as int]).drop_last() =~= before);
        }
        i = i + 1;
    }
    v
}

/// Sorting keeps every entry: the sorted sequence has the same length, and
/// each entry of it is one of the originals.
pub proof fn law_sorting_keeps_entries(s: Seq<LocalEntry>)
    ensures
        sorted_by_name(s).len() == s.len(),
        forall|e: LocalEntry| sorted_by_name(s).contains(e) ==> s.contains(e),
    decreases s.len(),
{
    if s.len() > 0 {
        let d = s.drop_last();
        law_sorting_keeps_entries(d);
        lemma_insert_keeps(sorted_by_name(d), s.last());
        assert forall|e: LocalEntry| sorted_by_name(s).contains(e) implies s.contains(e) by {
            if e == s.last() {
                assert(s[s.len() - 1] == e);
            } else {
                assert(sorted_by_name(d).contains(e));
                assert(d.contains(e));
                let k = choose|k: int| 0 <= k < d.len() && d[k] == e;
                assert(s[k] == d[k]);
            }
        }
    }
}

proof fn lemma_insert_keeps(s: Seq<LocalEntry>, e: LocalEntry)
    ensures
        insert_sorted(s, e).len() == s.len() + 1,
        forall|x: LocalEntry| insert_sorted(s, e).contains(x) ==> x == e || s.contains(x),
    decreases s.len(),
{
    if s.len() == 0 {
        assert forall|x: LocalEntry| insert_sorted(s, e).contains(x) implies x == e || s.contains(x) by {
            let k = choose|k: int| 0 <= k < insert_sorted(s, e).len() && insert_sorted(s, e)[k] == x;
            assert(seq![e][k] == x);
        }
    } else {
        let r = s.drop_last();
        let last = s.last();
        lemma_insert_keeps(r, e);
        assert forall|x: LocalEntry| insert_sorted(s, e).contains(x) implies x == e || s.contains(x) by {
            let n = insert_sorted(s, e);
            let k = choose|k: int| 0 <= k < n.len() && n[k] == x;
            if code_lt(sort_key(e), sort_key(last)) {
                let m = insert_sorted(r, e);
                assert(n == m.push(last));
                if k < m.len() {
                    assert(m[k] == x);
                    assert(m.contains(x));
                    if x != e {
                        assert(r.contains(x));
                        let q = choose|q: int| 0 <= q < r.len() && r[q] == x;
                        assert(s[q] == r[q]);
                    }
                } else {
                    assert(s[s.len() - 1] == x);
                }
            } else {
                assert(n == s.push(e));
                if k < s.len() {
                    assert(s.push(e)[k] == s[k]);
                }
            }
        }
    }
}

} // verus!
