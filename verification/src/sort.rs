//! Stable sorting of records by a text key, as `sort()` orders the
//! listings of the server: files and directories by name, files with
//! their flags by name then flags, and plain strings.

use vstd::prelude::*;
use crate::model::{DirectoryInfo, FileInfo};
use crate::text::{chars_eq, chars_lt, chars_of, seq_lt};

verus! {

/// A sort key: a text compared lexicographically, then a rank.
pub type Key = (Seq<char>, int);

/// `a` comes before `b` or is equal to it.
pub open spec fn key_le(a: Key, b: Key) -> bool {
    seq_lt(a.0, b.0) || (a.0 == b.0 && a.1 <= b.1)
}

/// The number of leading entries of `s` whose key is at most `k`: where
/// a stable insertion puts an entry of key `k`.
pub open spec fn insert_pos<T>(s: Seq<(Key, T)>, k: Key) -> int
    decreases s.len(),
{
    if s.len() == 0 {
        0
    } else if key_le(s[0].0, k) {
        1 + insert_pos(s.drop_first(), k)
    } else {
        0
    }
}

/// `s` sorted by key, equal keys keeping their order (insertion sort).
pub open spec fn sort_by_key<T>(s: Seq<(Key, T)>) -> Seq<(Key, T)>
    decreases s.len(),
{
    if s.len() == 0 {
        s
    } else {
        let r = sort_by_key(s.drop_last());
        r.insert(insert_pos(r, s.last().0), s.last())
    }
}

/// Every entry's key is at most the next ones'.
pub open spec fn sorted_by_key<T>(s: Seq<(Key, T)>) -> bool {
    forall|i: int, j: int| 0 <= i < j < s.len() ==> key_le(#[trigger] s[i].0, #[trigger] s[j].0)
}

/// An executable sort key.
pub struct SortKey {
    pub text: Vec<char>,
    pub rank: u8,
}

/// The key that a `SortKey` holds.
pub open spec fn key_of(k: SortKey) -> Key {
    (k.text@, k.rank as int)
}

/// The entries made of `keys` and `items`, side by side.
pub open spec fn keyed<T>(keys: Seq<SortKey>, items: Seq<T>) -> Seq<(Key, T)> {
    Seq::new(items.len(), |i: int| (key_of(keys[i]), items[i]))
}

/// The items of keyed entries.
pub open spec fn items_of<T>(s: Seq<(Key, T)>) -> Seq<T> {
    s.map_values(|e: (Key, T)| e.1)
}

fn key_le_exec(a: &SortKey, b: &SortKey) -> (r: bool)
    ensures
        r == key_le(key_of(*a), key_of(*b)),
{
    if chars_lt(&a.text, &b.text) {
        true
    } else if chars_eq(&a.text, &b.text) {
        a.rank <= b.rank
    } else {
        false
    }
}

proof fn lemma_insert_pos_bound<T>(s: Seq<(Key, T)>, k: Key)
    ensures
        0 <= insert_pos(s, k) <= s.len(),
    decreases s.len(),
{
    if s.len() > 0 && key_le(s[0].0, k) {
        lemma_insert_pos_bound(s.drop_first(), k);
    }
}

proof fn lemma_sort_len<T>(s: Seq<(Key, T)>)
    ensures
        sort_by_key(s).len() == s.len(),
    decreases s.len(),
{
    if s.len() > 0 {
        let r = sort_by_key(s.drop_last());
        lemma_sort_len(s.drop_last());
        lemma_insert_pos_bound(r, s.last().0);
    }
}

/// Finds where a stable insertion of key `k` goes in `keys`.
fn find_insert_pos<T>(keys: &Vec<SortKey>, items: &Vec<T>, k: &SortKey) -> (p: usize)
    requires
        keys@.len() == items@.len(),
    ensures
        p as int == insert_pos(keyed(keys@, items@), key_of(*k)),
        p <= keys@.len(),
{
    let ghost s = keyed(keys@, items@);
    let mut p: usize = 0;
    assert(s.skip(0) =~= s);
    while p < keys.len() && key_le_exec(&keys[p], k)
        invariant
            keys@.len() == items@.len(),
            s == keyed(keys@, items@),
            p <= keys@.len(),
            p + insert_pos(s.skip(p as int), key_of(*k)) == insert_pos(s, key_of(*k)),
        decreases keys@.len() - p,
    {
        assert(s.skip(p as int).drop_first() =~= s.skip(p as int + 1));
        assert(s.skip(p as int)[0] == s[p as int]);
        p = p + 1;
    }
    if p < keys.len() {
        assert(s.skip(p as int)[0] == s[p as int]);
    }
    p
}

/// Sorts `items` by `keys` (one key per item), stably.
pub fn stable_sort<T>(items: Vec<T>, keys: Vec<SortKey>) -> (r: (Vec<T>, Vec<SortKey>))
    requires
        items@.len() == keys@.len(),
    ensures
        r.0@.len() == r.1@.len(),
        keyed(r.1@, r.0@) == sort_by_key(keyed(keys@, items@)),
{
    let ghost input = keyed(keys@, items@);
    let len0 = items.len();
    let ghost n = items@.len();
    let mut rest_items = items;
    let mut rest_keys = keys;
    let mut out_items: Vec<T> = Vec::new();
    let mut out_keys: Vec<SortKey> = Vec::new();
    let mut i: usize = 0;
    assert(input.take(0) =~= Seq::<(Key, T)>::empty());
    while rest_items.len() > 0
        invariant
            rest_items@.len() == rest_keys@.len(),
            out_items@.len() == out_keys@.len(),
            i + rest_items@.len() == n,
            n == len0,
            n == input.len(),
            keyed(rest_keys@, rest_items@) == input.skip(i as int),
            keyed(out_keys@, out_items@) == sort_by_key(input.take(i as int)),
        decreases rest_items@.len(),
    {
        let ghost before_rest = keyed(rest_keys@, rest_items@);
        let item = rest_items.remove(0);
        let key = rest_keys.remove(0);
        assert(before_rest[0] == (key_of(key), item));
        assert(keyed(rest_keys@, rest_items@) =~= input.skip(i as int + 1)) by {
            assert forall|j: int| 0 <= j < rest_items@.len() implies keyed(
                rest_keys@,
                rest_items@,
            )[j] == input.skip(i as int + 1)[j] by {
                assert(before_rest[j + 1] == input.skip(i as int)[j + 1]);
            }
        }
        let ghost sorted_before = keyed(out_keys@, out_items@);
        let p = find_insert_pos(&out_keys, &out_items, &key);
        out_items.insert(p, item);
        out_keys.insert(p, key);
        proof {
            let t = input.take(i as int + 1);
            assert(t.drop_last() =~= input.take(i as int));
            assert(t.last() == input[i as int]);
            assert(input[i as int] == input.skip(i as int)[0]);
            assert(keyed(out_keys@, out_items@) =~= sorted_before.insert(
                p as int,
                (key_of(key), item),
            ));
        }
        i = i + 1;
    }
    assert(input.take(n as int) =~= input);
    (out_items, out_keys)
}

// ---------------------------------------------------------------------
// The order of keys
// ---------------------------------------------------------------------

pub proof fn lemma_seq_lt_irreflexive(a: Seq<char>)
    ensures
        !seq_lt(a, a),
    decreases a.len(),
{
    if a.len() > 0 {
        lemma_seq_lt_irreflexive(a.drop_first());
    }
}

proof fn lemma_seq_lt_transitive(a: Seq<char>, b: Seq<char>, c: Seq<char>)
    requires
        seq_lt(a, b),
        seq_lt(b, c),
    ensures
        seq_lt(a, c),
    decreases a.len(),
{
    if a.len() > 0 && b.len() > 0 && c.len() > 0 {
        if a[0] == b[0] && b[0] == c[0] {
            lemma_seq_lt_transitive(a.drop_first(), b.drop_first(), c.drop_first());
        }
    }
}

proof fn lemma_seq_lt_total(a: Seq<char>, b: Seq<char>)
    ensures
        seq_lt(a, b) || seq_lt(b, a) || a == b,
    decreases a.len(),
{
    if a.len() > 0 && b.len() > 0 {
        if a[0] == b[0] {
            lemma_seq_lt_total(a.drop_first(), b.drop_first());
            if a.drop_first() == b.drop_first() {
                assert(a =~= seq![a[0]] + a.drop_first());
                assert(b =~= seq![b[0]] + b.drop_first());
            }
        }
    } else if a.len() == 0 && b.len() == 0 {
        assert(a =~= b);
    }
}

pub proof fn lemma_seq_lt_asymmetric(a: Seq<char>, b: Seq<char>)
    requires
        seq_lt(a, b),
    ensures
        !seq_lt(b, a),
{
    if seq_lt(b, a) {
        lemma_seq_lt_transitive(a, b, a);
        lemma_seq_lt_irreflexive(a);
    }
}

/// Keys are totally ordered.
proof fn lemma_key_le_total(a: Key, b: Key)
    ensures
        key_le(a, b) || key_le(b, a),
{
    lemma_seq_lt_total(a.0, b.0);
}

/// The order of keys is transitive.
proof fn lemma_key_le_transitive(a: Key, b: Key, c: Key)
    requires
        key_le(a, b),
        key_le(b, c),
    ensures
        key_le(a, c),
{
    if seq_lt(a.0, b.0) && seq_lt(b.0, c.0) {
        lemma_seq_lt_transitive(a.0, b.0, c.0);
    }
}

/// `key_le(a, b)` fails only when `b` comes strictly before `a`.
proof fn lemma_not_key_le(a: Key, b: Key)
    requires
        !key_le(a, b),
    ensures
        key_le(b, a),
{
    lemma_key_le_total(a, b);
}

proof fn lemma_insert_pos_split<T>(s: Seq<(Key, T)>, k: Key)
    requires
        sorted_by_key(s),
    ensures
        forall|i: int| 0 <= i < insert_pos(s, k) ==> key_le(#[trigger] s[i].0, k),
        forall|i: int| insert_pos(s, k) <= i < s.len() ==> !key_le(#[trigger] s[i].0, k),
    decreases s.len(),
{
    lemma_insert_pos_bound(s, k);
    if s.len() > 0 {
        let t = s.drop_first();
        assert(sorted_by_key(t)) by {
            assert forall|i: int, j: int| 0 <= i < j < t.len() implies key_le(
                #[trigger] t[i].0,
                #[trigger] t[j].0,
            ) by {
                assert(t[i] == s[i + 1] && t[j] == s[j + 1]);
            }
        }
        if key_le(s[0].0, k) {
            lemma_insert_pos_split(t, k);
            assert forall|i: int| 0 <= i < insert_pos(s, k) implies key_le(#[trigger] s[i].0, k) by {
                if i > 0 {
                    assert(s[i] == t[i - 1]);
                }
            }
            assert forall|i: int| insert_pos(s, k) <= i < s.len() implies !key_le(
                #[trigger] s[i].0,
                k,
            ) by {
                assert(s[i] == t[i - 1]);
            }
        } else {
            assert forall|i: int| 0 <= i < s.len() implies !key_le(#[trigger] s[i].0, k) by {
                if i > 0 && key_le(s[i].0, k) {
                    assert(key_le(s[0].0, s[i].0));
                    lemma_key_le_transitive(s[0].0, s[i].0, k);
                }
            }
        }
    }
}

/// A stable sort orders its entries by key.
pub proof fn lemma_sort_sorted<T>(s: Seq<(Key, T)>)
    ensures
        sorted_by_key(sort_by_key(s)),
    decreases s.len(),
{
    if s.len() > 0 {
        let r = sort_by_key(s.drop_last());
        let k = s.last().0;
        lemma_sort_sorted(s.drop_last());
        lemma_insert_pos_split(r, k);
        lemma_insert_pos_bound(r, k);
        let p = insert_pos(r, k);
        let out = r.insert(p, s.last());
        assert forall|i: int, j: int| 0 <= i < j < out.len() implies key_le(
            #[trigger] out[i].0,
            #[trigger] out[j].0,
        ) by {
            if j < p {
                assert(out[i] == r[i] && out[j] == r[j]);
            } else if j == p {
                assert(out[i] == r[i]);
            } else if i < p {
                assert(out[i] == r[i] && out[j] == r[j - 1]);
                lemma_not_key_le(r[j - 1].0, k);
                lemma_key_le_transitive(r[i].0, k, r[j - 1].0);
            } else if i == p {
                assert(out[j] == r[j - 1]);
                lemma_not_key_le(r[j - 1].0, k);
            } else {
                assert(out[i] == r[i - 1] && out[j] == r[j - 1]);
            }
        }
    }
}

/// A stable sort only reorders its entries.
pub proof fn lemma_sort_permutes<T>(s: Seq<(Key, T)>)
    ensures
        sort_by_key(s).to_multiset() == s.to_multiset(),
    decreases s.len(),
{
    broadcast use vstd::seq_lib::group_to_multiset_ensures;

    if s.len() > 0 {
        let r = sort_by_key(s.drop_last());
        lemma_sort_permutes(s.drop_last());
        lemma_insert_pos_bound(r, s.last().0);
        let p = insert_pos(r, s.last().0);
        let out = r.insert(p, s.last());
        assert(out =~= r.take(p) + seq![s.last()] + r.skip(p));
        assert(r =~= r.take(p) + r.skip(p));
        vstd::seq_lib::lemma_multiset_commutative(r.take(p), seq![s.last()]);
        vstd::seq_lib::lemma_multiset_commutative(r.take(p) + seq![s.last()], r.skip(p));
        vstd::seq_lib::lemma_multiset_commutative(r.take(p), r.skip(p));
        assert(s =~= s.drop_last().push(s.last()));
    }
}

/// A stable sort only reorders the items of its entries.
pub proof fn lemma_sort_items_permute<T>(s: Seq<(Key, T)>)
    ensures
        items_of(sort_by_key(s)).to_multiset() == items_of(s).to_multiset(),
    decreases s.len(),
{
    broadcast use vstd::seq_lib::group_to_multiset_ensures;

    if s.len() == 0 {
        assert(items_of(sort_by_key(s)) =~= items_of(s));
    } else {
        let r = sort_by_key(s.drop_last());
        lemma_sort_items_permute(s.drop_last());
        lemma_insert_pos_bound(r, s.last().0);
        let p = insert_pos(r, s.last().0);
        assert(items_of(r.insert(p, s.last())) =~= items_of(r).insert(p, s.last().1));
        vstd::seq_lib::to_multiset_insert(items_of(r), p, s.last().1);
        assert(items_of(s) =~= items_of(s.drop_last()).push(s.last().1));
    }
}

/// When every entry's key is `key` of its item, so is every sorted
/// entry's.
pub proof fn lemma_sort_keys_follow_items<T>(s: Seq<(Key, T)>, key: spec_fn(T) -> Key)
    requires
        forall|j: int| 0 <= j < s.len() ==> (#[trigger] s[j]).0 == key(s[j].1),
    ensures
        sort_by_key(s).len() == s.len(),
        forall|i: int|
            0 <= i < sort_by_key(s).len() ==> (#[trigger] sort_by_key(s)[i]).0 == key(
                sort_by_key(s)[i].1,
            ),
    decreases s.len(),
{
    lemma_sort_len(s);
    if s.len() > 0 {
        let t = s.drop_last();
        assert forall|j: int| 0 <= j < t.len() implies (#[trigger] t[j]).0 == key(t[j].1) by {
            assert(t[j] == s[j]);
        }
        lemma_sort_keys_follow_items(t, key);
        let r = sort_by_key(t);
        lemma_insert_pos_bound(r, s.last().0);
        let p = insert_pos(r, s.last().0);
        let out = r.insert(p, s.last());
        assert forall|i: int| 0 <= i < out.len() implies (#[trigger] out[i]).0 == key(out[i].1) by {
            if i < p {
                assert(out[i] == r[i]);
            } else if i > p {
                assert(out[i] == r[i - 1]);
            }
        }
    }
}

/// In a sorted sequence whose keys are texts with one rank, the texts
/// never go down: no later text comes strictly before an earlier one.
pub proof fn lemma_sorted_texts_never_decrease<T>(s: Seq<(Key, T)>, i: int, j: int)
    requires
        sorted_by_key(s),
        0 <= i < j < s.len(),
        s[i].0.1 == s[j].0.1,
    ensures
        !seq_lt(s[j].0.0, s[i].0.0),
{
    assert(key_le(s[i].0, s[j].0));
    if seq_lt(s[i].0.0, s[j].0.0) {
        lemma_seq_lt_asymmetric(s[i].0.0, s[j].0.0);
    } else {
        lemma_seq_lt_irreflexive(s[i].0.0);
    }
}

// ---------------------------------------------------------------------
// Listings
// ---------------------------------------------------------------------

/// Strings keyed by their own text.
pub open spec fn keyed_strings(s: Seq<String>) -> Seq<(Key, String)> {
    s.map_values(|x: String| ((x@, 0int), x))
}

/// Files keyed by name.
pub open spec fn keyed_files(s: Seq<FileInfo>) -> Seq<(Key, FileInfo)> {
    s.map_values(|f: FileInfo| ((f.name@, 0int), f))
}

/// Directories keyed by name.
pub open spec fn keyed_directories(s: Seq<DirectoryInfo>) -> Seq<(Key, DirectoryInfo)> {
    s.map_values(|d: DirectoryInfo| ((d.name@, 0int), d))
}

/// The rank of a file's flags: `(false, false) < (false, true) <
/// (true, false) < (true, true)`, as tuples of booleans compare.
pub open spec fn flags_rank(bookmarked: bool, read: bool) -> int {
    (if bookmarked { 2int } else { 0int }) + (if read { 1int } else { 0int })
}

/// Files with their bookmark and read flags, keyed by name then flags.
pub open spec fn keyed_flagged(s: Seq<(FileInfo, bool, bool)>) -> Seq<
    (Key, (FileInfo, bool, bool)),
> {
    s.map_values(|e: (FileInfo, bool, bool)| ((e.0.name@, flags_rank(e.1, e.2)), e))
}

/// Strings in lexicographic order (`Vec<String>::sort`).
pub open spec fn sorted_strings(s: Seq<String>) -> Seq<String> {
    items_of(sort_by_key(keyed_strings(s)))
}

/// Files in the order of their names, ties kept in order.
pub open spec fn sorted_files(s: Seq<FileInfo>) -> Seq<FileInfo> {
    items_of(sort_by_key(keyed_files(s)))
}

/// Directories in the order of their names, ties kept in order.
pub open spec fn sorted_directories(s: Seq<DirectoryInfo>) -> Seq<DirectoryInfo> {
    items_of(sort_by_key(keyed_directories(s)))
}

/// Files with flags in the order of their names, then of their flags.
pub open spec fn sorted_flagged(s: Seq<(FileInfo, bool, bool)>) -> Seq<(FileInfo, bool, bool)> {
    items_of(sort_by_key(keyed_flagged(s)))
}

fn text_key(s: &str, rank: u8) -> (k: SortKey)
    ensures
        key_of(k) == (s@, rank as int),
{
    SortKey { text: chars_of(s), rank }
}

proof fn lemma_items_after_sort<T>(keys: Seq<SortKey>, items: Seq<T>, sorted: Seq<(Key, T)>)
    requires
        keys.len() == items.len(),
        keyed(keys, items) == sorted,
    ensures
        items == items_of(sorted),
{
    assert(items =~= items_of(sorted));
}

/// Sorts strings (`Vec<String>::sort`).
pub fn sort_strings(v: Vec<String>) -> (r: Vec<String>)
    ensures
        r@ == sorted_strings(v@),
{
    let mut keys: Vec<SortKey> = Vec::new();
    let mut i: usize = 0;
    while i < v.len()
        invariant
            i <= v@.len(),
            keys@.len() == i,
            keyed(keys@, v@.take(i as int)) == keyed_strings(v@).take(i as int),
        decreases v@.len() - i,
    {
        let k = text_key(v[i].as_str(), 0);
        keys.push(k);
        i = i + 1;
        assert(keyed(keys@, v@.take(i as int)) =~= keyed_strings(v@).take(i as int));
    }
    assert(v@.take(v@.len() as int) =~= v@);
    assert(keyed_strings(v@).take(v@.len() as int) =~= keyed_strings(v@));
    let (items, out_keys) = stable_sort(v, keys);
    proof {
        lemma_items_after_sort(out_keys@, items@, sort_by_key(keyed_strings(v@)));
    }
    items
}

/// Sorts files by name, stably (the order of `FileInfo`'s `Ord`).
pub fn sort_files(v: Vec<FileInfo>) -> (r: Vec<FileInfo>)
    ensures
        r@ == sorted_files(v@),
{
    let mut keys: Vec<SortKey> = Vec::new();
    let mut i: usize = 0;
    while i < v.len()
        invariant
            i <= v@.len(),
            keys@.len() == i,
            keyed(keys@, v@.take(i as int)) == keyed_files(v@).take(i as int),
        decreases v@.len() - i,
    {
        let k = text_key(v[i].name.as_str(), 0);
        keys.push(k);
        i = i + 1;
        assert(keyed(keys@, v@.take(i as int)) =~= keyed_files(v@).take(i as int));
    }
    assert(v@.take(v@.len() as int) =~= v@);
    assert(keyed_files(v@).take(v@.len() as int) =~= keyed_files(v@));
    let (items, out_keys) = stable_sort(v, keys);
    proof {
        lemma_items_after_sort(out_keys@, items@, sort_by_key(keyed_files(v@)));
    }
    items
}

/// Sorts directories by name, stably (the order of `DirectoryInfo`'s
/// `Ord`).
pub fn sort_directories(v: Vec<DirectoryInfo>) -> (r: Vec<DirectoryInfo>)
    ensures
        r@ == sorted_directories(v@),
{
    let mut keys: Vec<SortKey> = Vec::new();
    let mut i: usize = 0;
    while i < v.len()
        invariant
            i <= v@.len(),
            keys@.len() == i,
            keyed(keys@, v@.take(i as int)) == keyed_directories(v@).take(i as int),
        decreases v@.len() - i,
    {
        let k = text_key(v[i].name.as_str(), 0);
        keys.push(k);
        i = i + 1;
        assert(keyed(keys@, v@.take(i as int)) =~= keyed_directories(v@).take(i as int));
    }
    assert(v@.take(v@.len() as int) =~= v@);
    assert(keyed_directories(v@).take(v@.len() as int) =~= keyed_directories(v@));
    let (items, out_keys) = stable_sort(v, keys);
    proof {
        lemma_items_after_sort(out_keys@, items@, sort_by_key(keyed_directories(v@)));
    }
    items
}

/// Sorts files with their flags by name, then by flags (the order of
/// the tuples).
pub fn sort_flagged(v: Vec<(FileInfo, bool, bool)>) -> (r: Vec<(FileInfo, bool, bool)>)
    ensures
        r@ == sorted_flagged(v@),
{
    let mut keys: Vec<SortKey> = Vec::new();
    let mut i: usize = 0;
    while i < v.len()
        invariant
            i <= v@.len(),
            keys@.len() == i,
            keyed(keys@, v@.take(i as int)) == keyed_flagged(v@).take(i as int),
        decreases v@.len() - i,
    {
        let rank: u8 = (if v[i].1 { 2u8 } else { 0u8 }) + (if v[i].2 { 1u8 } else { 0u8 });
        let k = text_key(v[i].0.name.as_str(), rank);
        keys.push(k);
        i = i + 1;
        assert(keyed(keys@, v@.take(i as int)) =~= keyed_flagged(v@).take(i as int));
    }
    assert(v@.take(v@.len() as int) =~= v@);
    assert(keyed_flagged(v@).take(v@.len() as int) =~= keyed_flagged(v@));
    let (items, out_keys) = stable_sort(v, keys);
    proof {
        lemma_items_after_sort(out_keys@, items@, sort_by_key(keyed_flagged(v@)));
    }
    items
}


/// Files with their bookmark and read flags, keyed by name alone.
pub open spec fn keyed_flagged_by_name(s: Seq<(FileInfo, bool, bool)>) -> Seq<
    (Key, (FileInfo, bool, bool)),
> {
    s.map_values(|e: (FileInfo, bool, bool)| ((e.0.name@, 0int), e))
}

/// Files with flags in the order of their names alone, ties kept in
/// order: the files sorted before their flags were looked up.
pub open spec fn sorted_flagged_by_name(s: Seq<(FileInfo, bool, bool)>) -> Seq<
    (FileInfo, bool, bool),
> {
    items_of(sort_by_key(keyed_flagged_by_name(s)))
}

/// Sorts files with their flags by name alone, ties kept in order.
pub fn sort_flagged_by_name(v: Vec<(FileInfo, bool, bool)>) -> (r: Vec<(FileInfo, bool, bool)>)
    ensures
        r@ == sorted_flagged_by_name(v@),
{
    let mut keys: Vec<SortKey> = Vec::new();
    let mut i: usize = 0;
    while i < v.len()
        invariant
            i <= v@.len(),
            keys@.len() == i,
            keyed(keys@, v@.take(i as int)) == keyed_flagged_by_name(v@).take(i as int),
        decreases v@.len() - i,
    {
        let k = text_key(v[i].0.name.as_str(), 0);
        keys.push(k);
        i = i + 1;
        assert(keyed(keys@, v@.take(i as int)) =~= keyed_flagged_by_name(v@).take(i as int));
    }
    assert(v@.take(v@.len() as int) =~= v@);
    assert(keyed_flagged_by_name(v@).take(v@.len() as int) =~= keyed_flagged_by_name(v@));
    let (items, out_keys) = stable_sort(v, keys);
    proof {
        lemma_items_after_sort(out_keys@, items@, sort_by_key(keyed_flagged_by_name(v@)));
    }
    items
}

} // verus!
