//! Text primitives over the character sequences that the rest of the
//! library speaks of: splitting and joining on a separator, trimming,
//! searching, replacing, decimal numbers and the ordering of strings.

use vstd::prelude::*;

verus! {

// ---------------------------------------------------------------------
// Specifications
// ---------------------------------------------------------------------

/// `s` split on every occurrence of `sep` (like `str::split` with a char):
/// always at least one piece, empty pieces kept.
pub open spec fn split(s: Seq<char>, sep: char) -> Seq<Seq<char>>
    decreases s.len(),
{
    if s.len() == 0 {
        seq![Seq::<char>::empty()]
    } else {
        let r = split(s.drop_last(), sep);
        if s.last() == sep {
            r.push(Seq::<char>::empty())
        } else {
            r.update(r.len() - 1, r.last().push(s.last()))
        }
    }
}

/// The pieces of `parts` glued together with `sep` between two pieces.
pub open spec fn join(parts: Seq<Seq<char>>, sep: Seq<char>) -> Seq<char>
    decreases parts.len(),
{
    if parts.len() == 0 {
        Seq::<char>::empty()
    } else if parts.len() == 1 {
        parts[0]
    } else {
        join(parts.drop_last(), sep) + sep + parts.last()
    }
}

/// `s` without every trailing `c`.
pub open spec fn trim_end(s: Seq<char>, c: char) -> Seq<char>
    decreases s.len(),
{
    if s.len() > 0 && s.last() == c {
        trim_end(s.drop_last(), c)
    } else {
        s
    }
}

/// `s` without every leading `c`.
pub open spec fn trim_start(s: Seq<char>, c: char) -> Seq<char>
    decreases s.len(),
{
    if s.len() > 0 && s[0] == c {
        trim_start(s.drop_first(), c)
    } else {
        s
    }
}

/// Index of the last `c` in `s`, or -1.
pub open spec fn last_index(s: Seq<char>, c: char) -> int
    decreases s.len(),
{
    if s.len() == 0 {
        -1
    } else if s.last() == c {
        s.len() - 1
    } else {
        last_index(s.drop_last(), c)
    }
}

/// `s` cut at its last `c` (like `str::rsplit_once` with a char).
pub open spec fn rsplit_once(s: Seq<char>, c: char) -> Option<(Seq<char>, Seq<char>)> {
    let i = last_index(s, c);
    if i < 0 {
        None
    } else {
        Some((s.take(i), s.skip(i + 1)))
    }
}

/// `pat` occurs in `s` at position `i`.
pub open spec fn occurs_at(s: Seq<char>, pat: Seq<char>, i: int) -> bool {
    0 <= i && i + pat.len() <= s.len() && s.subrange(i, i + pat.len()) == pat
}

/// `pat` occurs somewhere in `s` (like `str::contains`).
pub open spec fn contains(s: Seq<char>, pat: Seq<char>) -> bool {
    exists|i: int| occurs_at(s, pat, i)
}

/// `s` with every non-overlapping occurrence of the non-empty `pat`,
/// searched from the left, replaced by `rep`.
pub open spec fn replace_nonempty(s: Seq<char>, pat: Seq<char>, rep: Seq<char>) -> Seq<char>
    decreases s.len(),
{
    if pat.len() == 0 || s.len() < pat.len() {
        s
    } else if s.take(pat.len() as int) == pat {
        rep + replace_nonempty(s.skip(pat.len() as int), pat, rep)
    } else {
        seq![s[0]] + replace_nonempty(s.drop_first(), pat, rep)
    }
}

/// `rep` before every character of `s` and once more at its end: what
/// replacing the empty pattern gives.
pub open spec fn interleave(s: Seq<char>, rep: Seq<char>) -> Seq<char>
    decreases s.len(),
{
    if s.len() == 0 {
        rep
    } else {
        rep + seq![s[0]] + interleave(s.drop_first(), rep)
    }
}

/// Like `str::replace`.
pub open spec fn replace(s: Seq<char>, pat: Seq<char>, rep: Seq<char>) -> Seq<char> {
    if pat.len() == 0 {
        interleave(s, rep)
    } else {
        replace_nonempty(s, pat, rep)
    }
}

/// The ASCII lower case of a character; other characters are unchanged.
pub open spec fn ascii_lower(c: char) -> char {
    if 'A' <= c && c <= 'Z' {
        ((c as u32) + 32) as char
    } else {
        c
    }
}

/// `s` with its ASCII letters in lower case.
pub open spec fn lower(s: Seq<char>) -> Seq<char> {
    s.map_values(|c: char| ascii_lower(c))
}

/// The decimal digit character of `d` (0 to 9).
pub open spec fn digit(d: int) -> char {
    if d == 0 { '0' }
    else if d == 1 { '1' }
    else if d == 2 { '2' }
    else if d == 3 { '3' }
    else if d == 4 { '4' }
    else if d == 5 { '5' }
    else if d == 6 { '6' }
    else if d == 7 { '7' }
    else if d == 8 { '8' }
    else { '9' }
}

/// Decimal writing of a natural number, without leading zeros.
pub open spec fn nat_decimal(n: nat) -> Seq<char>
    decreases n,
{
    if n < 10 {
        seq![digit(n as int)]
    } else {
        nat_decimal((n / 10) as nat).push(digit((n % 10) as int))
    }
}

/// Decimal writing of an integer, as `{}` formats it.
pub open spec fn decimal(n: int) -> Seq<char> {
    if n < 0 {
        seq!['-'] + nat_decimal((-n) as nat)
    } else {
        nat_decimal(n as nat)
    }
}

/// Lexicographic order on character sequences (`a` strictly before `b`).
/// On strings it is the order of `str`'s `Ord`: UTF-8 keeps the order of
/// code points.
pub open spec fn seq_lt(a: Seq<char>, b: Seq<char>) -> bool
    decreases a.len(),
{
    if a.len() == 0 {
        b.len() > 0
    } else if b.len() == 0 {
        false
    } else if a[0] != b[0] {
        a[0] < b[0]
    } else {
        seq_lt(a.drop_first(), b.drop_first())
    }
}


/// `s` never has the character `a` directly followed by `b`.
pub open spec fn lacks_pair(s: Seq<char>, a: char, b: char) -> bool {
    forall|j: int| 0 <= j < s.len() - 1 ==> !(#[trigger] s[j] == a && s[j + 1] == b)
}

/// Two texts without the pair `a b`, where the first does not end in `a`
/// or the second does not start with `b`, make a text without it.
pub proof fn lemma_lacks_pair_concat(x: Seq<char>, y: Seq<char>, a: char, b: char)
    requires
        lacks_pair(x, a, b),
        lacks_pair(y, a, b),
        !(x.len() > 0 && y.len() > 0 && x[x.len() - 1] == a && y[0] == b),
    ensures
        lacks_pair(x + y, a, b),
{
    let s = x + y;
    assert forall|j: int| 0 <= j < s.len() - 1 implies !(#[trigger] s[j] == a && s[j + 1] == b) by {
        if j + 1 < x.len() {
            assert(s[j] == x[j] && s[j + 1] == x[j + 1]);
        } else if j >= x.len() {
            assert(s[j] == y[j - x.len()] && s[j + 1] == y[j + 1 - x.len()]);
        } else {
            assert(s[j] == x[x.len() - 1] && s[j + 1] == y[0]);
        }
    }
}

/// A text holding `pat` holds every pair of neighbouring characters of
/// `pat`.
pub proof fn lemma_occurrence_has_pair(s: Seq<char>, pat: Seq<char>, i: int, k: int)
    requires
        occurs_at(s, pat, i),
        0 <= k,
        k + 1 < pat.len(),
    ensures
        !lacks_pair(s, pat[k], pat[k + 1]),
{
    assert(s[i + k] == s.subrange(i, i + pat.len())[k]);
    assert(s[i + k + 1] == s.subrange(i, i + pat.len())[k + 1]);
}

/// Splitting gives at least one piece.
pub proof fn lemma_split_not_empty(s: Seq<char>, sep: char)
    ensures
        split(s, sep).len() >= 1,
    decreases s.len(),
{
    if s.len() > 0 {
        lemma_split_not_empty(s.drop_last(), sep);
    }
}

/// Appending text without the separator extends the last piece.
pub proof fn lemma_split_append_plain(s: Seq<char>, b: Seq<char>, c: char)
    requires
        !b.contains(c),
    ensures
        split(s + b, c) == split(s, c).update(
            split(s, c).len() - 1,
            split(s, c).last() + b,
        ),
    decreases b.len(),
{
    crate::text::lemma_split_not_empty(s, c);
    let r0 = split(s, c);
    if b.len() == 0 {
        assert(s + b =~= s);
        assert(r0.last() + b =~= r0.last());
        assert(r0.update(r0.len() - 1, r0.last() + b) =~= r0);
    } else {
        assert(!b.drop_last().contains(c)) by {
            if b.drop_last().contains(c) {
                let k = choose|k: int| 0 <= k < b.drop_last().len() && b.drop_last()[k] == c;
                assert(b[k] == c);
            }
        }
        lemma_split_append_plain(s, b.drop_last(), c);
        assert((s + b).drop_last() =~= s + b.drop_last());
        assert((s + b).last() == b.last());
        assert(b.last() != c) by {
            assert(b[b.len() - 1] == b.last());
        }
        let r = split(s + b.drop_last(), c);
        assert(r.len() == r0.len());
        assert(r.last() == r0.last() + b.drop_last());
        assert(r.last().push(b.last()) =~= r0.last() + b);
        assert(split(s + b, c) =~= r0.update(r0.len() - 1, r0.last() + b));
    }
}

/// Splitting a joined list gives the pieces back, when none holds the
/// separator.
pub proof fn lemma_split_join(parts: Seq<Seq<char>>, c: char)
    requires
        parts.len() >= 1,
        forall|i: int| 0 <= i < parts.len() ==> !(#[trigger] parts[i]).contains(c),
    ensures
        split(join(parts, seq![c]), c) == parts,
    decreases parts.len(),
{
    let sep = seq![c];
    let empty = Seq::<char>::empty();
    if parts.len() == 1 {
        lemma_split_append_plain(empty, parts[0], c);
        assert(empty + parts[0] =~= parts[0]);
        assert(split(empty, c) =~= seq![empty]);
        assert(split(parts[0], c) =~= parts);
    } else {
        let init = parts.drop_last();
        let last = parts.last();
        assert forall|i: int| 0 <= i < init.len() implies !(#[trigger] init[i]).contains(c) by {
            assert(init[i] == parts[i]);
        }
        assert(!last.contains(c)) by {
            assert(parts[parts.len() - 1] == last);
        }
        lemma_split_join(init, c);
        let a = join(init, sep);
        assert(join(parts, sep) == a + sep + last);
        assert((a + sep).drop_last() =~= a);
        assert((a + sep).last() == c);
        assert(split(a + sep, c) == split(a, c).push(empty));
        lemma_split_append_plain(a + sep, last, c);
        assert(split(a, c).push(empty).update(split(a, c).len() as int, empty + last) =~= parts);
    }
}

/// A decimal number is never empty and holds no comma.
pub proof fn lemma_decimal_has_no_comma(n: int)
    ensures
        !decimal(n).contains(','),
        decimal(n).len() >= 1,
{
    if n < 0 {
        lemma_nat_decimal_has_no_comma((-n) as nat);
        let d = nat_decimal((-n) as nat);
        assert(decimal(n) == seq!['-'] + d);
        assert forall|k: int| 0 <= k < decimal(n).len() implies decimal(n)[k] != ',' by {
            if k > 0 {
                assert(decimal(n)[k] == d[k - 1]);
                assert(d.contains(d[k - 1]));
            }
        }
    } else {
        lemma_nat_decimal_has_no_comma(n as nat);
    }
}

/// A decimal natural number is never empty and holds no comma.
pub proof fn lemma_nat_decimal_has_no_comma(n: nat)
    ensures
        !nat_decimal(n).contains(','),
        nat_decimal(n).len() >= 1,
    decreases n,
{
    if n >= 10 {
        lemma_nat_decimal_has_no_comma((n / 10) as nat);
        let d = nat_decimal((n / 10) as nat);
        assert forall|k: int| 0 <= k < nat_decimal(n).len() implies nat_decimal(n)[k] != ',' by {
            if k < d.len() {
                assert(nat_decimal(n)[k] == d[k]);
                assert(d.contains(d[k]));
            }
        }
    }
}

/// A toggle changes the entries of a bookmark or read list as it says:
/// after "added" the entries are those before with the user's id at the
/// end (the id alone for an empty list); after "removed" they are those
/// before without one entry that was the user's id (a single empty entry
/// when it was the only one).

/// No piece of a split holds the separator.
pub proof fn lemma_split_pieces_lack_separator(s: Seq<char>, c: char)
    ensures
        forall|i: int| 0 <= i < split(s, c).len() ==> !(#[trigger] split(s, c)[i]).contains(c),
    decreases s.len(),
{
    if s.len() > 0 {
        lemma_split_pieces_lack_separator(s.drop_last(), c);
        crate::text::lemma_split_not_empty(s.drop_last(), c);
        let r = split(s.drop_last(), c);
        let out = split(s, c);
        if s.last() == c {
            assert forall|i: int| 0 <= i < out.len() implies !(#[trigger] out[i]).contains(c) by {
                if i < r.len() {
                    assert(out[i] == r[i]);
                } else {
                    assert(out[i] =~= Seq::<char>::empty());
                }
            }
        } else {
            let p = r.last().push(s.last());
            assert(!r.last().contains(c)) by {
                assert(r[r.len() - 1] == r.last());
            }
            assert(!p.contains(c)) by {
                if p.contains(c) {
                    let k = choose|k: int| 0 <= k < p.len() && p[k] == c;
                    if k < r.last().len() {
                        assert(p[k] == r.last()[k]);
                        assert(r.last().contains(r.last()[k]));
                    }
                }
            }
            assert forall|i: int| 0 <= i < out.len() implies !(#[trigger] out[i]).contains(c) by {
                if i < r.len() - 1 {
                    assert(out[i] == r[i]);
                } else {
                    assert(out[i] == p);
                }
            }
        }
    }
}

/// The name of a library, taken from its path, never holds a `/`.

// ---------------------------------------------------------------------
// Executable primitives
// ---------------------------------------------------------------------

/// Appends one character to a string (`String::push`).
#[verifier::external_body]
pub(crate) fn push_char(s: &mut String, c: char)
    ensures
        final(s)@ == old(s)@.push(c),
{
    s.push(c)
}

/// The characters of a string.
pub fn chars_of(s: &str) -> (v: Vec<char>)
    ensures
        v@ == s@,
{
    let n = s.unicode_len();
    let mut v: Vec<char> = Vec::new();
    let mut i: usize = 0;
    while i < n
        invariant
            n == s@.len(),
            i <= n,
            v@ == s@.take(i as int),
        decreases n - i,
    {
        let c = s.get_char(i);
        v.push(c);
        i = i + 1;
        assert(v@ =~= s@.take(i as int));
    }
    assert(v@ =~= s@);
    v
}

/// The string made of the characters `v[lo..hi]`.
pub fn string_of_range(v: &Vec<char>, lo: usize, hi: usize) -> (s: String)
    requires
        lo <= hi <= v@.len(),
    ensures
        s@ == v@.subrange(lo as int, hi as int),
{
    let mut s = String::new();
    let mut i: usize = lo;
    while i < hi
        invariant
            lo <= i <= hi <= v@.len(),
            s@ == v@.subrange(lo as int, i as int),
        decreases hi - i,
    {
        push_char(&mut s, v[i]);
        i = i + 1;
        assert(s@ =~= v@.subrange(lo as int, i as int));
    }
    s
}

/// The string made of the characters of `v`.
pub fn string_of(v: &Vec<char>) -> (s: String)
    ensures
        s@ == v@,
{
    let s = string_of_range(v, 0, v.len());
    assert(v@.subrange(0, v@.len() as int) =~= v@);
    s
}

/// A copy of a string slice.
pub fn owned(s: &str) -> (r: String)
    ensures
        r@ == s@,
{
    let mut r = String::new();
    r.append(s);
    assert(r@ =~= s@);
    r
}

/// The concatenation of two string slices.
pub fn concat2(a: &str, b: &str) -> (r: String)
    ensures
        r@ == a@ + b@,
{
    let mut r = String::new();
    r.append(a);
    r.append(b);
    assert(r@ =~= a@ + b@);
    r
}

/// Whether two string slices hold the same characters.
pub fn str_eq(a: &str, b: &str) -> (r: bool)
    ensures
        r == (a@ == b@),
{
    let x = chars_of(a);
    let y = chars_of(b);
    chars_eq(&x, &y)
}

/// Whether two character vectors are equal.
pub fn chars_eq(x: &Vec<char>, y: &Vec<char>) -> (r: bool)
    ensures
        r == (x@ == y@),
{
    if x.len() != y.len() {
        return false;
    }
    let mut i: usize = 0;
    while i < x.len()
        invariant
            x@.len() == y@.len(),
            i <= x@.len(),
            forall|k: int| 0 <= k < i ==> x@[k] == y@[k],
        decreases x@.len() - i,
    {
        if x[i] != y[i] {
            return false;
        }
        i = i + 1;
    }
    assert(x@ =~= y@);
    true
}

/// Splits a string on every occurrence of a character.
pub fn split_on(s: &str, sep: char) -> (parts: Vec<String>)
    ensures
        parts.deep_view() == split(s@, sep),
{
    let v = chars_of(s);
    let mut parts: Vec<String> = Vec::new();
    let mut cur = String::new();
    let mut i: usize = 0;
    assert(v@.take(0) =~= Seq::<char>::empty());
    assert(parts.deep_view().push(cur@) =~= split(v@.take(0), sep));
    while i < v.len()
        invariant
            v@ == s@,
            i <= v@.len(),
            parts.deep_view().push(cur@) == split(v@.take(i as int), sep),
        decreases v@.len() - i,
    {
        let c = v[i];
        let ghost before = parts.deep_view().push(cur@);
        assert(v@.take(i as int + 1).drop_last() =~= v@.take(i as int));
        if c == sep {
            parts.push(cur);
            cur = String::new();
            assert(parts.deep_view().push(cur@) =~= before.push(Seq::<char>::empty()));
        } else {
            push_char(&mut cur, c);
            assert(parts.deep_view().push(cur@) =~= before.update(
                before.len() - 1,
                before.last().push(c),
            ));
        }
        i = i + 1;
    }
    parts.push(cur);
    assert(v@.take(v@.len() as int) =~= v@);
    parts
}

/// Joins strings with a separator between two of them.
pub fn join_with(parts: &Vec<String>, sep: &str) -> (r: String)
    ensures
        r@ == join(parts.deep_view(), sep@),
{
    let mut r = String::new();
    let mut i: usize = 0;
    while i < parts.len()
        invariant
            i <= parts@.len(),
            r@ == join(parts.deep_view().take(i as int), sep@),
        decreases parts@.len() - i,
    {
        let ghost before = r@;
        assert(parts.deep_view().take(i as int + 1).drop_last() =~= parts.deep_view().take(
            i as int,
        ));
        if i > 0 {
            r.append(sep);
        } else {
            assert(before =~= Seq::<char>::empty());
        }
        r.append(parts[i].as_str());
        i = i + 1;
        assert(r@ =~= join(parts.deep_view().take(i as int), sep@));
    }
    assert(parts.deep_view().take(parts@.len() as int) =~= parts.deep_view());
    r
}

/// A string without every trailing `c` (`str::trim_end_matches`).
pub fn trim_end_char(s: &str, c: char) -> (r: String)
    ensures
        r@ == trim_end(s@, c),
{
    let v = chars_of(s);
    let mut n: usize = v.len();
    assert(v@.take(v@.len() as int) =~= v@);
    while n > 0 && v[n - 1] == c
        invariant
            n <= v@.len(),
            trim_end(v@.take(n as int), c) == trim_end(v@, c),
        decreases n,
    {
        assert(v@.take(n as int).drop_last() =~= v@.take(n as int - 1));
        n = n - 1;
    }
    assert(v@.take(v@.len() as int) =~= v@);
    let r = string_of_range(&v, 0, n);
    assert(r@ =~= v@.take(n as int));
    r
}

/// A string without every leading `c` (`str::trim_start_matches`).
pub fn trim_start_char(s: &str, c: char) -> (r: String)
    ensures
        r@ == trim_start(s@, c),
{
    let v = chars_of(s);
    let mut k: usize = 0;
    assert(v@.skip(0) =~= v@);
    while k < v.len() && v[k] == c
        invariant
            k <= v@.len(),
            trim_start(v@.skip(k as int), c) == trim_start(v@, c),
        decreases v@.len() - k,
    {
        assert(v@.skip(k as int).drop_first() =~= v@.skip(k as int + 1));
        k = k + 1;
    }
    let r = string_of_range(&v, k, v.len());
    assert(r@ =~= v@.skip(k as int));
    r
}

/// The index of the last `c` in `v`, if any.
pub fn find_last(v: &Vec<char>, c: char) -> (r: Option<usize>)
    ensures
        r matches Some(i) ==> i == last_index(v@, c),
        r matches Some(i) ==> i < v@.len(),
        r is None ==> last_index(v@, c) == -1,
{
    let mut n: usize = v.len();
    assert(v@.take(v@.len() as int) =~= v@);
    while n > 0
        invariant
            n <= v@.len(),
            last_index(v@.take(n as int), c) == last_index(v@, c),
        decreases n,
    {
        assert(v@.take(n as int).drop_last() =~= v@.take(n as int - 1));
        if v[n - 1] == c {
            return Some(n - 1);
        }
        n = n - 1;
    }
    assert(v@.take(v@.len() as int) =~= v@);
    None
}

/// Cuts a string at its last `c` (`str::rsplit_once`).
pub fn rsplit_once_char(s: &str, c: char) -> (r: Option<(String, String)>)
    ensures
        match rsplit_once(s@, c) {
            None => r is None,
            Some((a, b)) => r matches Some((x, y)) && x@ == a && y@ == b,
        },
{
    let v = chars_of(s);
    let n = v.len();
    match find_last(&v, c) {
        None => None,
        Some(i) => {
            assert(i < v@.len());
            let a = string_of_range(&v, 0, i);
            let b = string_of_range(&v, i + 1, n);
            assert(a@ =~= v@.take(i as int));
            assert(b@ =~= v@.skip(i as int + 1));
            Some((a, b))
        },
    }
}

/// Whether `pat` occurs in `v` at position `i`.
pub fn occurs_at_exec(v: &Vec<char>, pat: &Vec<char>, i: usize) -> (r: bool)
    ensures
        r == occurs_at(v@, pat@, i as int),
{
    let n = v.len();
    if i > n || pat.len() > n - i {
        return false;
    }
    let mut k: usize = 0;
    while k < pat.len()
        invariant
            n == v@.len(),
            i + pat@.len() <= v@.len(),
            k <= pat@.len(),
            forall|j: int| 0 <= j < k ==> v@[i + j] == pat@[j],
        decreases pat@.len() - k,
    {
        assert(i + k < v@.len());
        if v[i + k] != pat[k] {
            assert(v@.subrange(i as int, i + pat@.len())[k as int] != pat@[k as int]);
            return false;
        }
        k = k + 1;
    }
    assert(v@.subrange(i as int, i + pat@.len()) =~= pat@);
    true
}

/// Whether `pat` occurs in `s` (`str::contains`).
pub fn contains_str(s: &str, pat: &str) -> (r: bool)
    ensures
        r == contains(s@, pat@),
{
    let v = chars_of(s);
    let p = chars_of(pat);
    contains_chars(&v, &p)
}

/// Whether `p` occurs in `v`.
pub fn contains_chars(v: &Vec<char>, p: &Vec<char>) -> (r: bool)
    ensures
        r == contains(v@, p@),
{
    let n = v.len();
    let mut i: usize = 0;
    while i < n
        invariant
            n == v@.len(),
            i <= n,
            forall|j: int| 0 <= j < i ==> !occurs_at(v@, p@, j),
        decreases n - i,
    {
        if occurs_at_exec(v, p, i) {
            return true;
        }
        i = i + 1;
    }
    if occurs_at_exec(v, p, n) {
        return true;
    }
    assert forall|j: int| !occurs_at(v@, p@, j) by {
        if 0 <= j && j <= n {
        }
    }
    false
}

/// `s` with the prefix `pre` removed, if `s` starts with it
/// (`str::strip_prefix`).
pub fn strip_prefix_str(s: &str, pre: &str) -> (r: Option<String>)
    ensures
        occurs_at(s@, pre@, 0) ==> (r matches Some(x) && x@ == s@.skip(pre@.len() as int)),
        !occurs_at(s@, pre@, 0) ==> r is None,
{
    let v = chars_of(s);
    let p = chars_of(pre);
    if occurs_at_exec(&v, &p, 0) {
        let x = string_of_range(&v, p.len(), v.len());
        assert(x@ =~= v@.skip(p@.len() as int));
        Some(x)
    } else {
        None
    }
}

/// `s` with its ASCII letters in lower case.
pub fn lower_chars(s: &Vec<char>) -> (r: Vec<char>)
    ensures
        r@ == lower(s@),
{
    let mut r: Vec<char> = Vec::new();
    let mut i: usize = 0;
    while i < s.len()
        invariant
            i <= s@.len(),
            r@ == lower(s@.take(i as int)),
        decreases s@.len() - i,
    {
        let c = s[i];
        let l = if 'A' <= c && c <= 'Z' {
            ((c as u32) + 32) as u8 as char
        } else {
            c
        };
        assert(l == ascii_lower(c)) by {
            if 'A' <= c && c <= 'Z' {
                assert(((c as u32) + 32) as u8 as char == ((c as u32) + 32) as char);
            }
        }
        r.push(l);
        i = i + 1;
        assert(r@ =~= lower(s@.take(i as int)));
    }
    assert(s@.take(s@.len() as int) =~= s@);
    r
}

/// The decimal writing of a natural number.
fn nat_to_string(n: u64) -> (s: String)
    ensures
        s@ == nat_decimal(n as nat),
    decreases n,
{
    if n < 10 {
        let mut s = String::new();
        push_char(&mut s, digit_char(n));
        assert(s@ =~= seq![digit(n as int)]);
        s
    } else {
        let mut s = nat_to_string(n / 10);
        push_char(&mut s, digit_char(n % 10));
        s
    }
}

fn digit_char(d: u64) -> (c: char)
    requires
        d < 10,
    ensures
        c == digit(d as int),
{
    if d == 0 { '0' }
    else if d == 1 { '1' }
    else if d == 2 { '2' }
    else if d == 3 { '3' }
    else if d == 4 { '4' }
    else if d == 5 { '5' }
    else if d == 6 { '6' }
    else if d == 7 { '7' }
    else if d == 8 { '8' }
    else { '9' }
}

/// The decimal writing of an `i64`, as `{}` formats it.
pub fn i64_to_string(n: i64) -> (s: String)
    ensures
        s@ == decimal(n as int),
{
    if n < 0 {
        let m: u64 = ((-(n + 1)) as u64) + 1;
        let digits = nat_to_string(m);
        let mut s = String::new();
        push_char(&mut s, '-');
        s.append(digits.as_str());
        assert(s@ =~= seq!['-'] + nat_decimal((-n) as nat));
        s
    } else {
        nat_to_string(n as u64)
    }
}

/// The decimal writing of an `i32`, as `{}` formats it.
pub fn i32_to_string(n: i32) -> (s: String)
    ensures
        s@ == decimal(n as int),
{
    i64_to_string(n as i64)
}

/// The decimal writing of a `usize`, as `{}` formats it.
pub fn usize_to_string(n: usize) -> (s: String)
    ensures
        s@ == decimal(n as int),
{
    nat_to_string(n as u64)
}

/// Whether `a` comes strictly before `b` in lexicographic order.
pub fn chars_lt(a: &Vec<char>, b: &Vec<char>) -> (r: bool)
    ensures
        r == seq_lt(a@, b@),
{
    let mut i: usize = 0;
    assert(a@.skip(0) =~= a@);
    assert(b@.skip(0) =~= b@);
    while i < a.len() && i < b.len() && a[i] == b[i]
        invariant
            i <= a@.len(),
            i <= b@.len(),
            seq_lt(a@.skip(i as int), b@.skip(i as int)) == seq_lt(a@, b@),
        decreases a@.len() - i,
    {
        assert(a@.skip(i as int).drop_first() =~= a@.skip(i as int + 1));
        assert(b@.skip(i as int).drop_first() =~= b@.skip(i as int + 1));
        i = i + 1;
    }
    if i == a.len() {
        i < b.len()
    } else if i == b.len() {
        false
    } else {
        a[i] < b[i]
    }
}

/// `v` with every non-overlapping occurrence of the non-empty `p`,
/// searched from the left, replaced by `rep`.
fn replace_nonempty_exec(v: &Vec<char>, p: &Vec<char>, rep: &str) -> (r: String)
    requires
        p@.len() > 0,
    ensures
        r@ == replace_nonempty(v@, p@, rep@),
{
    let n = v.len();
    let plen = p.len();
    let mut out = String::new();
    let mut i: usize = 0;
    assert(v@.skip(0) =~= v@);
    assert(out@ + replace_nonempty(v@.skip(0), p@, rep@) =~= replace_nonempty(v@, p@, rep@));
    while i < n && plen <= n - i
        invariant
            n == v@.len(),
            plen == p@.len(),
            plen > 0,
            i <= n,
            out@ + replace_nonempty(v@.skip(i as int), p@, rep@) == replace_nonempty(v@, p@, rep@),
        decreases n - i,
    {
        let ghost rest = v@.skip(i as int);
        assert(rest.take(plen as int) =~= v@.subrange(i as int, i + plen));
        if occurs_at_exec(v, p, i) {
            let ghost before = out@;
            out.append(rep);
            assert(rest.skip(plen as int) =~= v@.skip(i + plen));
            assert(out@ + replace_nonempty(v@.skip(i + plen), p@, rep@) =~= before + (rep@
                + replace_nonempty(rest.skip(plen as int), p@, rep@)));
            i = i + plen;
        } else {
            let ghost before = out@;
            push_char(&mut out, v[i]);
            assert(rest.drop_first() =~= v@.skip(i + 1));
            assert(out@ + replace_nonempty(v@.skip(i + 1), p@, rep@) =~= before + (seq![rest[0]]
                + replace_nonempty(rest.drop_first(), p@, rep@)));
            i = i + 1;
        }
    }
    let tail = string_of_range(v, i, n);
    let ghost before = out@;
    out.append(tail.as_str());
    assert(tail@ =~= v@.skip(i as int));
    out
}

/// `rep` before every character of `v` and once more at its end.
fn interleave_exec(v: &Vec<char>, rep: &str) -> (r: String)
    ensures
        r@ == interleave(v@, rep@),
{
    let n = v.len();
    let mut out = String::new();
    let mut i: usize = 0;
    assert(v@.skip(0) =~= v@);
    assert(out@ + interleave(v@.skip(0), rep@) =~= interleave(v@, rep@));
    while i < n
        invariant
            n == v@.len(),
            i <= n,
            out@ + interleave(v@.skip(i as int), rep@) == interleave(v@, rep@),
        decreases n - i,
    {
        let ghost rest = v@.skip(i as int);
        let ghost before = out@;
        out.append(rep);
        push_char(&mut out, v[i]);
        assert(rest.drop_first() =~= v@.skip(i + 1));
        assert(out@ + interleave(v@.skip(i + 1), rep@) =~= before + (rep@ + seq![rest[0]]
            + interleave(rest.drop_first(), rep@)));
        i = i + 1;
    }
    assert(v@.skip(n as int) =~= Seq::<char>::empty());
    out.append(rep);
    out
}

/// `s` with every occurrence of `pat` replaced by `rep` (`str::replace`).
pub fn replace_str(s: &str, pat: &str, rep: &str) -> (r: String)
    ensures
        r@ == replace(s@, pat@, rep@),
{
    let v = chars_of(s);
    let p = chars_of(pat);
    if p.len() == 0 {
        interleave_exec(&v, rep)
    } else {
        replace_nonempty_exec(&v, &p, rep)
    }
}

} // verus!
