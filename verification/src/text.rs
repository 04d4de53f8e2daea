//! Character-level text operations with their meaning stated over `Seq<char>`.
use vstd::prelude::*;

verus! {

// ── Specifications ───────────────────────────────────────────────────────────

/// Unicode `White_Space`, the property that `char::is_whitespace` tests.
pub open spec fn is_ws(c: char) -> bool {
    let u = c as u32;
    ||| (0x09 <= u && u <= 0x0d)
    ||| u == 0x20
    ||| u == 0x85
    ||| u == 0xa0
    ||| u == 0x1680
    ||| (0x2000 <= u && u <= 0x200a)
    ||| u == 0x2028
    ||| u == 0x2029
    ||| u == 0x202f
    ||| u == 0x205f
    ||| u == 0x3000
}

/// `s` without its leading whitespace.
pub open spec fn trim_start(s: Seq<char>) -> Seq<char>
    decreases s.len(),
{
    if s.len() > 0 && is_ws(s[0]) {
        trim_start(s.subrange(1, s.len() as int))
    } else {
        s
    }
}

/// `s` without its trailing whitespace.
pub open spec fn trim_end(s: Seq<char>) -> Seq<char>
    decreases s.len(),
{
    if s.len() > 0 && is_ws(s.last()) {
        trim_end(s.drop_last())
    } else {
        s
    }
}

/// `s` without leading and trailing whitespace (`str::trim`).
pub open spec fn trim(s: Seq<char>) -> Seq<char> {
    trim_end(trim_start(s))
}

/// `p` occurs in `s` starting at index `i`.
pub open spec fn occurs_at(s: Seq<char>, p: Seq<char>, i: int) -> bool {
    0 <= i && i + p.len() <= s.len() && s.subrange(i, i + p.len()) == p
}

/// `s` begins with `p`.
pub open spec fn has_prefix(s: Seq<char>, p: Seq<char>) -> bool {
    occurs_at(s, p, 0)
}

/// `p` occurs somewhere in `s` (`str::contains`).
pub open spec fn contains_seq(s: Seq<char>, p: Seq<char>) -> bool {
    exists|i: int| #[trigger] occurs_at(s, p, i)
}

/// Index of the first `c` in `s`, or `s.len()` when there is none.
pub open spec fn first_index_of(s: Seq<char>, c: char) -> int
    decreases s.len(),
{
    if s.len() == 0 {
        0
    } else if s[0] == c {
        0
    } else {
        1 + first_index_of(s.subrange(1, s.len() as int), c)
    }
}

/// The text before the first `c` (the first item of `str::split(c)`).
pub open spec fn before_first(s: Seq<char>, c: char) -> Seq<char> {
    s.take(first_index_of(s, c))
}

/// The text after the last `c`, or all of `s` (the first item of `str::rsplit(c)`).
pub open spec fn after_last(s: Seq<char>, c: char) -> Seq<char>
    decreases s.len(),
{
    if s.len() == 0 {
        s
    } else if s.last() == c {
        Seq::empty()
    } else {
        after_last(s.drop_last(), c).push(s.last())
    }
}

/// ASCII lower case of one character; other characters are unchanged.
pub open spec fn ascii_lower(c: char) -> char {
    if 'A' <= c && c <= 'Z' {
        ((c as u32) + 32) as char
    } else {
        c
    }
}

/// `str::eq_ignore_ascii_case`.
pub open spec fn eq_ignore_ascii_case(a: Seq<char>, b: Seq<char>) -> bool {
    a.len() == b.len() && forall|i: int| 0 <= i < a.len() ==> ascii_lower(a[i]) == ascii_lower(b[i])
}

/// The decimal digit for `d < 10`.
pub open spec fn digit(d: nat) -> char {
    (('0' as u32) + d) as char
}

/// Decimal notation of `n`, without leading zeros (as `Display` writes it).
pub open spec fn decimal(n: nat) -> Seq<char>
    decreases n,
{
    if n < 10 {
        seq![digit(n)]
    } else {
        decimal(n / 10).push(digit(n % 10))
    }
}

/// Decimal notation of `n` padded with zeros to at least two digits (`{:02}`).
pub open spec fn decimal2(n: nat) -> Seq<char> {
    if n < 10 {
        seq!['0', digit(n)]
    } else {
        decimal(n)
    }
}

/// The items of `list` with `sep` between each two (`[..].join(sep)`).
pub open spec fn join(list: Seq<Seq<char>>, sep: Seq<char>) -> Seq<char>
    decreases list.len(),
{
    if list.len() == 0 {
        Seq::empty()
    } else if list.len() == 1 {
        list[0]
    } else {
        join(list.drop_last(), sep) + sep + list.last()
    }
}


/// Index of the first occurrence of `p` in `s`, or `-1` when there is none.
pub open spec fn first_occurrence(s: Seq<char>, p: Seq<char>) -> int
    decreases s.len(),
{
    if s.len() < p.len() {
        -1
    } else if has_prefix(s, p) {
        0
    } else if s.len() == 0 {
        -1
    } else {
        let r = first_occurrence(s.subrange(1, s.len() as int), p);
        if r < 0 {
            -1
        } else {
            r + 1
        }
    }
}

/// The pieces of `s` between the occurrences of `sep`, scanning from the
/// left (`str::split` with a text separator).
pub open spec fn split_on(s: Seq<char>, sep: Seq<char>) -> Seq<Seq<char>>
    decreases s.len(),
{
    let k = first_occurrence(s, sep);
    if sep.len() == 0 || k < 0 {
        seq![s]
    } else {
        proof {
            lemma_first_occurrence_bounds(s, sep);
        }
        seq![s.take(k)] + split_on(s.skip(k + sep.len()), sep)
    }
}

/// What follows `prefix` in the first piece that starts with it.
pub open spec fn first_prefixed(pieces: Seq<Seq<char>>, prefix: Seq<char>) -> Option<Seq<char>>
    decreases pieces.len(),
{
    if pieces.len() == 0 {
        None
    } else if has_prefix(pieces[0], prefix) {
        Some(pieces[0].skip(prefix.len() as int))
    } else {
        first_prefixed(pieces.skip(1), prefix)
    }
}

// ── Proof helpers ────────────────────────────────────────────────────────────

pub proof fn lemma_trim_start_from(s: Seq<char>, i: int)
    requires
        0 <= i < s.len(),
        is_ws(s[i]),
    ensures
        trim_start(s.subrange(i, s.len() as int)) == trim_start(s.subrange(i + 1, s.len() as int)),
{
    let t = s.subrange(i, s.len() as int);
    assert(t.subrange(1, t.len() as int) =~= s.subrange(i + 1, s.len() as int));
}

pub proof fn lemma_first_index_of(s: Seq<char>, c: char, k: int)
    requires
        0 <= k <= s.len(),
        forall|j: int| 0 <= j < k ==> s[j] != c,
        k == s.len() || s[k] == c,
    ensures
        first_index_of(s, c) == k,
    decreases k,
{
    if k > 0 {
        let t = s.subrange(1, s.len() as int);
        lemma_first_index_of(t, c, k - 1);
    }
}

pub proof fn lemma_first_index_of_bounds(s: Seq<char>, c: char)
    ensures
        0 <= first_index_of(s, c) <= s.len(),
    decreases s.len(),
{
    if s.len() > 0 && s[0] != c {
        lemma_first_index_of_bounds(s.subrange(1, s.len() as int), c);
    }
}

proof fn lemma_after_last(s: Seq<char>, c: char, k: int)
    requires
        0 <= k <= s.len(),
        forall|j: int| k <= j < s.len() ==> s[j] != c,
        k == 0 || s[k - 1] == c,
    ensures
        after_last(s, c) == s.subrange(k, s.len() as int),
    decreases s.len(),
{
    if s.len() > k {
        lemma_after_last(s.drop_last(), c, k);
        assert(s.subrange(k, s.len() as int) =~= s.drop_last().subrange(k, s.len() - 1).push(
            s.last(),
        ));
    } else if s.len() > 0 {
        assert(s.subrange(k, s.len() as int) =~= Seq::<char>::empty());
    } else {
        assert(s.subrange(k, s.len() as int) =~= s);
    }
}


pub proof fn lemma_first_occurrence_bounds(s: Seq<char>, p: Seq<char>)
    ensures
        first_occurrence(s, p) >= 0 ==> occurs_at(s, p, first_occurrence(s, p)),
        first_occurrence(s, p) >= -1,
        first_occurrence(s, p) >= 0 ==> forall|j: int|
            0 <= j < first_occurrence(s, p) ==> !#[trigger] occurs_at(s, p, j),
        first_occurrence(s, p) < 0 ==> forall|j: int| !#[trigger] occurs_at(s, p, j),
    decreases s.len(),
{
    if s.len() < p.len() {
    } else if has_prefix(s, p) {
    } else if s.len() == 0 {
        assert forall|j: int| !#[trigger] occurs_at(s, p, j) by {
            if occurs_at(s, p, j) {
                assert(j == 0);
            }
        }
    } else {
        let t = s.subrange(1, s.len() as int);
        lemma_first_occurrence_bounds(t, p);
        assert forall|j: int| 1 <= j implies occurs_at(s, p, j) == occurs_at(t, p, j - 1) by {
            if j + p.len() <= s.len() {
                assert(s.subrange(j, j + p.len()) =~= t.subrange(j - 1, j - 1 + p.len()));
            }
        }
        let r = first_occurrence(t, p);
        if r >= 0 {
            assert(occurs_at(s, p, r + 1));
            assert forall|j: int| 0 <= j < r + 1 implies !#[trigger] occurs_at(s, p, j) by {
                if j >= 1 {
                    assert(!occurs_at(t, p, j - 1));
                }
            }
        } else {
            assert forall|j: int| !#[trigger] occurs_at(s, p, j) by {
                if j >= 1 {
                    assert(!occurs_at(t, p, j - 1));
                }
            }
        }
    }
}

proof fn lemma_first_occurrence_is(s: Seq<char>, p: Seq<char>, k: int)
    requires
        occurs_at(s, p, k),
        forall|j: int| 0 <= j < k ==> !#[trigger] occurs_at(s, p, j),
    ensures
        first_occurrence(s, p) == k,
{
    lemma_first_occurrence_bounds(s, p);
    let r = first_occurrence(s, p);
    if r < 0 {
        assert(!occurs_at(s, p, k));
    } else if r < k {
        assert(!occurs_at(s, p, r));
    } else if r > k {
        assert(!occurs_at(s, p, k));
    }
}

proof fn lemma_first_occurrence_none(s: Seq<char>, p: Seq<char>)
    requires
        forall|j: int| !#[trigger] occurs_at(s, p, j),
    ensures
        first_occurrence(s, p) == -1,
{
    lemma_first_occurrence_bounds(s, p);
    if first_occurrence(s, p) >= 0 {
        assert(occurs_at(s, p, first_occurrence(s, p)));
    }
}

proof fn lemma_occurs_in_skip(s: Seq<char>, p: Seq<char>, pos: int, j: int)
    requires
        0 <= pos <= s.len(),
        0 <= j,
    ensures
        occurs_at(s.skip(pos), p, j) == occurs_at(s, p, pos + j),
{
    if pos + j + p.len() <= s.len() {
        assert(s.skip(pos).subrange(j, j + p.len()) =~= s.subrange(pos + j, pos + j + p.len()));
    }
}

// ── Trusted std item ────────────────────────────────────────────────────────

/// `String::push`: appends one character. The contract claims that the text
/// afterwards is the text before with `c` at its end, as std documents.
#[verifier::external_body]
pub(crate) fn push_char(s: &mut String, c: char)
    ensures
        final(s)@ == old(s)@.push(c),
{
    s.push(c);
}

// ── Executable operations ────────────────────────────────────────────────────

/// The characters of `s`, in order.
pub fn chars_of(s: &str) -> (v: Vec<char>)
    ensures
        v@ == s@,
{
    let n = s.unicode_len();
    let mut v: Vec<char> = Vec::new();
    let mut i: usize = 0;
    while i < n
        invariant
            n == s@.len(),
            i <= n,
            v@ == s@.take(i as int),
        decreases n - i,
    {
        let c = s.get_char(i);
        v.push(c);
        i = i + 1;
        assert(v@ =~= s@.take(i as int));
    }
    assert(v@ =~= s@);
    v
}

/// A `String` holding `v[from..to]`.
pub fn string_from_range(v: &Vec<char>, from: usize, to: usize) -> (r: String)
    requires
        from <= to <= v@.len(),
    ensures
        r@ == v@.subrange(from as int, to as int),
{
    let mut r = String::new();
    let mut i: usize = from;
    while i < to
        invariant
            from <= i <= to <= v@.len(),
            r@ == v@.subrange(from as int, i as int),
        decreases to - i,
    {
        push_char(&mut r, v[i]);
        i = i + 1;
        assert(r@ =~= v@.subrange(from as int, i as int));
    }
    r
}

/// A `String` holding the characters of `v`.
pub fn string_from_chars(v: &Vec<char>) -> (r: String)
    ensures
        r@ == v@,
{
    let r = string_from_range(v, 0, v.len());
    assert(v@.subrange(0, v@.len() as int) =~= v@);
    r
}

/// `char::is_whitespace`.
pub fn is_whitespace(c: char) -> (b: bool)
    ensures
        b == is_ws(c),
{
    let u = c as u32;
    (0x09 <= u && u <= 0x0d) || u == 0x20 || u == 0x85 || u == 0xa0 || u == 0x1680 || (0x2000
        <= u && u <= 0x200a) || u == 0x2028 || u == 0x2029 || u == 0x202f || u == 0x205f || u
        == 0x3000
}

/// Bounds `(i, j)` such that `v[i..j]` is `v` trimmed.
pub fn trim_bounds(v: &Vec<char>) -> (r: (usize, usize))
    ensures
        r.0 <= r.1 <= v@.len(),
        v@.subrange(r.0 as int, r.1 as int) == trim(v@),
{
    let n = v.len();
    let mut i: usize = 0;
    proof {
        assert(v@.subrange(0, n as int) =~= v@);
    }
    while i < n && is_whitespace(v[i])
        invariant
            n == v@.len(),
            i <= n,
            trim_start(v@) == trim_start(v@.subrange(i as int, n as int)),
        decreases n - i,
    {
        proof {
            lemma_trim_start_from(v@, i as int);
        }
        i = i + 1;
    }
    let ghost start = v@.subrange(i as int, n as int);
    assert(trim_start(start) == start);
    let mut j: usize = n;
    while j > i && is_whitespace(v[j - 1])
        invariant
            n == v@.len(),
            i <= j <= n,
            start == v@.subrange(i as int, n as int),
            trim_end(start) == trim_end(v@.subrange(i as int, j as int)),
        decreases j,
    {
        assert(v@.subrange(i as int, j as int).drop_last() =~= v@.subrange(i as int, j - 1));
        j = j - 1;
    }
    (i, j)
}

/// `str::trim`, as a new `String`.
pub fn trim_str(s: &str) -> (r: String)
    ensures
        r@ == trim(s@),
{
    let v = chars_of(s);
    let (i, j) = trim_bounds(&v);
    string_from_range(&v, i, j)
}

/// `s` is empty or whitespace only.
pub fn is_blank(s: &str) -> (b: bool)
    ensures
        b == (trim(s@).len() == 0),
{
    let v = chars_of(s);
    let (i, j) = trim_bounds(&v);
    i == j
}

/// Equality of two sequences of characters.
pub fn chars_eq(a: &Vec<char>, b: &Vec<char>) -> (r: bool)
    ensures
        r == (a@ == b@),
{
    if a.len() != b.len() {
        return false;
    }
    let mut i: usize = 0;
    while i < a.len()
        invariant
            a@.len() == b@.len(),
            i <= a@.len(),
            forall|k: int| 0 <= k < i ==> a@[k] == b@[k],
        decreases a@.len() - i,
    {
        if a[i] != b[i] {
            return false;
        }
        i = i + 1;
    }
    assert(a@ =~= b@);
    true
}

/// `a == b` for two string slices.
pub fn str_eq(a: &str, b: &str) -> (r: bool)
    ensures
        r == (a@ == b@),
{
    let va = chars_of(a);
    let vb = chars_of(b);
    chars_eq(&va, &vb)
}

/// `v[start..start + p.len()] == p`.
pub fn chars_occur_at(v: &Vec<char>, p: &Vec<char>, start: usize) -> (r: bool)
    ensures
        r == occurs_at(v@, p@, start as int),
{
    if start > v.len() || p.len() > v.len() - start {
        return false;
    }
    let n = v.len();
    let mut k: usize = 0;
    while k < p.len()
        invariant
            n == v@.len(),
            start + p@.len() <= n,
            k <= p@.len(),
            forall|m: int| 0 <= m < k ==> v@[start + m] == p@[m],
        decreases p@.len() - k,
    {
        if v[start + k] != p[k] {
            assert(v@.subrange(start as int, start + p@.len())[k as int] != p@[k as int]);
            return false;
        }
        k = k + 1;
    }
    assert(v@.subrange(start as int, start + p@.len()) =~= p@);
    true
}

/// `s.contains(p)`.
pub fn str_contains(s: &str, p: &str) -> (r: bool)
    ensures
        r == contains_seq(s@, p@),
{
    let v = chars_of(s);
    let pv = chars_of(p);
    if pv.len() > v.len() {
        assert forall|i: int| !occurs_at(s@, p@, i) by {}
        return false;
    }
    let last = v.len() - pv.len();
    let mut i: usize = 0;
    while i <= last
        invariant
            v@ == s@,
            pv@ == p@,
            last == v@.len() - pv@.len(),
            forall|k: int| 0 <= k < i ==> !occurs_at(s@, p@, k),
        decreases last + 1 - i,
    {
        if chars_occur_at(&v, &pv, i) {
            return true;
        }
        if i == last {
            assert forall|k: int| !occurs_at(s@, p@, k) by {
                if 0 <= k && k <= last as int {
                } else {
                }
            }
            return false;
        }
        i = i + 1;
    }
    false
}

/// `s.starts_with(p)`.
pub fn str_starts_with(s: &str, p: &str) -> (r: bool)
    ensures
        r == has_prefix(s@, p@),
{
    let v = chars_of(s);
    let pv = chars_of(p);
    chars_occur_at(&v, &pv, 0)
}

/// Position of the first `c` in `v`, or `v.len()`.
pub fn find_char(v: &Vec<char>, c: char) -> (k: usize)
    ensures
        k as int == first_index_of(v@, c),
        k <= v@.len(),
{
    let mut k: usize = 0;
    while k < v.len() && v[k] != c
        invariant
            k <= v@.len(),
            forall|j: int| 0 <= j < k ==> v@[j] != c,
        decreases v@.len() - k,
    {
        k = k + 1;
    }
    proof {
        lemma_first_index_of(v@, c, k as int);
    }
    k
}

/// The text before the first `c` (`s.split(c).next()`).
pub fn str_before_first(s: &str, c: char) -> (r: String)
    ensures
        r@ == before_first(s@, c),
{
    let v = chars_of(s);
    let k = find_char(&v, c);
    let r = string_from_range(&v, 0, k);
    assert(v@.subrange(0, k as int) =~= v@.take(k as int));
    r
}

/// The text after the last `c` (`s.rsplit(c).next()`).
pub fn str_after_last(s: &str, c: char) -> (r: String)
    ensures
        r@ == after_last(s@, c),
{
    let v = chars_of(s);
    let mut k: usize = v.len();
    while k > 0 && v[k - 1] != c
        invariant
            k <= v@.len(),
            forall|j: int| k <= j < v@.len() ==> v@[j] != c,
        decreases k,
    {
        k = k - 1;
    }
    proof {
        lemma_after_last(v@, c, k as int);
    }
    string_from_range(&v, k, v.len())
}


/// The text after `prefix` in the first `sep`-separated piece of `s` that
/// starts with `prefix` (`s.split(sep).find(starts_with).and_then(strip_prefix)`).
pub fn field_after_prefix(s: &str, sep: &str, prefix: &str) -> (r: Option<String>)
    requires
        sep@.len() > 0,
    ensures
        r.is_some() == first_prefixed(split_on(s@, sep@), prefix@).is_some(),
        r matches Some(v) ==> first_prefixed(split_on(s@, sep@), prefix@) == Some(v@),
{
    let v = chars_of(s);
    let sp = chars_of(sep);
    let pv = chars_of(prefix);
    let n = v.len();
    let m = sp.len();
    let mut pos: usize = 0;
    assert(s@.skip(0) =~= s@);
    while pos <= n
        invariant
            v@ == s@,
            sp@ == sep@,
            pv@ == prefix@,
            n == v@.len(),
            m == sp@.len(),
            m > 0,
            pos <= n,
            first_prefixed(split_on(s@, sep@), prefix@) == first_prefixed(
                split_on(s@.skip(pos as int), sep@),
                prefix@,
            ),
        decreases n + 1 - pos,
    {
        let ghost rest = s@.skip(pos as int);
        let mut q: usize = pos;
        while q < n && m <= n - q && !chars_occur_at(&v, &sp, q)
            invariant
                v@ == s@,
                sp@ == sep@,
                n == v@.len(),
                m == sp@.len(),
                pos <= q <= n,
                forall|j: int| pos <= j < q ==> !#[trigger] occurs_at(s@, sep@, j),
            decreases n - q,
        {
            q = q + 1;
        }
        let found = q < n && m <= n - q;
        proof {
            if !found {
                assert forall|j: int| q <= j implies !#[trigger] occurs_at(s@, sep@, j) by {}
            }
        }
        if found {
            proof {
                assert forall|j: int| 0 <= j < q - pos implies !#[trigger] occurs_at(rest, sep@, j) by {
                    lemma_occurs_in_skip(s@, sep@, pos as int, j);
                }
                lemma_occurs_in_skip(s@, sep@, pos as int, q - pos);
                lemma_first_occurrence_is(rest, sep@, q - pos);
                assert(rest.take(q - pos) =~= v@.subrange(pos as int, q as int));
                assert(rest.skip(q - pos + m) =~= s@.skip(q + m));
                assert(split_on(rest, sep@)[0] == rest.take(q - pos));
                assert(split_on(rest, sep@).skip(1) =~= split_on(s@.skip(q + m), sep@));
            }
            if pv.len() <= q - pos && chars_occur_at(&v, &pv, pos) {
                proof {
                    assert(v@.subrange(pos as int, q as int).subrange(0, pv@.len() as int)
                        =~= v@.subrange(pos as int, pos + pv@.len()));
                }
                let r = string_from_range(&v, pos + pv.len(), q);
                proof {
                    assert(v@.subrange(pos as int, q as int).skip(pv@.len() as int)
                        =~= v@.subrange(pos + pv@.len(), q as int));
                }
                return Some(r);
            }
            proof {
                if has_prefix(v@.subrange(pos as int, q as int), prefix@) {
                    assert(v@.subrange(pos as int, q as int).subrange(0, pv@.len() as int)
                        =~= v@.subrange(pos as int, pos + pv@.len()));
                    assert(pv@.subrange(0, pv@.len() as int) =~= pv@);
                }
            }
            pos = q + m;
        } else {
            proof {
                assert forall|j: int| !#[trigger] occurs_at(rest, sep@, j) by {
                    if 0 <= j {
                        lemma_occurs_in_skip(s@, sep@, pos as int, j);
                        if pos + j < q {
                        } else {
                            assert(!occurs_at(s@, sep@, pos + j));
                        }
                    }
                }
                lemma_first_occurrence_none(rest, sep@);
                assert(split_on(rest, sep@) == seq![rest]);
                assert(rest =~= v@.subrange(pos as int, n as int));
                assert(seq![rest].skip(1) =~= Seq::<Seq<char>>::empty());
            }
            if pv.len() <= n - pos && chars_occur_at(&v, &pv, pos) {
                proof {
                    assert(v@.subrange(pos as int, n as int).subrange(0, pv@.len() as int)
                        =~= v@.subrange(pos as int, pos + pv@.len()));
                }
                let r = string_from_range(&v, pos + pv.len(), n);
                proof {
                    assert(v@.subrange(pos as int, n as int).skip(pv@.len() as int)
                        =~= v@.subrange(pos + pv@.len(), n as int));
                }
                return Some(r);
            }
            proof {
                if has_prefix(v@.subrange(pos as int, n as int), prefix@) {
                    assert(v@.subrange(pos as int, n as int).subrange(0, pv@.len() as int)
                        =~= v@.subrange(pos as int, pos + pv@.len()));
                }
                assert(!has_prefix(rest, prefix@));
                assert(first_prefixed(seq![rest], prefix@) == first_prefixed(
                    seq![rest].skip(1),
                    prefix@,
                ));
                assert(first_prefixed(Seq::<Seq<char>>::empty(), prefix@) is None);
            }
            return None;
        }
    }
    None
}

/// `a.eq_ignore_ascii_case(b)`.
pub fn str_eq_ignore_ascii_case(a: &str, b: &str) -> (r: bool)
    ensures
        r == eq_ignore_ascii_case(a@, b@),
{
    let va = chars_of(a);
    let vb = chars_of(b);
    if va.len() != vb.len() {
        return false;
    }
    let mut i: usize = 0;
    while i < va.len()
        invariant
            va@ == a@,
            vb@ == b@,
            va@.len() == vb@.len(),
            i <= va@.len(),
            forall|k: int| 0 <= k < i ==> ascii_lower(va@[k]) == ascii_lower(vb@[k]),
        decreases va@.len() - i,
    {
        let x = va[i];
        let y = vb[i];
        let lx = if 'A' <= x && x <= 'Z' {
            ((x as u8) + 32) as char
        } else {
            x
        };
        let ly = if 'A' <= y && y <= 'Z' {
            ((y as u8) + 32) as char
        } else {
            y
        };
        if lx != ly {
            return false;
        }
        i = i + 1;
    }
    true
}

/// Decimal digit character for `d < 10`.
fn digit_char(d: u64) -> (c: char)
    requires
        d < 10,
    ensures
        c == digit(d as nat),
{
    ((('0' as u32) + (d as u32)) as u8) as char
}

/// `n.to_string()` for an unsigned integer.
pub fn decimal_string(n: u64) -> (r: String)
    ensures
        r@ == decimal(n as nat),
    decreases n,
{
    if n < 10 {
        let mut r = String::new();
        push_char(&mut r, digit_char(n));
        assert(r@ =~= seq![digit(n as nat)]);
        r
    } else {
        let mut r = decimal_string(n / 10);
        push_char(&mut r, digit_char(n % 10));
        r
    }
}

/// `format!("{n:02}")`.
pub fn decimal2_string(n: u64) -> (r: String)
    ensures
        r@ == decimal2(n as nat),
{
    if n < 10 {
        let mut r = String::new();
        push_char(&mut r, '0');
        push_char(&mut r, digit_char(n));
        assert(r@ =~= seq!['0', digit(n as nat)]);
        r
    } else {
        decimal_string(n)
    }
}

/// `list.join(sep)`.
pub fn join_strings(list: &Vec<String>, sep: &str) -> (r: String)
    ensures
        r@ == join(list@.map_values(|x: String| x@), sep@),
{
    let ghost views = list@.map_values(|x: String| x@);
    let mut r = String::new();
    let mut i: usize = 0;
    while i < list.len()
        invariant
            views == list@.map_values(|x: String| x@),
            i <= list@.len(),
            r@ == join(views.take(i as int), sep@),
        decreases list@.len() - i,
    {
        proof {
            assert(views.take(i + 1).drop_last() =~= views.take(i as int));
        }
        if i > 0 {
            r.append(sep);
        }
        r.append(list[i].as_str());
        i = i + 1;
        proof {
            if i == 1 {
                assert(views.take(1)[0] == views[0]);
            }
        }
    }
    assert(views.take(list@.len() as int) =~= views);
    r
}

/// Index of the first occurrence of `p` in `v` (`str::find` with a text).
pub fn find_chars(v: &Vec<char>, p: &Vec<char>) -> (k: Option<usize>)
    ensures
        match k {
            Some(i) => first_occurrence(v@, p@) == i as int,
            None => first_occurrence(v@, p@) == -1,
        },
{
    let n = v.len();
    let m = p.len();
    if m > n {
        proof {
            assert forall|j: int| !#[trigger] occurs_at(v@, p@, j) by {}
            lemma_first_occurrence_none(v@, p@);
        }
        return None;
    }
    let mut i: usize = 0;
    loop
        invariant
            n == v@.len(),
            m == p@.len(),
            m <= n,
            i <= n - m,
            forall|j: int| 0 <= j < i ==> !#[trigger] occurs_at(v@, p@, j),
        decreases n - m - i,
    {
        if chars_occur_at(v, p, i) {
            proof {
                lemma_first_occurrence_is(v@, p@, i as int);
            }
            return Some(i);
        }
        if i == n - m {
            proof {
                assert forall|j: int| !#[trigger] occurs_at(v@, p@, j) by {
                    if 0 <= j < i {
                    }
                }
                lemma_first_occurrence_none(v@, p@);
            }
            return None;
        }
        i = i + 1;
    }
}

/// The first index from `from` on that is not whitespace, or `v.len()`.
pub fn skip_whitespace(v: &Vec<char>, from: usize) -> (i: usize)
    requires
        from <= v@.len(),
    ensures
        from <= i <= v@.len(),
        v@.subrange(i as int, v@.len() as int) == trim_start(v@.subrange(from as int, v@.len() as int)),
{
    let n = v.len();
    let mut i: usize = from;
    while i < n && is_whitespace(v[i])
        invariant
            n == v@.len(),
            from <= i <= n,
            trim_start(v@.subrange(from as int, n as int)) == trim_start(v@.subrange(i as int, n as int)),
        decreases n - i,
    {
        proof {
            lemma_trim_start_from(v@, i as int);
        }
        i = i + 1;
    }
    i
}

} // verus!
