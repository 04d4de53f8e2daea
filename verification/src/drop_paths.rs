//! Paths dropped or pasted into a terminal: one per line, possibly quoted,
//! with shell-style backslash escapes.
use vstd::prelude::*;

use crate::tags::{first_where, lemma_first_where};
use crate::text::{
    chars_of, first_index_of, lemma_first_index_of, lemma_first_index_of_bounds, push_char, trim,
    trim_bounds,
};

verus! {

/// `x` without one trailing carriage return.
pub open spec fn strip_cr(x: Seq<char>) -> Seq<char> {
    if x.len() > 0 && x.last() == '\r' {
        x.drop_last()
    } else {
        x
    }
}

/// The lines of `s` as `str::lines` yields them: split at `\n`, a `\r`
/// right before the `\n` dropped, and no empty line after a final `\n`.
pub open spec fn lines(s: Seq<char>) -> Seq<Seq<char>>
    decreases s.len(),
{
    if s.len() == 0 {
        Seq::empty()
    } else {
        let k = first_index_of(s, '\n');
        if k >= s.len() {
            seq![s]
        } else {
            proof {
                lemma_first_index_of_bounds(s, '\n');
            }
            seq![strip_cr(s.take(k))] + lines(s.skip(k + 1))
        }
    }
}

/// A quote character that dropped paths may be wrapped in.
pub open spec fn is_quote(c: char) -> bool {
    c == '"' || c == '\''
}

/// `s` without leading quote characters.
pub open spec fn unquote_start(s: Seq<char>) -> Seq<char>
    decreases s.len(),
{
    if s.len() > 0 && is_quote(s[0]) {
        unquote_start(s.subrange(1, s.len() as int))
    } else {
        s
    }
}

/// `s` without trailing quote characters.
pub open spec fn unquote_end(s: Seq<char>) -> Seq<char>
    decreases s.len(),
{
    if s.len() > 0 && is_quote(s.last()) {
        unquote_end(s.drop_last())
    } else {
        s
    }
}

/// `s` with every `\x` replaced by `x`, and a final lone `\` dropped.
pub open spec fn unescape(s: Seq<char>) -> Seq<char>
    decreases s.len(),
{
    if s.len() == 0 {
        Seq::empty()
    } else if s[0] == '\\' {
        if s.len() >= 2 {
            seq![s[1]] + unescape(s.skip(2))
        } else {
            Seq::empty()
        }
    } else {
        seq![s[0]] + unescape(s.skip(1))
    }
}

/// A dropped path as the terminal delivered it, made plain: trimmed, quotes
/// at both ends removed, escapes resolved.
pub open spec fn normalized(raw: Seq<char>) -> Seq<char> {
    unescape(unquote_end(unquote_start(trim(raw))))
}

/// The paths in a paste: the non-blank lines, each normalized, keeping those
/// that are not empty.
pub open spec fn dropped_paths(paste: Seq<char>) -> Seq<Seq<char>> {
    lines(paste).filter(|l: Seq<char>| trim(l).len() > 0).map_values(|l: Seq<char>| normalized(l)).filter(
        |p: Seq<char>| p.len() > 0,
    )
}

/// The first path in an input: the first non-blank line, normalized, if that
/// is not empty.
pub open spec fn first_path(input: Seq<char>) -> Option<Seq<char>> {
    let ls = lines(input);
    let k = first_where(ls, |l: Seq<char>| trim(l).len() > 0);
    if k < ls.len() && normalized(ls[k]).len() > 0 {
        Some(normalized(ls[k]))
    } else {
        None
    }
}

proof fn lemma_unquote_start_from(s: Seq<char>, i: int)
    requires
        0 <= i < s.len(),
        is_quote(s[i]),
    ensures
        unquote_start(s.subrange(i, s.len() as int)) == unquote_start(
            s.subrange(i + 1, s.len() as int),
        ),
{
    let t = s.subrange(i, s.len() as int);
    assert(t.subrange(1, t.len() as int) =~= s.subrange(i + 1, s.len() as int));
}

/// The lines of `v`, in order.
pub fn split_lines(v: &Vec<char>) -> (r: Vec<Vec<char>>)
    ensures
        r@.map_values(|l: Vec<char>| l@) == lines(v@),
{
    let n = v.len();
    let mut out: Vec<Vec<char>> = Vec::new();
    let mut pos: usize = 0;
    assert(v@.skip(0) =~= v@);
    while pos < n
        invariant
            n == v@.len(),
            pos <= n,
            out@.map_values(|l: Vec<char>| l@) + lines(v@.skip(pos as int)) == lines(v@),
        decreases n - pos,
    {
        let ghost rest = v@.skip(pos as int);
        let mut k: usize = pos;
        while k < n && v[k] != '\n'
            invariant
                n == v@.len(),
                pos <= k <= n,
                forall|j: int| pos <= j < k ==> v@[j] != '\n',
            decreases n - k,
        {
            k = k + 1;
        }
        proof {
            assert forall|j: int| 0 <= j < k - pos implies rest[j] != '\n' by {
                assert(rest[j] == v@[pos + j]);
            }
            if k < n {
                assert(rest[k - pos] == v@[k as int]);
            }
            lemma_first_index_of(rest, '\n', k - pos);
        }
        let mut end = k;
        if end > pos && v[end - 1] == '\r' && k < n {
            end = end - 1;
        }
        let mut line: Vec<char> = Vec::new();
        let mut i: usize = pos;
        while i < end
            invariant
                pos <= i <= end <= k <= n,
                n == v@.len(),
                line@ == v@.subrange(pos as int, i as int),
            decreases end - i,
        {
            line.push(v[i]);
            i = i + 1;
            assert(line@ =~= v@.subrange(pos as int, i as int));
        }
        let ghost before = out@.map_values(|l: Vec<char>| l@);
        out.push(line);
        proof {
            assert(out@.map_values(|l: Vec<char>| l@) =~= before.push(line@));
            if k < n {
                assert(rest.take(k - pos) =~= v@.subrange(pos as int, k as int));
                assert(line@ == strip_cr(rest.take(k - pos)));
                assert(rest.skip(k - pos + 1) =~= v@.skip(k + 1));
                assert(lines(rest) == seq![strip_cr(rest.take(k - pos))] + lines(
                    rest.skip(k - pos + 1),
                ));
                assert(before + lines(rest) =~= before.push(line@) + lines(v@.skip(k + 1)));
            } else {
                assert(rest =~= v@.subrange(pos as int, n as int));
                assert(lines(rest) == seq![rest]);
                assert(v@.skip(n as int) =~= Seq::<char>::empty());
                assert(before + lines(rest) =~= before.push(line@) + lines(v@.skip(n as int)));
            }
        }
        pos = if k < n {
            k + 1
        } else {
            n
        };
    }
    assert(v@.skip(n as int) =~= Seq::<char>::empty());
    assert(out@.map_values(|l: Vec<char>| l@) =~= lines(v@));
    out
}

/// Bounds `(i, j)` such that `v[i..j]` is `v` without quotes at either end.
fn unquote_bounds(v: &Vec<char>, from: usize, to: usize) -> (r: (usize, usize))
    requires
        from <= to <= v@.len(),
    ensures
        from <= r.0 <= r.1 <= to,
        v@.subrange(r.0 as int, r.1 as int) == unquote_end(
            unquote_start(v@.subrange(from as int, to as int)),
        ),
{
    let ghost s = v@.subrange(from as int, to as int);
    let mut i: usize = from;
    assert(s.subrange(0, s.len() as int) =~= s);
    while i < to && (v[i] == '"' || v[i] == '\'')
        invariant
            from <= i <= to <= v@.len(),
            s == v@.subrange(from as int, to as int),
            unquote_start(s) == unquote_start(s.subrange(i - from, s.len() as int)),
        decreases to - i,
    {
        proof {
            lemma_unquote_start_from(s, i - from);
            assert(s.subrange(i - from + 1, s.len() as int) =~= s.subrange(
                (i + 1) - from,
                s.len() as int,
            ));
        }
        i = i + 1;
    }
    let ghost start = v@.subrange(i as int, to as int);
    assert(s.subrange(i - from, s.len() as int) =~= start);
    assert(unquote_start(start) == start);
    let mut j: usize = to;
    while j > i && (v[j - 1] == '"' || v[j - 1] == '\'')
        invariant
            from <= i <= j <= to <= v@.len(),
            start == v@.subrange(i as int, to as int),
            unquote_end(start) == unquote_end(v@.subrange(i as int, j as int)),
        decreases j,
    {
        assert(v@.subrange(i as int, j as int).drop_last() =~= v@.subrange(i as int, j - 1));
        j = j - 1;
    }
    (i, j)
}

/// `v[from..to]` with its escapes resolved.
fn unescape_range(v: &Vec<char>, from: usize, to: usize) -> (r: String)
    requires
        from <= to <= v@.len(),
    ensures
        r@ == unescape(v@.subrange(from as int, to as int)),
{
    let ghost s = v@.subrange(from as int, to as int);
    let mut out = String::new();
    let mut i: usize = from;
    assert(s.skip(0) =~= s);
    while i < to
        invariant
            from <= i <= to <= v@.len(),
            s == v@.subrange(from as int, to as int),
            out@ + unescape(v@.subrange(i as int, to as int)) == unescape(s),
        decreases to - i,
    {
        let ghost t = v@.subrange(i as int, to as int);
        let ghost before = out@;
        if v[i] == '\\' {
            if i + 1 < to {
                push_char(&mut out, v[i + 1]);
                proof {
                    assert(t.skip(2) =~= v@.subrange(i + 2, to as int));
                    assert(before + unescape(t) =~= out@ + unescape(v@.subrange(i + 2, to as int)));
                }
                i = i + 2;
            } else {
                proof {
                    assert(v@.subrange(to as int, to as int) =~= Seq::<char>::empty());
                    assert(before + unescape(t) =~= out@ + unescape(
                        v@.subrange(to as int, to as int),
                    ));
                }
                i = to;
            }
        } else {
            push_char(&mut out, v[i]);
            proof {
                assert(t.skip(1) =~= v@.subrange(i + 1, to as int));
                assert(before + unescape(t) =~= out@ + unescape(v@.subrange(i + 1, to as int)));
            }
            i = i + 1;
        }
    }
    assert(v@.subrange(to as int, to as int) =~= Seq::<char>::empty());
    assert(out@ =~= unescape(s));
    out
}

/// One dropped path made plain (trimmed, unquoted, unescaped).
pub fn normalize_dropped_path(raw: &str) -> (r: String)
    ensures
        r@ == normalized(raw@),
{
    let v = chars_of(raw);
    let (a, b) = trim_bounds(&v);
    let (i, j) = unquote_bounds(&v, a, b);
    assert(v@.subrange(i as int, j as int) =~= v@.subrange(i as int, j as int));
    unescape_range(&v, i, j)
}

fn normalize_line(line: &Vec<char>) -> (r: String)
    ensures
        r@ == normalized(line@),
{
    let (a, b) = trim_bounds(line);
    let (i, j) = unquote_bounds(line, a, b);
    unescape_range(line, i, j)
}

fn is_blank_chars(line: &Vec<char>) -> (b: bool)
    ensures
        b == (trim(line@).len() == 0),
{
    let (a, b) = trim_bounds(line);
    a == b
}

/// The paths in a paste, one per non-blank line.
pub fn parse_dropped_paths(paste: &str) -> (r: Vec<String>)
    ensures
        r@.map_values(|p: String| p@) == dropped_paths(paste@),
{
    let v = chars_of(paste);
    let all = split_lines(&v);
    let ghost ls = lines(paste@);
    let ghost keep = |l: Seq<char>| trim(l).len() > 0;
    let ghost norm = |l: Seq<char>| normalized(l);
    let ghost nonempty = |p: Seq<char>| p.len() > 0;
    let mut out: Vec<String> = Vec::new();
    let mut i: usize = 0;
    while i < all.len()
        invariant
            all@.map_values(|l: Vec<char>| l@) == ls,
            keep == (|l: Seq<char>| trim(l).len() > 0),
            norm == (|l: Seq<char>| normalized(l)),
            nonempty == (|p: Seq<char>| p.len() > 0),
            i <= all@.len(),
            out@.map_values(|p: String| p@) == ls.take(i as int).filter(keep).map_values(
                norm,
            ).filter(nonempty),
        decreases all@.len() - i,
    {
        proof {
            reveal_with_fuel(Seq::<Seq<char>>::filter, 1);
            assert(ls.take(i + 1).drop_last() =~= ls.take(i as int));
            assert(ls[i as int] == all@[i as int]@);
        }
        let ghost before = out@.map_values(|p: String| p@);
        let ghost prefix = ls.take(i as int).filter(keep).map_values(norm);
        if !is_blank_chars(&all[i]) {
            let p = normalize_line(&all[i]);
            assert(ls.take(i + 1).filter(keep) == ls.take(i as int).filter(keep).push(ls[i as int]));
            assert(ls.take(i + 1).filter(keep).map_values(norm) =~= prefix.push(p@));
            if p.as_str().is_empty() {
                assert(prefix.push(p@).filter(nonempty) == prefix.filter(nonempty)) by {
                    reveal_with_fuel(Seq::<Seq<char>>::filter, 1);
                    assert(prefix.push(p@).drop_last() =~= prefix);
                }
            } else {
                assert(prefix.push(p@).filter(nonempty) == prefix.filter(nonempty).push(p@)) by {
                    reveal_with_fuel(Seq::<Seq<char>>::filter, 1);
                    assert(prefix.push(p@).drop_last() =~= prefix);
                }
                out.push(p);
                assert(out@.map_values(|p: String| p@) =~= before.push(p@));
            }
        } else {
            assert(ls.take(i + 1).filter(keep) == ls.take(i as int).filter(keep));
        }
        i = i + 1;
    }
    assert(ls.take(all@.len() as int) =~= ls);
    out
}

/// The first path in an input, if its first non-blank line names one.
pub fn parse_first_path(input: &str) -> (r: Option<String>)
    ensures
        r.is_some() == first_path(input@).is_some(),
        r matches Some(p) ==> first_path(input@) == Some(p@),
{
    let v = chars_of(input);
    let all = split_lines(&v);
    let ghost ls = lines(input@);
    let ghost keep = |l: Seq<char>| trim(l).len() > 0;
    let mut i: usize = 0;
    while i < all.len()
        invariant
            all@.map_values(|l: Vec<char>| l@) == ls,
            keep == (|l: Seq<char>| trim(l).len() > 0),
            ls == lines(input@),
            i <= all@.len(),
            forall|j: int| 0 <= j < i ==> !keep(#[trigger] ls[j]),
        decreases all@.len() - i,
    {
        assert(ls[i as int] == all@[i as int]@);
        if !is_blank_chars(&all[i]) {
            let p = normalize_line(&all[i]);
            proof {
                lemma_first_where(ls, keep, i as int);
            }
            if p.as_str().is_empty() {
                return None;
            }
            return Some(p);
        }
        i = i + 1;
    }
    proof {
        lemma_first_where(ls, keep, ls.len() as int);
    }
    None
}

} // verus!
