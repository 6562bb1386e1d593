//! Verified string utilities: substring search, search-and-replace, joining
//! and splitting on separators, and decimal rendering. All contracts are
//! stated over `Seq<char>` views.

use vstd::prelude::*;

verus! {

/// Relies on `String::push`: appends exactly the given character to the end
/// of the string (vstd specifies `String` but not this method).
pub assume_specification[ String::push ](s: &mut String, c: char)
    ensures
        final(s)@ == old(s)@.push(c),
;

/// The pattern `p` occurs in `s` starting at position `i`.
pub open spec fn match_at(s: Seq<char>, p: Seq<char>, i: int) -> bool {
    0 <= i && i + p.len() <= s.len() && s.subrange(i, i + p.len() as int) == p
}

/// The pattern `p` occurs somewhere in `s`.
pub open spec fn spec_contains(s: Seq<char>, p: Seq<char>) -> bool {
    exists|i: int| match_at(s, p, i)
}

/// Whether `p` occurs in `s`.
pub fn contains_str(s: &str, p: &str) -> (r: bool)
    ensures
        r == spec_contains(s@, p@),
{
    let s_len = s.unicode_len();
    let p_len = p.unicode_len();
    if p_len > s_len {
        assert(forall|i: int| !match_at(s@, p@, i));
        return false;
    }
    if p_len == 0 {
        assert(s@.subrange(0, 0) =~= p@);
        assert(match_at(s@, p@, 0));
        return true;
    }
    let mut i: usize = 0;
    while i <= s_len - p_len
        invariant
            p_len == p@.len(),
            s_len == s@.len(),
            1 <= p_len <= s_len,
            i <= s_len,
            forall|j: int| 0 <= j < i ==> !match_at(s@, p@, j),
        decreases s_len - i,
    {
        if matches_here(s, p, i) {
            return true;
        }
        i = i + 1;
    }
    assert(forall|j: int| !match_at(s@, p@, j));
    false
}

/// Whether `p` occurs in `s` starting at position `i`.
fn matches_here(s: &str, p: &str, i: usize) -> (r: bool)
    requires
        i + p@.len() <= s@.len(),
    ensures
        r == match_at(s@, p@, i as int),
{
    let s_len = s.unicode_len();
    let p_len = p.unicode_len();
    let mut k: usize = 0;
    while k < p_len
        invariant
            p_len == p@.len(),
            s_len == s@.len(),
            i + p_len <= s_len,
            k <= p_len,
            forall|j: int| 0 <= j < k ==> s@[i + j] == p@[j],
        decreases p_len - k,
    {
        if s.get_char(i + k) != p.get_char(k) {
            assert(!match_at(s@, p@, i as int)) by {
                assert(s@.subrange(i as int, i + p@.len() as int)[k as int] == s@[i + k]);
            }
            return false;
        }
        k = k + 1;
    }
    assert(s@.subrange(i as int, i + p@.len() as int) =~= p@);
    true
}

/// The first position at or after `i` where `p` occurs in `s`, if any.
pub open spec fn find_from(s: Seq<char>, p: Seq<char>, i: int) -> Option<int>
    decreases s.len() - i,
{
    if !(0 <= i && i + p.len() <= s.len()) {
        None
    } else if match_at(s, p, i) {
        Some(i)
    } else if p.len() == 0 {
        None
    } else {
        find_from(s, p, i + 1)
    }
}

/// The first position where `p` occurs in `s`, if any.
pub open spec fn spec_find(s: Seq<char>, p: Seq<char>) -> Option<int> {
    find_from(s, p, 0)
}

/// The position of the first occurrence of `p` in `s`, or `None`.
pub fn find_str(s: &str, p: &str) -> (r: Option<usize>)
    ensures
        match r {
            Some(i) => spec_find(s@, p@) == Some(i as int),
            None => spec_find(s@, p@) is None,
        },
{
    let s_len = s.unicode_len();
    let p_len = p.unicode_len();
    if p_len > s_len {
        return None;
    }
    if p_len == 0 {
        assert(s@.subrange(0, 0) =~= p@);
        return Some(0);
    }
    let mut i: usize = 0;
    while i <= s_len - p_len
        invariant
            p_len == p@.len(),
            s_len == s@.len(),
            1 <= p_len <= s_len,
            i <= s_len,
            find_from(s@, p@, 0) == find_from(s@, p@, i as int),
        decreases s_len - i,
    {
        if matches_here(s, p, i) {
            return Some(i);
        }
        i = i + 1;
    }
    None
}

/// `s` with every occurrence of `p` replaced by `r`, scanning left to right
/// without re-examining replaced text. When `p` is empty, `s` is unchanged.
pub open spec fn replace_seq(s: Seq<char>, p: Seq<char>, r: Seq<char>) -> Seq<char>
    decreases s.len(),
{
    if p.len() == 0 {
        s
    } else if s.len() < p.len() {
        s
    } else if s.subrange(0, p.len() as int) == p {
        r + replace_seq(s.skip(p.len() as int), p, r)
    } else {
        seq![s[0]] + replace_seq(s.skip(1), p, r)
    }
}

/// Replaces every occurrence of `pat` in `s` by `rep`, left to right.
pub fn replace_all(s: &str, pat: &str, rep: &str) -> (out: String)
    requires
        pat@.len() > 0,
    ensures
        out@ == replace_seq(s@, pat@, rep@),
{
    let s_len = s.unicode_len();
    let p_len = pat.unicode_len();
    let mut out = String::new();
    let mut i: usize = 0;
    assert(s@.skip(0) =~= s@);
    assert(out@ + replace_seq(s@, pat@, rep@) =~= replace_seq(s@, pat@, rep@));
    if p_len <= s_len {
        while i <= s_len - p_len
            invariant
                p_len == pat@.len(),
                s_len == s@.len(),
                1 <= p_len <= s_len,
                i <= s_len,
                out@ + replace_seq(s@.skip(i as int), pat@, rep@) == replace_seq(s@, pat@, rep@),
            decreases s_len - i,
        {
            let ghost tail = s@.skip(i as int);
            if matches_here(s, pat, i) {
                out.append(rep);
                proof {
                    assert(tail.subrange(0, p_len as int) =~= s@.subrange(
                        i as int,
                        i + p_len as int,
                    ));
                    assert(tail.skip(p_len as int) =~= s@.skip(i + p_len));
                    assert(replace_seq(tail, pat@, rep@) == rep@ + replace_seq(
                        s@.skip(i + p_len),
                        pat@,
                        rep@,
                    ));
                }
                i = i + p_len;
            } else {
                out.push(s.get_char(i));
                proof {
                    assert(tail.subrange(0, p_len as int) =~= s@.subrange(
                        i as int,
                        i + p_len as int,
                    ));
                    assert(seq![tail[0]] =~= seq![s@[i as int]]);
                    assert(tail.skip(1) =~= s@.skip(i + 1));
                    assert(replace_seq(tail, pat@, rep@) == seq![s@[i as int]] + replace_seq(
                        s@.skip(i + 1),
                        pat@,
                        rep@,
                    ));
                }
                i = i + 1;
            }
        }
    }
    let tail_str = s.substring_char(i, s_len);
    out.append(tail_str);
    proof {
        assert(s@.skip(i as int) =~= s@.subrange(i as int, s_len as int));
        assert(replace_seq(s@.skip(i as int), pat@, rep@) == s@.skip(i as int));
    }
    out
}

/// `parts` joined with `sep` between consecutive elements.
pub open spec fn spec_join(parts: Seq<Seq<char>>, sep: Seq<char>) -> Seq<char>
    decreases parts.len(),
{
    if parts.len() == 0 {
        Seq::empty()
    } else if parts.len() == 1 {
        parts[0]
    } else {
        spec_join(parts.drop_last(), sep) + sep + parts.last()
    }
}

/// Joins `parts` with `sep` between consecutive elements.
pub fn join_strings(parts: &Vec<String>, sep: &str) -> (out: String)
    ensures
        out@ == spec_join(parts.deep_view(), sep@),
{
    let mut out = String::new();
    let mut i: usize = 0;
    while i < parts.len()
        invariant
            i <= parts.len(),
            out@ == spec_join(parts.deep_view().take(i as int), sep@),
        decreases parts.len() - i,
    {
        if i > 0 {
            out.append(sep);
        }
        out.append(parts[i].as_str());
        proof {
            let pv = parts.deep_view();
            assert(pv.take(i + 1).drop_last() =~= pv.take(i as int));
            assert(pv.take(i + 1).last() == pv[i as int]);
            if i == 0 {
                assert(out@ =~= pv.take(1)[0]);
            }
        }
        i = i + 1;
    }
    proof {
        assert(parts.deep_view().take(parts.len() as int) =~= parts.deep_view());
    }
    out
}

/// `s` cut at every occurrence of `sep`; a trailing separator yields a final
/// empty piece, and splitting the empty sequence yields one empty piece.
pub open spec fn spec_split(s: Seq<char>, sep: char) -> Seq<Seq<char>>
    decreases s.len(),
{
    if s.len() == 0 {
        seq![Seq::empty()]
    } else {
        let r = spec_split(s.drop_last(), sep);
        if s.last() == sep {
            r.push(Seq::empty())
        } else {
            r.update(r.len() - 1, r.last().push(s.last()))
        }
    }
}

/// A piece with a trailing carriage return removed, as a line-ending cleanup.
pub open spec fn strip_cr(l: Seq<char>) -> Seq<char> {
    if l.len() > 0 && l.last() == '\r' {
        l.drop_last()
    } else {
        l
    }
}

/// The lines of `s`: pieces split at `'\n'`, each terminated piece with a
/// trailing `'\r'` removed, and a final empty piece (from a trailing newline
/// or an empty input) dropped.
pub open spec fn spec_lines(s: Seq<char>) -> Seq<Seq<char>> {
    let ps = spec_split(s, '\n');
    let body = Seq::new((ps.len() - 1) as nat, |i: int| strip_cr(ps[i]));
    if ps.last().len() == 0 {
        body
    } else {
        body.push(ps.last())
    }
}

/// Splits `s` into its lines.
pub fn split_lines(s: &str) -> (out: Vec<String>)
    ensures
        out.deep_view() == spec_lines(s@),
{
    let s_len = s.unicode_len();
    let mut out: Vec<String> = Vec::new();
    let mut cur = String::new();
    let mut cur_len: usize = 0;
    let mut i: usize = 0;
    assert(s@.take(0) =~= Seq::<char>::empty());
    while i < s_len
        invariant
            s_len == s@.len(),
            i <= s_len,
            cur_len <= i,
            cur_len == cur@.len(),
            spec_split(s@.take(i as int), '\n').len() >= 1,
            cur@ == spec_split(s@.take(i as int), '\n').last(),
            out.deep_view() =~= Seq::new(
                (spec_split(s@.take(i as int), '\n').len() - 1) as nat,
                |j: int| strip_cr(spec_split(s@.take(i as int), '\n')[j]),
            ),
        decreases s_len - i,
    {
        let ghost ps = spec_split(s@.take(i as int), '\n');
        let c = s.get_char(i);
        proof {
            assert(s@.take(i + 1).drop_last() =~= s@.take(i as int));
            assert(s@.take(i + 1).last() == s@[i as int]);
        }
        if c == '\n' {
            let ghost old_dv = out.deep_view();
            let line = if cur_len > 0 && cur.as_str().get_char(cur_len - 1) == '\r' {
                String::from_str(cur.as_str().substring_char(0, cur_len - 1))
            } else {
                cur
            };
            proof {
                if cur_len > 0 && ps.last()[cur_len - 1] == '\r' {
                    assert(line@ =~= strip_cr(ps.last()));
                } else {
                    assert(strip_cr(ps.last()) == ps.last());
                }
                assert(line@ == strip_cr(ps.last()));
            }
            out.push(line);
            cur = String::new();
            cur_len = 0;
            proof {
                assert(out.deep_view() =~= old_dv.push(strip_cr(ps.last())));
                let ps2 = spec_split(s@.take(i + 1), '\n');
                assert(ps2 == ps.push(Seq::<char>::empty()));
                assert(out.deep_view() =~= Seq::new(
                    (ps2.len() - 1) as nat,
                    |j: int| strip_cr(ps2[j]),
                ));
            }
        } else {
            cur.push(c);
            cur_len = cur_len + 1;
            proof {
                let ps2 = spec_split(s@.take(i + 1), '\n');
                assert(ps2 == ps.update(ps.len() - 1, ps.last().push(s@[i as int])));
                assert(ps2.len() == ps.len());
                assert(forall|j: int| 0 <= j < ps.len() - 1 ==> ps2[j] == ps[j]);
                assert(Seq::new((ps.len() - 1) as nat, |j: int| strip_cr(ps[j])) =~= Seq::new(
                    (ps2.len() - 1) as nat,
                    |j: int| strip_cr(ps2[j]),
                ));
                assert(out.deep_view() =~= Seq::new(
                    (ps2.len() - 1) as nat,
                    |j: int| strip_cr(ps2[j]),
                ));
            }
        }
        i = i + 1;
    }
    proof {
        assert(s@.take(s_len as int) =~= s@);
    }
    if cur_len > 0 {
        out.push(cur);
        proof {
            let ps = spec_split(s@, '\n');
            assert(out.deep_view() =~= spec_lines(s@));
        }
    } else {
        proof {
            let ps = spec_split(s@, '\n');
            assert(out.deep_view() =~= spec_lines(s@));
        }
    }
    out
}

/// Whether two string vectors hold the same texts, position by position.
pub fn string_vec_eq(a: &Vec<String>, b: &Vec<String>) -> (r: bool)
    ensures
        r == (a.deep_view() == b.deep_view()),
{
    if a.len() != b.len() {
        assert(a.deep_view().len() == a@.len());
        assert(b.deep_view().len() == b@.len());
        return false;
    }
    let mut i: usize = 0;
    while i < a.len()
        invariant
            a@.len() == b@.len(),
            i <= a@.len(),
            forall|j: int| 0 <= j < i ==> a.deep_view()[j] == b.deep_view()[j],
        decreases a@.len() - i,
    {
        if !str_eq(a[i].as_str(), b[i].as_str()) {
            assert(a.deep_view()[i as int] != b.deep_view()[i as int]);
            return false;
        }
        i = i + 1;
    }
    assert(a.deep_view() =~= b.deep_view());
    true
}

/// Whether two strings hold the same characters.
pub fn str_eq(a: &str, b: &str) -> (r: bool)
    ensures
        r == (a@ == b@),
{
    let a_len = a.unicode_len();
    let b_len = b.unicode_len();
    if a_len != b_len {
        return false;
    }
    let mut i: usize = 0;
    while i < a_len
        invariant
            a_len == a@.len(),
            b_len == b@.len(),
            a_len == b_len,
            i <= a_len,
            forall|j: int| 0 <= j < i ==> a@[j] == b@[j],
        decreases a_len - i,
    {
        if a.get_char(i) != b.get_char(i) {
            return false;
        }
        i = i + 1;
    }
    assert(a@ =~= b@);
    true
}

/// The character for the decimal digit `d`.
pub open spec fn spec_digit(d: int) -> char {
    ((d + 48) as u8) as char
}

/// The decimal digits of a non-negative number, most significant first.
pub open spec fn spec_decimal(n: int) -> Seq<char>
    decreases n,
{
    if n < 0 {
        Seq::empty()
    } else if n < 10 {
        seq![spec_digit(n)]
    } else {
        spec_decimal(n / 10).push(spec_digit(n % 10))
    }
}

/// Appends the decimal rendering of `m` to `out`.
pub fn push_decimal(out: &mut String, m: u64)
    ensures
        final(out)@ == old(out)@ + spec_decimal(m as int),
    decreases m,
{
    if m < 10 {
        out.push((48 + m as u8) as char);
        assert(old(out)@.push(spec_digit(m as int)) =~= old(out)@ + spec_decimal(m as int));
    } else {
        push_decimal(out, m / 10);
        out.push((48 + (m % 10) as u8) as char);
        assert((old(out)@ + spec_decimal(m as int / 10)).push(spec_digit(m as int % 10)) =~= old(
            out,
        )@ + spec_decimal(m as int));
    }
}

} // verus!
