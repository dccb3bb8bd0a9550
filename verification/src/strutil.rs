//! Small verified helpers over `&str` and `String`.

use vstd::prelude::*;
use vstd::string::StrSliceExecFns;
use vstd::string::StringExecFns;

verus! {

/// `p` is a prefix of `s`.
pub open spec fn is_prefix_of(p: Seq<char>, s: Seq<char>) -> bool {
    p.len() <= s.len() && s.subrange(0, p.len() as int) == p
}

/// `p` is a suffix of `s`.
pub open spec fn is_suffix_of(p: Seq<char>, s: Seq<char>) -> bool {
    p.len() <= s.len() && s.subrange(s.len() - p.len(), s.len() as int) == p
}

/// Character-for-character equality of two string slices.
pub fn str_eq(a: &str, b: &str) -> (r: bool)
    ensures
        r == (a@ == b@),
{
    let alen = a.unicode_len();
    let blen = b.unicode_len();
    if alen != blen {
        return false;
    }
    let mut i: usize = 0;
    while i < alen
        invariant
            alen == a@.len(),
            alen == b@.len(),
            i <= alen,
            forall|j: int| 0 <= j < i ==> a@[j] == b@[j],
        decreases alen - i,
    {
        if a.get_char(i) != b.get_char(i) {
            return false;
        }
        i += 1;
    }
    proof {
        assert(a@ =~= b@);
    }
    true
}

/// Whether `s` starts with `p`.
pub fn starts_with_str(s: &str, p: &str) -> (r: bool)
    ensures
        r == is_prefix_of(p@, s@),
{
    let plen = p.unicode_len();
    let slen = s.unicode_len();
    if plen > slen {
        return false;
    }
    let mut i: usize = 0;
    while i < plen
        invariant
            plen == p@.len(),
            slen == s@.len(),
            plen <= slen,
            i <= plen,
            forall|j: int| 0 <= j < i ==> s@[j] == p@[j],
        decreases plen - i,
    {
        if s.get_char(i) != p.get_char(i) {
            proof {
                assert(s@.subrange(0, p@.len() as int)[i as int] != p@[i as int]);
            }
            return false;
        }
        i += 1;
    }
    proof {
        assert(s@.subrange(0, p@.len() as int) =~= p@);
    }
    true
}

/// Whether `s` ends with `p`.
pub fn ends_with_str(s: &str, p: &str) -> (r: bool)
    ensures
        r == is_suffix_of(p@, s@),
{
    let plen = p.unicode_len();
    let slen = s.unicode_len();
    if plen > slen {
        return false;
    }
    let off = slen - plen;
    let mut i: usize = 0;
    while i < plen
        invariant
            plen == p@.len(),
            slen == s@.len(),
            plen <= slen,
            off == slen - plen,
            i <= plen,
            forall|j: int| 0 <= j < i ==> s@[off + j] == p@[j],
        decreases plen - i,
    {
        if s.get_char(off + i) != p.get_char(i) {
            proof {
                assert(s@.subrange(s@.len() - p@.len(), s@.len() as int)[i as int] != p@[i as int]);
            }
            return false;
        }
        i += 1;
    }
    proof {
        assert(s@.subrange(s@.len() - p@.len(), s@.len() as int) =~= p@);
    }
    true
}

/// The characters after the last occurrence of `c` in `s`, or `None` when
/// `s` holds no `c`.
pub open spec fn suffix_after_last(s: Seq<char>, c: char) -> Option<Seq<char>>
    decreases s.len(),
{
    if s.len() == 0 {
        None
    } else if s.last() == c {
        Some(Seq::empty())
    } else {
        match suffix_after_last(s.drop_last(), c) {
            Some(t) => Some(t.push(s.last())),
            None => None,
        }
    }
}

pub proof fn lemma_suffix_after_last_some(s: Seq<char>, c: char, i: int)
    requires
        0 <= i < s.len(),
        s[i] == c,
        forall|j: int| i < j < s.len() ==> s[j] != c,
    ensures
        suffix_after_last(s, c) == Some(s.subrange(i + 1, s.len() as int)),
    decreases s.len(),
{
    if i == s.len() - 1 {
        assert(s.subrange(i + 1, s.len() as int) =~= Seq::<char>::empty());
    } else {
        let t = s.drop_last();
        lemma_suffix_after_last_some(t, c, i);
        assert(t.subrange(i + 1, t.len() as int).push(s.last()) =~= s.subrange(
            i + 1,
            s.len() as int,
        ));
    }
}

pub proof fn lemma_suffix_after_last_none(s: Seq<char>, c: char)
    requires
        forall|j: int| 0 <= j < s.len() ==> s[j] != c,
    ensures
        suffix_after_last(s, c) is None,
    decreases s.len(),
{
    if s.len() > 0 {
        lemma_suffix_after_last_none(s.drop_last(), c);
    }
}

/// Position of the last occurrence of `c` in `s`, if any.
pub fn rfind_char(s: &str, c: char) -> (r: Option<usize>)
    ensures
        match r {
            Some(i) => i < s@.len() && s@[i as int] == c && (forall|j: int|
                i < j < s@.len() ==> s@[j] != c),
            None => forall|j: int| 0 <= j < s@.len() ==> s@[j] != c,
        },
{
    let n = s.unicode_len();
    let mut i: usize = n;
    while i > 0
        invariant
            n == s@.len(),
            i <= n,
            forall|j: int| i <= j < n ==> s@[j] != c,
        decreases i,
    {
        i -= 1;
        if s.get_char(i) == c {
            return Some(i);
        }
    }
    None
}

/// `a` is an in-order subsequence of `b`: `a`'s elements occur in `b`, in
/// `a`'s order, each matched to a distinct position.
pub open spec fn is_subsequence_of<A>(a: Seq<A>, b: Seq<A>) -> bool
    decreases a.len() + b.len(),
{
    if a.len() == 0 {
        true
    } else if b.len() == 0 {
        false
    } else {
        (a.first() == b.first() && is_subsequence_of(a.drop_first(), b.drop_first()))
            || is_subsequence_of(a, b.drop_first())
    }
}

/// Appending the same element to both sides preserves the subsequence
/// relation.
pub proof fn lemma_subsequence_push_both<A>(a: Seq<A>, b: Seq<A>, x: A)
    requires
        is_subsequence_of(a, b),
    ensures
        is_subsequence_of(a.push(x), b.push(x)),
    decreases a.len() + b.len(),
{
    if a.len() == 0 {
        lemma_subsequence_single(b, x);
        assert(a.push(x) =~= seq![x]);
    } else {
        assert(a.push(x).first() == a.first());
        assert(b.push(x).first() == b.first());
        assert(a.push(x).drop_first() =~= a.drop_first().push(x));
        assert(b.push(x).drop_first() =~= b.drop_first().push(x));
        if a.first() == b.first() && is_subsequence_of(a.drop_first(), b.drop_first()) {
            lemma_subsequence_push_both(a.drop_first(), b.drop_first(), x);
        } else {
            lemma_subsequence_push_both(a, b.drop_first(), x);
        }
    }
}

/// A single element is a subsequence of any sequence ending in it.
proof fn lemma_subsequence_single<A>(b: Seq<A>, x: A)
    ensures
        is_subsequence_of(seq![x], b.push(x)),
    decreases b.len(),
{
    if b.len() == 0 {
        assert(b.push(x).len() == 1);
        assert(b.push(x).first() == x);
        assert(seq![x].first() == x);
        assert(seq![x].drop_first() =~= Seq::<A>::empty());
        assert(b.push(x).drop_first() =~= Seq::<A>::empty());
        assert(is_subsequence_of(seq![x].drop_first(), b.push(x).drop_first()));
    } else {
        lemma_subsequence_single(b.drop_first(), x);
        assert(b.push(x).drop_first() =~= b.drop_first().push(x));
        assert(is_subsequence_of(seq![x], b.push(x).drop_first()));
    }
}

/// Extending the right side preserves the subsequence relation.
pub proof fn lemma_subsequence_extend_right<A>(a: Seq<A>, b: Seq<A>, x: A)
    requires
        is_subsequence_of(a, b),
    ensures
        is_subsequence_of(a, b.push(x)),
    decreases a.len() + b.len(),
{
    if a.len() == 0 {
    } else {
        assert(b.push(x).first() == b.first());
        assert(b.push(x).drop_first() =~= b.drop_first().push(x));
        if a.first() == b.first() && is_subsequence_of(a.drop_first(), b.drop_first()) {
            lemma_subsequence_extend_right(a.drop_first(), b.drop_first(), x);
        } else {
            lemma_subsequence_extend_right(a, b.drop_first(), x);
        }
    }
}

/// Lines joined with newlines, no trailing newline.
pub open spec fn joined_lines(lines: Seq<Seq<char>>) -> Seq<char>
    decreases lines.len(),
{
    if lines.len() == 0 {
        Seq::empty()
    } else if lines.len() == 1 {
        lines[0]
    } else {
        lines[0] + "\n"@ + joined_lines(lines.drop_first())
    }
}

pub proof fn lemma_joined_lines_push(l: Seq<Seq<char>>, x: Seq<char>)
    ensures
        joined_lines(l.push(x)) == if l.len() == 0 {
            x
        } else {
            joined_lines(l) + "\n"@ + x
        },
    decreases l.len(),
{
    if l.len() == 0 {
        assert(l.push(x).len() == 1);
        assert(l.push(x)[0] == x);
        assert(joined_lines(l.push(x)) == l.push(x)[0]);
    } else if l.len() == 1 {
        assert(l.push(x)[0] == l[0]);
        assert(l.push(x).drop_first() =~= seq![x]);
        assert(joined_lines(seq![x]) == x);
        assert(joined_lines(l.push(x)) == l.push(x)[0] + "\n"@ + joined_lines(
            l.push(x).drop_first(),
        ));
    } else {
        lemma_joined_lines_push(l.drop_first(), x);
        assert(l.push(x)[0] == l[0]);
        assert(l.push(x).drop_first() =~= l.drop_first().push(x));
        assert(joined_lines(l.push(x)) == l.push(x)[0] + "\n"@ + joined_lines(
            l.push(x).drop_first(),
        ));
        assert(joined_lines(l) == l[0] + "\n"@ + joined_lines(l.drop_first()));
        assert((l[0] + "\n"@ + (joined_lines(l.drop_first()) + "\n"@ + x)) =~= ((l[0] + "\n"@
            + joined_lines(l.drop_first())) + "\n"@ + x));
    }
}

/// A joined report begins with its first line.
pub proof fn lemma_joined_lines_first(lines: Seq<Seq<char>>)
    requires
        lines.len() >= 1,
    ensures
        is_prefix_of(lines[0], joined_lines(lines)),
{
    if lines.len() == 1 {
        assert(joined_lines(lines).subrange(0, lines[0].len() as int) =~= lines[0]);
    } else {
        assert(joined_lines(lines) == lines[0] + "\n"@ + joined_lines(lines.drop_first()));
        assert(joined_lines(lines).subrange(0, lines[0].len() as int) =~= lines[0]);
    }
}

/// A joined report ends with its last line.
pub proof fn lemma_joined_lines_last(lines: Seq<Seq<char>>)
    requires
        lines.len() >= 1,
    ensures
        is_suffix_of(lines.last(), joined_lines(lines)),
    decreases lines.len(),
{
    if lines.len() == 1 {
        let s = joined_lines(lines);
        assert(s == lines[0]);
        assert(s.subrange(s.len() - lines.last().len(), s.len() as int) =~= lines.last());
    } else {
        lemma_joined_lines_last(lines.drop_first());
        assert(lines.drop_first().last() == lines.last());
        let p = lines.last();
        let a = lines[0] + "\n"@;
        let b = joined_lines(lines.drop_first());
        let s = joined_lines(lines);
        assert(s =~= a + b);
        assert(s.subrange(s.len() - p.len(), s.len() as int) =~= b.subrange(
            b.len() - p.len(),
            b.len() as int,
        ));
    }
}

/// Join lines with newlines; the empty sequence of lines gives the empty
/// string.
pub fn join_lines(lines: &Vec<String>) -> (r: String)
    ensures
        r@ == joined_lines(lines.deep_view()),
{
    if lines.len() == 0 {
        return String::new();
    }
    let m = lines.len();
    let mut acc = lines[0].clone();
    proof {
        assert(lines.deep_view().take(1) =~= seq![lines.deep_view()[0]]);
    }
    let mut i: usize = 1;
    while i < m
        invariant
            m == lines@.len(),
            1 <= i <= m,
            acc@ == joined_lines(lines.deep_view().take(i as int)),
        decreases m - i,
    {
        acc.append("\n");
        acc.append(lines[i].as_str());
        proof {
            lemma_joined_lines_push(lines.deep_view().take(i as int), lines.deep_view()[i as int]);
            assert(lines.deep_view().take(i + 1) =~= lines.deep_view().take(i as int).push(
                lines.deep_view()[i as int],
            ));
        }
        i += 1;
    }
    proof {
        assert(lines.deep_view().take(m as int) =~= lines.deep_view());
    }
    acc
}

/// An element-for-element copy of a vector of strings.
pub fn clone_string_vec(v: &Vec<String>) -> (r: Vec<String>)
    ensures
        r@ == v@,
{
    let n = v.len();
    let mut out: Vec<String> = Vec::new();
    let mut i: usize = 0;
    while i < n
        invariant
            n == v@.len(),
            i <= n,
            out@ == v@.take(i as int),
        decreases n - i,
    {
        out.push(v[i].clone());
        proof {
            assert(v@.take(i + 1) =~= v@.take(i as int).push(v@[i as int]));
        }
        i += 1;
    }
    proof {
        assert(v@.take(n as int) =~= v@);
    }
    out
}

/// Concatenation of three string slices.
pub fn concat3(a: &str, b: &str, c: &str) -> (r: String)
    ensures
        r@ == a@ + b@ + c@,
{
    let mut s = a.to_owned();
    s.append(b);
    s.append(c);
    s
}

/// `dir` and `name` joined with a path separator.
pub fn join_path(dir: &str, name: &str) -> (r: String)
    ensures
        r@ == dir@ + "/"@ + name@,
{
    concat3(dir, "/", name)
}

} // verus!
