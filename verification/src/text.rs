//! Verified text primitives: character classification, string comparison,
//! prefix tests, trimming, whitespace tokenization and separator splitting.

use vstd::prelude::*;
use vstd::string::*;

verus! {

/// A whitespace character, for trimming an input line and for splitting it
/// into tokens.
pub open spec fn is_space_char(c: char) -> bool {
    c == ' ' || c == '\t' || c == '\n' || c == '\r'
}

/// Executable test matching `is_space_char`.
pub fn is_space(c: char) -> (r: bool)
    ensures
        r == is_space_char(c),
{
    c == ' ' || c == '\t' || c == '\n' || c == '\r'
}

/// Character-wise string equality.
pub fn str_eq(a: &str, b: &str) -> (r: bool)
    ensures
        r == (a@ == b@),
{
    let alen = a.unicode_len();
    let blen = b.unicode_len();
    if alen != blen {
        return false;
    }
    let mut i: usize = 0;
    while i < alen
        invariant
            alen == a@.len(),
            alen == b@.len(),
            i <= alen,
            forall|j: int| 0 <= j < i ==> a@[j] == b@[j],
        decreases alen - i,
    {
        if a.get_char(i) != b.get_char(i) {
            return false;
        }
        i = i + 1;
    }
    proof {
        assert(a@ =~= b@);
    }
    true
}

/// `p` is an initial segment of `l`.
pub open spec fn starts_with(l: Seq<char>, p: Seq<char>) -> bool {
    p.len() <= l.len() && l.subrange(0, p.len() as int) == p
}

/// Executable prefix test matching `starts_with`.
pub fn str_starts_with(s: &str, p: &str) -> (r: bool)
    ensures
        r == starts_with(s@, p@),
{
    let slen = s.unicode_len();
    let plen = p.unicode_len();
    if plen > slen {
        return false;
    }
    let mut i: usize = 0;
    while i < plen
        invariant
            slen == s@.len(),
            plen == p@.len(),
            plen <= slen,
            i <= plen,
            forall|j: int| 0 <= j < i ==> s@[j] == p@[j],
        decreases plen - i,
    {
        if s.get_char(i) != p.get_char(i) {
            return false;
        }
        i = i + 1;
    }
    proof {
        assert(s@.subrange(0, p@.len() as int) =~= p@);
    }
    true
}

/// The characters of `s` from position `k` on, as an owned string.
pub fn str_skip(s: &str, k: usize) -> (r: String)
    requires
        k <= s@.len(),
    ensures
        r@ == s@.skip(k as int),
{
    let n = s.unicode_len();
    let r = s.substring_char(k, n).to_owned();
    proof {
        assert(s@.subrange(k as int, n as int) =~= s@.skip(k as int));
    }
    r
}

/// `l` with its leading whitespace removed.
pub open spec fn trim_start_spec(l: Seq<char>) -> Seq<char>
    decreases l.len(),
{
    if l.len() > 0 && is_space_char(l[0]) {
        trim_start_spec(l.skip(1))
    } else {
        l
    }
}

/// `l` with its trailing whitespace removed.
pub open spec fn trim_end_spec(l: Seq<char>) -> Seq<char>
    decreases l.len(),
{
    if l.len() > 0 && is_space_char(l[l.len() - 1]) {
        trim_end_spec(l.take(l.len() - 1))
    } else {
        l
    }
}

/// `l` with leading and trailing whitespace removed.
pub open spec fn trim_spec(l: Seq<char>) -> Seq<char> {
    trim_end_spec(trim_start_spec(l))
}

/// Removes leading and trailing whitespace, as an owned string.
pub fn trim(s: &str) -> (r: String)
    ensures
        r@ == trim_spec(s@),
{
    let n = s.unicode_len();
    proof {
        assert(s@.skip(0) =~= s@);
    }
    let mut a: usize = 0;
    while a < n && is_space(s.get_char(a))
        invariant
            n == s@.len(),
            a <= n,
            trim_start_spec(s@) == trim_start_spec(s@.skip(a as int)),
        decreases n - a,
    {
        proof {
            assert(s@.skip(a as int).skip(1) =~= s@.skip(a + 1 as int));
        }
        a = a + 1;
    }
    proof {
        assert(trim_start_spec(s@) == s@.skip(a as int));
        assert(s@.skip(a as int) =~= s@.subrange(a as int, n as int));
    }
    let mut b: usize = n;
    while b > a && is_space(s.get_char(b - 1))
        invariant
            n == s@.len(),
            a <= b <= n,
            trim_start_spec(s@) == s@.subrange(a as int, n as int),
            trim_end_spec(s@.subrange(a as int, n as int)) == trim_end_spec(
                s@.subrange(a as int, b as int),
            ),
        decreases b - a,
    {
        proof {
            let cur = s@.subrange(a as int, b as int);
            assert(cur[cur.len() - 1] == s@[b - 1]);
            assert(cur.take(cur.len() - 1) =~= s@.subrange(a as int, b - 1 as int));
        }
        b = b - 1;
    }
    let r = s.substring_char(a, b).to_owned();
    proof {
        let cur = s@.subrange(a as int, b as int);
        if b > a {
            assert(!is_space_char(cur[cur.len() - 1]));
        }
        assert(trim_end_spec(cur) == cur);
    }
    r
}

/// One left-to-right pass of whitespace tokenization: the complete tokens
/// seen so far, and the partial token in progress.
pub open spec fn scan_tokens(l: Seq<char>) -> (Seq<Seq<char>>, Seq<char>)
    decreases l.len(),
{
    if l.len() == 0 {
        (Seq::empty(), Seq::empty())
    } else {
        let p = scan_tokens(l.drop_last());
        let c = l.last();
        if is_space_char(c) {
            if p.1.len() == 0 {
                (p.0, Seq::empty())
            } else {
                (p.0.push(p.1), Seq::empty())
            }
        } else {
            (p.0, p.1.push(c))
        }
    }
}

/// The whitespace-delimited tokens of `l`, in order. Runs of whitespace
/// collapse; empty tokens never appear.
pub open spec fn tokens(l: Seq<char>) -> Seq<Seq<char>> {
    let p = scan_tokens(l);
    if p.1.len() == 0 {
        p.0
    } else {
        p.0.push(p.1)
    }
}

/// Unfolds `scan_tokens` by one character.
proof fn lemma_scan_tokens_step(l: Seq<char>, i: int)
    requires
        0 <= i < l.len(),
    ensures
        scan_tokens(l.take(i + 1)) == ({
            let p = scan_tokens(l.take(i));
            if is_space_char(l[i]) {
                if p.1.len() == 0 {
                    (p.0, Seq::<char>::empty())
                } else {
                    (p.0.push(p.1), Seq::<char>::empty())
                }
            } else {
                (p.0, p.1.push(l[i]))
            }
        }),
{
    assert(l.take(i + 1).drop_last() =~= l.take(i));
    assert(l.take(i + 1).last() == l[i]);
}

/// Splits on whitespace: the result lists exactly the tokens of `s`.
pub fn tokenize(s: &str) -> (r: Vec<String>)
    ensures
        r@.len() == tokens(s@).len(),
        forall|j: int| 0 <= j < r@.len() ==> r@[j]@ == tokens(s@)[j],
{
    let n = s.unicode_len();
    let mut out: Vec<String> = Vec::new();
    let mut i: usize = 0;
    while i < n
        invariant
            n == s@.len(),
            i <= n,
            scan_tokens(s@.take(i as int)).1.len() == 0 || i == n,
            out@.len() == tokens(s@.take(i as int)).len(),
            forall|j: int| 0 <= j < out@.len() ==> out@[j]@ == tokens(s@.take(i as int))[j],
        decreases n - i,
    {
        let c = s.get_char(i);
        if is_space(c) {
            proof {
                lemma_scan_tokens_step(s@, i as int);
            }
            i = i + 1;
        } else {
            let start = i;
            proof {
                lemma_scan_tokens_step(s@, i as int);
                assert(scan_tokens(s@.take(i + 1 as int)).1 =~= s@.subrange(
                    start as int,
                    i + 1 as int,
                ));
            }
            i = i + 1;
            while i < n && !is_space(s.get_char(i))
                invariant
                    n == s@.len(),
                    start < i <= n,
                    scan_tokens(s@.take(i as int)).0 == scan_tokens(s@.take(start as int)).0,
                    scan_tokens(s@.take(i as int)).1 == s@.subrange(start as int, i as int),
                decreases n - i,
            {
                proof {
                    lemma_scan_tokens_step(s@, i as int);
                    assert(s@.subrange(start as int, i as int).push(s@[i as int]) =~= s@.subrange(
                        start as int,
                        i + 1 as int,
                    ));
                }
                i = i + 1;
            }
            let tok = s.substring_char(start, i).to_owned();
            out.push(tok);
            if i < n {
                proof {
                    lemma_scan_tokens_step(s@, i as int);
                }
                i = i + 1;
            }
        }
    }
    proof {
        assert(s@.take(n as int) =~= s@);
    }
    out
}

/// One left-to-right pass of splitting on a separator: the complete segments
/// so far, and the segment in progress. Empty segments are kept.
pub open spec fn scan_split(l: Seq<char>, sep: char) -> (Seq<Seq<char>>, Seq<char>)
    decreases l.len(),
{
    if l.len() == 0 {
        (Seq::empty(), Seq::empty())
    } else {
        let p = scan_split(l.drop_last(), sep);
        if l.last() == sep {
            (p.0.push(p.1), Seq::empty())
        } else {
            (p.0, p.1.push(l.last()))
        }
    }
}

/// The segments of `l` split on `sep`, keeping empty segments; an empty `l`
/// has no segments at all.
pub open spec fn split_spec(l: Seq<char>, sep: char) -> Seq<Seq<char>> {
    if l.len() == 0 {
        Seq::empty()
    } else {
        let p = scan_split(l, sep);
        p.0.push(p.1)
    }
}

/// Unfolds `scan_split` by one character.
proof fn lemma_scan_split_step(l: Seq<char>, sep: char, i: int)
    requires
        0 <= i < l.len(),
    ensures
        scan_split(l.take(i + 1), sep) == ({
            let p = scan_split(l.take(i), sep);
            if l[i] == sep {
                (p.0.push(p.1), Seq::<char>::empty())
            } else {
                (p.0, p.1.push(l[i]))
            }
        }),
{
    assert(l.take(i + 1).drop_last() =~= l.take(i));
    assert(l.take(i + 1).last() == l[i]);
}

/// Splits on a separator character, keeping empty segments; an empty input
/// yields no segments.
pub fn split_on(s: &str, sep: char) -> (r: Vec<String>)
    ensures
        r@.len() == split_spec(s@, sep).len(),
        forall|j: int| 0 <= j < r@.len() ==> r@[j]@ == split_spec(s@, sep)[j],
{
    let n = s.unicode_len();
    let mut out: Vec<String> = Vec::new();
    if n == 0 {
        return out;
    }
    let mut start: usize = 0;
    let mut i: usize = 0;
    while i < n
        invariant
            n == s@.len(),
            n > 0,
            start <= i <= n,
            out@.len() == scan_split(s@.take(i as int), sep).0.len(),
            forall|j: int|
                0 <= j < out@.len() ==> out@[j]@ == scan_split(s@.take(i as int), sep).0[j],
            scan_split(s@.take(i as int), sep).1 == s@.subrange(start as int, i as int),
        decreases n - i,
    {
        proof {
            lemma_scan_split_step(s@, sep, i as int);
        }
        if s.get_char(i) == sep {
            let seg = s.substring_char(start, i).to_owned();
            out.push(seg);
            i = i + 1;
            start = i;
            proof {
                assert(scan_split(s@.take(i as int), sep).1 =~= s@.subrange(
                    start as int,
                    i as int,
                ));
            }
        } else {
            proof {
                assert(s@.subrange(start as int, i as int).push(s@[i as int]) =~= s@.subrange(
                    start as int,
                    i + 1 as int,
                ));
            }
            i = i + 1;
        }
    }
    let last = s.substring_char(start, n).to_owned();
    out.push(last);
    proof {
        assert(s@.take(n as int) =~= s@);
    }
    out
}

} // verus!
