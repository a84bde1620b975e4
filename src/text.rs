//! Plain-text helpers over character sequences: lines, trimming, searching.
use vstd::prelude::*;

verus! {

/// Unicode's White_Space characters.
pub open spec fn is_whitespace(c: char) -> bool {
    let v = c as u32;
    (0x9 <= v && v <= 0xd) || v == 0x20 || v == 0x85 || v == 0xa0 || v == 0x1680 || (0x2000 <= v
        && v <= 0x200a) || v == 0x2028 || v == 0x2029 || v == 0x202f || v == 0x205f || v == 0x3000
}

/// Whether `c` is removed at the edges: a double quote when `quotes`, else whitespace.
pub open spec fn is_edge(c: char, quotes: bool) -> bool {
    if quotes {
        c == '"'
    } else {
        is_whitespace(c)
    }
}

/// Where the text from `i` on starts once edge characters are dropped from its front.
pub open spec fn kept_start(s: Seq<char>, quotes: bool, i: int) -> int
    decreases s.len() - i,
{
    if 0 <= i < s.len() && is_edge(s[i], quotes) {
        kept_start(s, quotes, i + 1)
    } else {
        i
    }
}

/// Where the text `s[lo..j]` ends once edge characters are dropped from its back.
pub open spec fn kept_end(s: Seq<char>, quotes: bool, lo: int, j: int) -> int
    decreases j - lo,
{
    if lo < j <= s.len() && is_edge(s[j - 1], quotes) {
        kept_end(s, quotes, lo, j - 1)
    } else {
        j
    }
}

/// `s` without its leading and trailing edge characters.
pub open spec fn strip(s: Seq<char>, quotes: bool) -> Seq<char> {
    let lo = kept_start(s, quotes, 0);
    s.subrange(lo, kept_end(s, quotes, lo, s.len() as int))
}

/// `s` without leading and trailing whitespace.
pub open spec fn trimmed(s: Seq<char>) -> Seq<char> {
    strip(s, false)
}

/// `s` without leading and trailing double quotes.
pub open spec fn unquoted(s: Seq<char>) -> Seq<char> {
    strip(s, true)
}

/// `l` without one final carriage return.
pub open spec fn strip_cr(l: Seq<char>) -> Seq<char> {
    if l.len() > 0 && l.last() == '\r' {
        l.drop_last()
    } else {
        l
    }
}

/// The pieces of `s` between line feeds. A piece that a line feed ends loses
/// one carriage return before it; the last piece is what follows the last line feed.
pub open spec fn pieces(s: Seq<char>) -> Seq<Seq<char>>
    decreases s.len(),
{
    if s.len() == 0 {
        seq![Seq::empty()]
    } else {
        let p = pieces(s.drop_last());
        if s.last() == '\n' {
            p.update(p.len() - 1, strip_cr(p.last())).push(Seq::empty())
        } else {
            p.update(p.len() - 1, p.last().push(s.last()))
        }
    }
}

/// The lines of `s`: the final line ending is optional, and an empty text has no lines.
pub open spec fn lines_of(s: Seq<char>) -> Seq<Seq<char>> {
    let p = pieces(s);
    if p.last().len() == 0 {
        p.drop_last()
    } else {
        p
    }
}

/// The texts of a sequence of strings.
pub open spec fn texts(v: Seq<String>) -> Seq<Seq<char>> {
    v.map_values(|l: String| l@)
}

/// Whether `pat` occurs in `s`.
pub open spec fn contains(s: Seq<char>, pat: Seq<char>) -> bool {
    exists|i: int| 0 <= i && i + pat.len() <= s.len() && #[trigger] s.subrange(i, i + pat.len()) == pat
}

/// Whether `s` begins with `pat`.
pub open spec fn starts_with(s: Seq<char>, pat: Seq<char>) -> bool {
    pat.len() <= s.len() && s.subrange(0, pat.len() as int) == pat
}

/// Index of the first `c` in `s` at or after `i`, or the length of `s` where there is none.
pub open spec fn find_from(s: Seq<char>, c: char, i: int) -> int
    decreases s.len() - i,
{
    if 0 <= i < s.len() {
        if s[i] == c {
            i
        } else {
            find_from(s, c, i + 1)
        }
    } else {
        s.len() as int
    }
}

/// What follows the first `c` in `s`; empty where `s` holds no `c`.
pub open spec fn after_first(s: Seq<char>, c: char) -> Seq<char> {
    let k = find_from(s, c, 0);
    if k < s.len() {
        s.subrange(k + 1, s.len() as int)
    } else {
        Seq::empty()
    }
}

/// Whether `c` is a whitespace character.
pub fn is_whitespace_char(c: char) -> (r: bool)
    ensures
        r == is_whitespace(c),
{
    let v = c as u32;
    (0x9 <= v && v <= 0xd) || v == 0x20 || v == 0x85 || v == 0xa0 || v == 0x1680 || (0x2000 <= v
        && v <= 0x200a) || v == 0x2028 || v == 0x2029 || v == 0x202f || v == 0x205f || v == 0x3000
}

fn is_edge_char(c: char, quotes: bool) -> (r: bool)
    ensures
        r == is_edge(c, quotes),
{
    if quotes {
        c == '"'
    } else {
        is_whitespace_char(c)
    }
}

/// `s` without leading and trailing edge characters.
pub fn strip_edges(s: &str, quotes: bool) -> (r: String)
    ensures
        r@ == strip(s@, quotes),
{
    let n = s.unicode_len();
    let mut lo: usize = 0;
    while lo < n
        invariant
            n == s@.len(),
            lo <= n,
            kept_start(s@, quotes, lo as int) == kept_start(s@, quotes, 0),
        ensures
            lo <= n,
            kept_start(s@, quotes, 0) == lo,
        decreases n - lo,
    {
        if !is_edge_char(s.get_char(lo), quotes) {
            assert(kept_start(s@, quotes, lo as int) == lo);
            break;
        }
        lo = lo + 1;
    }
    let mut hi: usize = n;
    while hi > lo
        invariant
            n == s@.len(),
            lo <= hi <= n,
            kept_start(s@, quotes, 0) == lo,
            kept_end(s@, quotes, lo as int, hi as int) == kept_end(s@, quotes, lo as int, n as int),
        ensures
            lo <= hi <= n,
            kept_end(s@, quotes, lo as int, n as int) == hi,
        decreases hi - lo,
    {
        if !is_edge_char(s.get_char(hi - 1), quotes) {
            assert(kept_end(s@, quotes, lo as int, hi as int) == hi);
            break;
        }
        hi = hi - 1;
    }
    String::from_str(s.substring_char(lo, hi))
}

/// `s` without leading and trailing whitespace.
pub fn trim(s: &str) -> (r: String)
    ensures
        r@ == trimmed(s@),
{
    strip_edges(s, false)
}

/// `s` without leading and trailing double quotes.
pub fn trim_quotes(s: &str) -> (r: String)
    ensures
        r@ == unquoted(s@),
{
    strip_edges(s, true)
}

/// The lines of `s`.
pub fn split_lines(s: &str) -> (r: Vec<String>)
    ensures
        texts(r@) == lines_of(s@),
{
    let n = s.unicode_len();
    let mut lines: Vec<String> = Vec::new();
    let mut start: usize = 0;
    let mut i: usize = 0;
    assert(s@.take(0) =~= Seq::<char>::empty());
    assert(texts(lines@) =~= Seq::<Seq<char>>::empty());
    assert(s@.subrange(0, 0) =~= Seq::<char>::empty());
    while i < n
        invariant
            n == s@.len(),
            start <= i <= n,
            pieces(s@.take(i as int)) == texts(lines@).push(s@.subrange(start as int, i as int)),
        decreases n - i,
    {
        let c = s.get_char(i);
        let ghost done = texts(lines@);
        let ghost cur = s@.subrange(start as int, i as int);
        assert(s@.take(i + 1).drop_last() =~= s@.take(i as int));
        assert(s@.take(i + 1).last() == c);
        if c == '\n' {
            let end: usize = if i > start && s.get_char(i - 1) == '\r' {
                i - 1
            } else {
                i
            };
            let line = String::from_str(s.substring_char(start, end));
            assert(strip_cr(cur) =~= line@);
            assert(texts(lines@.push(line)) =~= done.push(line@));
            lines.push(line);
            start = i + 1;
            assert(s@.subrange(start as int, i + 1) =~= Seq::<char>::empty());
            assert(pieces(s@.take(i + 1)) =~= texts(lines@).push(
                s@.subrange(start as int, i + 1),
            ));
        } else {
            assert(cur.push(c) =~= s@.subrange(start as int, i + 1));
            assert(pieces(s@.take(i + 1)) =~= texts(lines@).push(
                s@.subrange(start as int, i + 1),
            ));
        }
        i = i + 1;
    }
    assert(s@.take(n as int) =~= s@);
    if start < n {
        let line = String::from_str(s.substring_char(start, n));
        assert(texts(lines@.push(line)) =~= texts(lines@).push(line@));
        lines.push(line);
    } else {
        assert(texts(lines@) =~= texts(lines@).push(Seq::empty()).drop_last());
    }
    lines
}

/// Whether `pat` occurs in `s`.
pub fn contains_str(s: &str, pat: &str) -> (r: bool)
    ensures
        r == contains(s@, pat@),
{
    let n = s.unicode_len();
    let m = pat.unicode_len();
    if m > n {
        return false;
    }
    let mut i: usize = 0;
    while i <= n - m
        invariant
            n == s@.len(),
            m == pat@.len(),
            m <= n,
            i <= n - m + 1,
            forall|k: int| 0 <= k < i ==> #[trigger] s@.subrange(k, k + m) != pat@,
        decreases n - i,
    {
        let mut j: usize = 0;
        while j < m
            invariant
                n == s@.len(),
                m == pat@.len(),
                i + m <= n,
                j <= m,
                forall|k: int| 0 <= k < j ==> s@[i + k] == pat@[k],
            ensures
                j <= m,
                forall|k: int| 0 <= k < j ==> s@[i + k] == pat@[k],
                j < m ==> s@[i + j] != pat@[j as int],
            decreases m - j,
        {
            if s.get_char(i + j) != pat.get_char(j) {
                break;
            }
            j = j + 1;
        }
        if j == m {
            assert(s@.subrange(i as int, i + m) =~= pat@);
            return true;
        }
        assert(s@.subrange(i as int, i + m)[j as int] != pat@[j as int]);
        i = i + 1;
    }
    assert forall|k: int| 0 <= k && k + m <= n implies #[trigger] s@.subrange(k, k + m) != pat@ by {
        assert(k < i);
    }
    false
}

/// Whether `s` begins with `pat`.
pub fn starts_with_str(s: &str, pat: &str) -> (r: bool)
    ensures
        r == starts_with(s@, pat@),
{
    let n = s.unicode_len();
    let m = pat.unicode_len();
    if m > n {
        return false;
    }
    let mut j: usize = 0;
    while j < m
        invariant
            n == s@.len(),
            m == pat@.len(),
            m <= n,
            j <= m,
            forall|k: int| 0 <= k < j ==> s@[k] == pat@[k],
        decreases m - j,
    {
        if s.get_char(j) != pat.get_char(j) {
            assert(s@.subrange(0, m as int)[j as int] != pat@[j as int]);
            return false;
        }
        j = j + 1;
    }
    assert(s@.subrange(0, m as int) =~= pat@);
    true
}

/// What follows the first `c` in `s`, or an empty string where there is none.
pub fn after_first_char(s: &str, c: char) -> (r: String)
    ensures
        r@ == after_first(s@, c),
{
    let n = s.unicode_len();
    let mut k: usize = 0;
    while k < n
        invariant
            n == s@.len(),
            k <= n,
            find_from(s@, c, k as int) == find_from(s@, c, 0),
        decreases n - k,
    {
        if s.get_char(k) == c {
            return String::from_str(s.substring_char(k + 1, n));
        }
        k = k + 1;
    }
    String::new()
}

/// Whether `a` and `b` hold the same characters.
pub fn same_text(a: &str, b: &str) -> (r: bool)
    ensures
        r == (a@ == b@),
{
    if a.unicode_len() != b.unicode_len() {
        return false;
    }
    let r = starts_with_str(a, b);
    assert(a@.subrange(0, b@.len() as int) =~= a@);
    r
}

} // verus!
