//! Text helpers on characters: whitespace, trimming, words, lines, decimal
//! numbers and substring search.
use vstd::prelude::*;
use vstd::string::*;

verus! {

/// A character of Unicode's White_Space property.
pub open spec fn is_white(c: char) -> bool {
    let u = c as u32;
    (9 <= u && u <= 13) || u == 32 || u == 0x85 || u == 0xa0 || u == 0x1680 || (0x2000 <= u && u
        <= 0x200a) || u == 0x2028 || u == 0x2029 || u == 0x202f || u == 0x205f || u == 0x3000
}

pub fn white(c: char) -> (r: bool)
    ensures
        r == is_white(c),
{
    let u = c as u32;
    (9 <= u && u <= 13) || u == 32 || u == 0x85 || u == 0xa0 || u == 0x1680 || (0x2000 <= u && u
        <= 0x200a) || u == 0x2028 || u == 0x2029 || u == 0x202f || u == 0x205f || u == 0x3000
}

/// The first index from `i` on that holds no whitespace, or the length.
pub open spec fn skip_white(s: Seq<char>, i: int) -> int
    decreases s.len() - i,
{
    if 0 <= i < s.len() && is_white(s[i]) {
        skip_white(s, i + 1)
    } else {
        i
    }
}

/// The first index from `i` on that holds whitespace, or the length.
pub open spec fn skip_word(s: Seq<char>, i: int) -> int
    decreases s.len() - i,
{
    if 0 <= i < s.len() && !is_white(s[i]) {
        skip_word(s, i + 1)
    } else {
        i
    }
}

/// The index after the last character before `j` and from `lo` on that is
/// not whitespace, or `lo`.
pub open spec fn back_white(s: Seq<char>, lo: int, j: int) -> int
    decreases j - lo,
{
    if lo < j && j <= s.len() && is_white(s[j - 1]) {
        back_white(s, lo, j - 1)
    } else {
        j
    }
}

/// `s` without leading and trailing whitespace.
pub open spec fn trim(s: Seq<char>) -> Seq<char> {
    let a = skip_white(s, 0);
    s.subrange(a, back_white(s, a, s.len() as int))
}

/// The second whitespace-separated word of `s`, or nothing.
pub open spec fn second_word(s: Seq<char>) -> Seq<char> {
    let c = skip_white(s, skip_word(s, skip_white(s, 0)));
    s.subrange(c, skip_word(s, c))
}

fn skip_white_from(s: &str, n: usize, i: usize) -> (r: usize)
    requires
        n == s@.len(),
        i <= n,
    ensures
        r as int == skip_white(s@, i as int),
        i <= r <= n,
{
    let mut k: usize = i;
    while k < n && white(s.get_char(k))
        invariant
            n == s@.len(),
            i <= k <= n,
            skip_white(s@, k as int) == skip_white(s@, i as int),
        decreases n - k,
    {
        k = k + 1;
    }
    k
}

fn skip_word_from(s: &str, n: usize, i: usize) -> (r: usize)
    requires
        n == s@.len(),
        i <= n,
    ensures
        r as int == skip_word(s@, i as int),
        i <= r <= n,
{
    let mut k: usize = i;
    while k < n && !white(s.get_char(k))
        invariant
            n == s@.len(),
            i <= k <= n,
            skip_word(s@, k as int) == skip_word(s@, i as int),
        decreases n - k,
    {
        k = k + 1;
    }
    k
}

/// `s` without leading and trailing whitespace.
pub fn trimmed(s: &str) -> (r: String)
    ensures
        r@ == trim(s@),
{
    let n = s.unicode_len();
    let a = skip_white_from(s, n, 0);
    let mut j: usize = n;
    while a < j && white(s.get_char(j - 1))
        invariant
            n == s@.len(),
            a <= j <= n,
            a as int == skip_white(s@, 0),
            back_white(s@, a as int, j as int) == back_white(s@, a as int, n as int),
        decreases j - a,
    {
        j = j - 1;
    }
    s.substring_char(a, j).to_owned()
}

/// The second whitespace-separated word of `s`, or the empty string.
pub fn second_word_of(s: &str) -> (r: String)
    ensures
        r@ == second_word(s@),
{
    let n = s.unicode_len();
    let a = skip_white_from(s, n, 0);
    let b = skip_word_from(s, n, a);
    let c = skip_white_from(s, n, b);
    let d = skip_word_from(s, n, c);
    s.substring_char(c, d).to_owned()
}

/// `s` begins with `p`.
pub open spec fn starts_with(s: Seq<char>, p: Seq<char>) -> bool {
    p.len() <= s.len() && s.subrange(0, p.len() as int) == p
}

pub fn begins_with(s: &str, p: &str) -> (r: bool)
    ensures
        r == starts_with(s@, p@),
{
    let n = s.unicode_len();
    let m = p.unicode_len();
    if m > n {
        return false;
    }
    let mut i: usize = 0;
    while i < m
        invariant
            n == s@.len(),
            m == p@.len(),
            m <= n,
            i <= m,
            forall|k: int| 0 <= k < i ==> s@[k] == p@[k],
        decreases m - i,
    {
        if s.get_char(i) != p.get_char(i) {
            assert(s@.subrange(0, m as int)[i as int] != p@[i as int]);
            return false;
        }
        i = i + 1;
    }
    assert(s@.subrange(0, m as int) =~= p@);
    true
}

/// `p` occurs in `s`.
pub open spec fn has_part(s: Seq<char>, p: Seq<char>) -> bool {
    exists|i: int| 0 <= i && i + p.len() <= s.len() && #[trigger] s.subrange(i, i + p.len()) == p
}

pub fn contains_part(s: &str, p: &str) -> (r: bool)
    ensures
        r == has_part(s@, p@),
{
    let n = s.unicode_len();
    let m = p.unicode_len();
    if m > n {
        return false;
    }
    if m == 0 {
        assert(s@.subrange(0int, 0int + p@.len()) =~= p@);
        return true;
    }
    let mut i: usize = 0;
    while i <= n - m
        invariant
            n == s@.len(),
            m == p@.len(),
            0 < m <= n,
            i <= n - m + 1,
            forall|k: int| 0 <= k < i ==> #[trigger] s@.subrange(k, k + m) != p@,
        decreases n + 1 - i,
    {
        if begins_with(s.substring_char(i, n), p) {
            assert(s@.subrange(i as int, n as int).subrange(0, m as int) =~= s@.subrange(
                i as int,
                i + m,
            ));
            return true;
        }
        assert(s@.subrange(i as int, n as int).subrange(0, m as int) =~= s@.subrange(
            i as int,
            i + m,
        ));
        i = i + 1;
    }
    false
}

/// The pieces of `s` between newline characters; an empty text is one
/// empty piece.
pub open spec fn split_lines(s: Seq<char>) -> Seq<Seq<char>>
    decreases s.len(),
{
    if s.len() == 0 {
        seq![seq![]]
    } else if s.last() == '\n' {
        split_lines(s.drop_last()).push(seq![])
    } else {
        let p = split_lines(s.drop_last());
        p.update(p.len() - 1, p.last().push(s.last()))
    }
}

/// The lines of a report: the text is trimmed, split at newlines, and each
/// line trimmed in turn.
pub open spec fn report_lines(s: Seq<char>) -> Seq<Seq<char>> {
    split_lines(trim(s)).map_values(|l: Seq<char>| trim(l))
}

/// Splits a report into its trimmed lines.
pub fn lines_of(s: &str) -> (r: Vec<String>)
    ensures
        r@.len() == report_lines(s@).len(),
        forall|i: int| 0 <= i < r@.len() ==> (#[trigger] r@[i])@ == report_lines(s@)[i],
{
    let t = trimmed(s);
    let t = t.as_str();
    let n = t.unicode_len();
    let mut out: Vec<String> = Vec::new();
    let ghost mut pieces: Seq<Seq<char>> = seq![];
    let mut st: usize = 0;
    let mut i: usize = 0;
    assert(t@.subrange(0, 0) =~= seq![]);
    assert(pieces.push(t@.subrange(0, 0)) =~= seq![seq![]]);
    while i < n
        invariant
            n == t@.len(),
            st <= i <= n,
            split_lines(t@.subrange(0, i as int)) == pieces.push(t@.subrange(st as int, i as int)),
            out@.len() == pieces.len(),
            forall|k: int| 0 <= k < out@.len() ==> (#[trigger] out@[k])@ == trim(pieces[k]),
        decreases n - i,
    {
        let c = t.get_char(i);
        assert(t@.subrange(0, i + 1).drop_last() =~= t@.subrange(0, i as int));
        if c == '\n' {
            let line = trimmed(t.substring_char(st, i));
            proof {
                pieces = pieces.push(t@.subrange(st as int, i as int));
            }
            out.push(line);
            st = i + 1;
            assert(t@.subrange(st as int, st as int) =~= seq![]);
        } else {
            assert(t@.subrange(st as int, i + 1) =~= t@.subrange(st as int, i as int).push(c));
        }
        i = i + 1;
    }
    let line = trimmed(t.substring_char(st, n));
    proof {
        pieces = pieces.push(t@.subrange(st as int, n as int));
    }
    out.push(line);
    assert(t@.subrange(0, n as int) =~= t@);
    out
}

} // verus!
