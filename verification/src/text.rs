//! Character-level helpers over string slices.

use vstd::prelude::*;
use vstd::string::*;

verus! {

/// The characters of each string.
pub open spec fn strings_view(strings: Seq<String>) -> Seq<Seq<char>> {
    strings.map_values(|s: String| s@)
}

/// Compares two string slices character by character.
pub fn same_text(a: &str, b: &str) -> (same: bool)
    ensures
        same == (a@ == b@),
{
    let n = a.unicode_len();
    if n != b.unicode_len() {
        return false;
    }
    let mut i: usize = 0;
    while i < n
        invariant
            n == a@.len(),
            n == b@.len(),
            i <= n,
            forall|j: int| 0 <= j < i ==> a@[j] == b@[j],
        decreases n - i,
    {
        if a.get_char(i) != b.get_char(i) {
            return false;
        }
        i += 1;
    }
    assert(a@ =~= b@);
    true
}

/// Unicode `White_Space` characters, the ones `char::is_whitespace` accepts.
pub open spec fn is_white_space(c: char) -> bool {
    ||| '\t' <= c <= '\r'
    ||| c == ' '
    ||| c == '\u{85}'
    ||| c == '\u{a0}'
    ||| c == '\u{1680}'
    ||| '\u{2000}' <= c <= '\u{200a}'
    ||| c == '\u{2028}'
    ||| c == '\u{2029}'
    ||| c == '\u{202f}'
    ||| c == '\u{205f}'
    ||| c == '\u{3000}'
}

pub fn white_space(c: char) -> (w: bool)
    ensures
        w == is_white_space(c),
{
    ('\t' <= c && c <= '\r') || c == ' ' || c == '\u{85}' || c == '\u{a0}' || c == '\u{1680}'
        || ('\u{2000}' <= c && c <= '\u{200a}') || c == '\u{2028}' || c == '\u{2029}'
        || c == '\u{202f}' || c == '\u{205f}' || c == '\u{3000}'
}

/// The characters a trim removes: white space, or double quotes when `quote`.
pub open spec fn trimmed_char(c: char, quote: bool) -> bool {
    if quote { c == '"' } else { is_white_space(c) }
}

pub open spec fn strip_front(s: Seq<char>, quote: bool) -> Seq<char>
    decreases s.len(),
{
    if s.len() > 0 && trimmed_char(s[0], quote) { strip_front(s.drop_first(), quote) } else { s }
}

pub open spec fn strip_back(s: Seq<char>, quote: bool) -> Seq<char>
    decreases s.len(),
{
    if s.len() > 0 && trimmed_char(s.last(), quote) { strip_back(s.drop_last(), quote) } else { s }
}

/// `s` without leading and trailing trimmed characters (`str::trim`, or
/// `str::trim_matches('"')` when `quote`).
pub open spec fn strip(s: Seq<char>, quote: bool) -> Seq<char> {
    strip_back(strip_front(s, quote), quote)
}

pub fn trims(c: char, quote: bool) -> (t: bool)
    ensures
        t == trimmed_char(c, quote),
{
    if quote {
        c == '"'
    } else {
        white_space(c)
    }
}

/// Narrows the character range `lo..hi` of `s` to its trimmed part.
pub fn trim_bounds(s: &str, lo: usize, hi: usize, quote: bool) -> (bounds: (usize, usize))
    requires
        lo <= hi <= s@.len(),
    ensures
        lo <= bounds.0 <= bounds.1 <= hi,
        s@.subrange(bounds.0 as int, bounds.1 as int) == strip(s@.subrange(lo as int, hi as int), quote),
{
    let mut i = lo;
    while i < hi && trims(s.get_char(i), quote)
        invariant
            lo <= i <= hi <= s@.len(),
            strip_front(s@.subrange(lo as int, hi as int), quote) == strip_front(s@.subrange(i as int, hi as int), quote),
        decreases hi - i,
    {
        assert(s@.subrange(i as int, hi as int).drop_first() =~= s@.subrange(i + 1, hi as int));
        i += 1;
    }
    let mut j = hi;
    while j > i && trims(s.get_char(j - 1), quote)
        invariant
            lo <= i <= j <= hi <= s@.len(),
            strip_back(s@.subrange(i as int, hi as int), quote) == strip_back(s@.subrange(i as int, j as int), quote),
        decreases j - i,
    {
        assert(s@.subrange(i as int, j as int).drop_last() =~= s@.subrange(i as int, j - 1));
        j -= 1;
    }
    (i, j)
}

/// Whether `i` is the first position of `c` in `s` (or `s.len()` when `c` does not occur).
pub open spec fn first_position(s: Seq<char>, c: char, i: int) -> bool {
    &&& 0 <= i <= s.len()
    &&& i < s.len() ==> s[i] == c
    &&& forall|j: int| 0 <= j < i ==> s[j] != c
}

/// The position of the first `c` in `s`, or `s.len()` when there is none.
pub open spec fn index_of(s: Seq<char>, c: char) -> int {
    choose|i: int| first_position(s, c, i)
}

pub proof fn lemma_index_of(s: Seq<char>, c: char, i: int)
    requires
        first_position(s, c, i),
    ensures
        index_of(s, c) == i,
{
    let k = index_of(s, c);
    assert(first_position(s, c, k));
    if k < i {
        assert(s[k] == c);
    } else if i < k {
        assert(s[i] == c);
    }
}

proof fn lemma_first_position_from(s: Seq<char>, c: char, i: int) -> (k: int)
    requires
        0 <= i <= s.len(),
        forall|j: int| 0 <= j < i ==> s[j] != c,
    ensures
        first_position(s, c, k),
    decreases s.len() - i,
{
    if i == s.len() || s[i] == c {
        i
    } else {
        lemma_first_position_from(s, c, i + 1)
    }
}

pub proof fn lemma_index_of_bounds(s: Seq<char>, c: char)
    ensures
        first_position(s, c, index_of(s, c)),
        0 <= index_of(s, c) <= s.len(),
{
    let k = lemma_first_position_from(s, c, 0);
    lemma_index_of(s, c, k);
}

/// Finds the first `c` among the characters `from..to` of `s`; returns `to` when there is none.
pub fn find_char(s: &str, from: usize, to: usize, c: char) -> (i: usize)
    requires
        from <= to <= s@.len(),
    ensures
        from <= i <= to,
        i - from == index_of(s@.subrange(from as int, to as int), c),
{
    let mut i = from;
    while i < to && s.get_char(i) != c
        invariant
            from <= i <= to <= s@.len(),
            forall|j: int| from <= j < i ==> s@[j] != c,
        decreases to - i,
    {
        i += 1;
    }
    proof {
        lemma_index_of(s@.subrange(from as int, to as int), c, i - from);
    }
    i
}

/// Whether the characters `from..to` of `s` spell `t`.
pub fn range_equals(s: &str, from: usize, to: usize, t: &str) -> (same: bool)
    requires
        from <= to <= s@.len(),
    ensures
        same == (s@.subrange(from as int, to as int) == t@),
{
    let n = t.unicode_len();
    if to - from != n {
        return false;
    }
    let mut k: usize = 0;
    while k < n
        invariant
            n == t@.len(),
            to - from == n,
            from <= to <= s@.len(),
            k <= n,
            forall|j: int| 0 <= j < k ==> s@[from + j] == t@[j],
        decreases n - k,
    {
        if s.get_char(from + k) != t.get_char(k) {
            assert(s@.subrange(from as int, to as int)[k as int] != t@[k as int]);
            return false;
        }
        k += 1;
    }
    assert(s@.subrange(from as int, to as int) =~= t@);
    true
}

} // verus!
