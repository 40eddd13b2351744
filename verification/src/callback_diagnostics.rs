//! What the desktop diagnostics log records about a received authentication
//! callback URL, so that a malformed activation can be told apart from a
//! well-formed one: its parts around `?` and `#`, how its beginning compares
//! with the callback prefix, and its raw UTF-8 bytes.

use vstd::prelude::*;
use vstd::string::*;
use vstd::utf8::{decode_utf8, encode_utf8, encode_utf8_decode_utf8, encode_utf8_valid_utf8, is_char_boundary};
use crate::auth_callback::{ascii_fold, ascii_folded, has_callback_prefix, DESKTOP_AUTH_CALLBACK_PREFIX};
use crate::text::{find_char, index_of, lemma_index_of_bounds};

verus! {

broadcast use {encode_utf8_decode_utf8, encode_utf8_valid_utf8};

/// `s` up to its first `c`, or all of `s` when `c` does not occur.
pub open spec fn before_first(s: Seq<char>, c: char) -> Seq<char> {
    s.subrange(0, index_of(s, c))
}

/// `s` after its first `c`, or nothing when `c` does not occur.
pub open spec fn after_first(s: Seq<char>, c: char) -> Seq<char> {
    if index_of(s, c) < s.len() {
        s.subrange(index_of(s, c) + 1, s.len() as int)
    } else {
        Seq::empty()
    }
}

/// The characters of `s` from byte `k` of its UTF-8 encoding on, when a
/// character starts there (or `k` is the end).
pub open spec fn from_byte(s: Seq<char>, k: int) -> Option<Seq<char>> {
    let bytes = encode_utf8(s);
    if is_char_boundary(bytes, k) {
        Some(decode_utf8(bytes.subrange(k, bytes.len() as int)))
    } else {
        None
    }
}

/// A lower-case hexadecimal digit.
pub open spec fn hex_digit(n: int) -> char {
    if n < 10 {
        (48 + n) as char
    } else {
        (87 + n) as char
    }
}

/// Two lower-case hexadecimal digits per byte.
pub open spec fn hex_of(bytes: Seq<u8>) -> Seq<char>
    decreases bytes.len(),
{
    if bytes.len() == 0 {
        Seq::empty()
    } else {
        hex_of(bytes.drop_last()) + seq![hex_digit((bytes.last() / 16) as int), hex_digit((bytes.last() % 16) as int)]
    }
}

/// The URL without its fragment.
pub open spec fn without_fragment(url: Seq<char>) -> Seq<char> {
    before_first(url, '#')
}

/// The URL without its fragment and query.
pub open spec fn before_query(url: Seq<char>) -> Seq<char> {
    before_first(without_fragment(url), '?')
}

/// The character right after the callback prefix's bytes, if any.
pub open spec fn prefix_boundary(url: Seq<char>) -> Seq<char> {
    match from_byte(url, DESKTOP_AUTH_CALLBACK_PREFIX@.len() as int) {
        Some(rest) => if rest.len() > 0 { rest.subrange(0, 1) } else { Seq::empty() },
        None => Seq::empty(),
    }
}

/// What follows the callback prefix's bytes up to the query.
pub open spec fn prefix_remainder_before_query(url: Seq<char>) -> Seq<char> {
    match from_byte(before_query(url), DESKTOP_AUTH_CALLBACK_PREFIX@.len() as int) {
        Some(rest) => rest,
        None => Seq::empty(),
    }
}

/// The parts of a callback URL that its diagnostics record (its query
/// values are read with [`crate::auth_callback::desktop_auth_callback_query_value`]).
pub struct CallbackDiagnostics {
    /// The URL as received.
    pub callback_url: String,
    /// Length in characters.
    pub length: usize,
    /// The UTF-8 bytes, in lower-case hexadecimal.
    pub utf8_hex: String,
    pub before_query: String,
    pub raw_query: String,
    pub fragment: String,
    pub prefix_matches: bool,
    pub prefix_boundary: String,
    pub prefix_remainder_before_query: String,
}

fn starts_with_callback_prefix(s: &str) -> (matches: bool)
    ensures
        matches == has_callback_prefix(s@),
{
    let prefix = DESKTOP_AUTH_CALLBACK_PREFIX;
    let p = prefix.unicode_len();
    if s.unicode_len() < p {
        return false;
    }
    let mut i: usize = 0;
    while i < p
        invariant
            p == prefix@.len(),
            prefix@ == DESKTOP_AUTH_CALLBACK_PREFIX@,
            p <= s@.len(),
            i <= p,
            forall|j: int| 0 <= j < i ==> ascii_folded(#[trigger] s@[j]) == ascii_folded(prefix@[j]),
        decreases p - i,
    {
        if ascii_fold(s.get_char(i)) != ascii_fold(prefix.get_char(i)) {
            return false;
        }
        i += 1;
    }
    true
}

/// The characters of `s` from byte `k` on, when a character starts there.
fn from_byte_exec<'a>(s: &'a str, k: usize) -> (rest: Option<&'a str>)
    ensures
        match rest {
            Some(r) => from_byte(s@, k as int) == Some(r@),
            None => from_byte(s@, k as int) is None,
        },
{
    if s.is_char_boundary(k) {
        let (_, rest) = s.split_at(k);
        proof {
            assert(decode_utf8(encode_utf8(rest@)) == rest@);
        }
        Some(rest)
    } else {
        None
    }
}

fn hex_string(bytes: &[u8]) -> (hex: String)
    ensures
        hex@ == hex_of(bytes@),
{
    let digits = "0123456789abcdef";
    proof {
        reveal_strlit("0123456789abcdef");
    }
    let mut hex = String::new();
    let n = bytes.len();
    let mut i: usize = 0;
    while i < n
        invariant
            n == bytes@.len(),
            i <= n,
            digits@ == "0123456789abcdef"@,
            digits@.len() == 16,
            forall|d: int| 0 <= d < 16 ==> #[trigger] digits@[d] == hex_digit(d),
            hex@ == hex_of(bytes@.subrange(0, i as int)),
        decreases n - i,
    {
        let b = bytes[i];
        let high = (b / 16) as usize;
        let low = (b % 16) as usize;
        hex.append(digits.substring_char(high, high + 1));
        hex.append(digits.substring_char(low, low + 1));
        proof {
            let done = bytes@.subrange(0, i + 1);
            assert(done.drop_last() =~= bytes@.subrange(0, i as int));
            assert(digits@.subrange(high as int, high + 1) =~= seq![hex_digit((b / 16) as int)]);
            assert(digits@.subrange(low as int, low + 1) =~= seq![hex_digit((b % 16) as int)]);
            assert(hex@ =~= hex_of(done));
        }
        i += 1;
    }
    assert(bytes@.subrange(0, n as int) =~= bytes@);
    hex
}

/// Computes what the diagnostics log records about `callback_url`.
pub fn desktop_auth_callback_diagnostics(callback_url: &str) -> (d: CallbackDiagnostics)
    ensures
        d.callback_url@ == callback_url@,
        d.length == callback_url@.len(),
        d.utf8_hex@ == hex_of(encode_utf8(callback_url@)),
        d.before_query@ == before_query(callback_url@),
        d.raw_query@ == after_first(without_fragment(callback_url@), '?'),
        d.fragment@ == after_first(callback_url@, '#'),
        d.prefix_matches == has_callback_prefix(callback_url@),
        d.prefix_boundary@ == prefix_boundary(callback_url@),
        d.prefix_remainder_before_query@ == prefix_remainder_before_query(callback_url@),
{
    let ghost url = callback_url@;
    let n = callback_url.unicode_len();
    assert(url.subrange(0, n as int) =~= url);
    let f = find_char(callback_url, 0, n, '#');
    proof {
        lemma_index_of_bounds(url, '#');
    }
    let ghost plain = url.subrange(0, f as int);
    assert(plain == without_fragment(url));
    let q = find_char(callback_url, 0, f, '?');
    proof {
        lemma_index_of_bounds(plain, '?');
    }
    assert(url.subrange(0, q as int) =~= plain.subrange(0, q as int));
    let before = callback_url.substring_char(0, q);
    let raw_query = if q < f {
        assert(url.subrange(q + 1, f as int) =~= plain.subrange(q + 1, plain.len() as int));
        callback_url.substring_char(q + 1, f).to_owned()
    } else {
        String::new()
    };
    let fragment = if f < n {
        callback_url.substring_char(f + 1, n).to_owned()
    } else {
        String::new()
    };
    let k = DESKTOP_AUTH_CALLBACK_PREFIX.unicode_len();
    let prefix_boundary = match from_byte_exec(callback_url, k) {
        Some(rest) => if rest.unicode_len() > 0 {
            rest.substring_char(0, 1).to_owned()
        } else {
            String::new()
        },
        None => String::new(),
    };
    let prefix_remainder_before_query = match from_byte_exec(before, k) {
        Some(rest) => rest.to_owned(),
        None => String::new(),
    };
    CallbackDiagnostics {
        callback_url: callback_url.to_owned(),
        length: n,
        utf8_hex: hex_string(callback_url.as_bytes()),
        before_query: before.to_owned(),
        raw_query,
        fragment,
        prefix_matches: starts_with_callback_prefix(callback_url),
        prefix_boundary,
        prefix_remainder_before_query,
    }
}

} // verus!
