//! Desktop authentication callbacks delivered on the command line, and the
//! queue that hands them to the renderer in arrival order.

use vstd::prelude::*;
use vstd::string::*;
use std::collections::VecDeque;
use crate::text::{
    find_char, index_of, lemma_index_of_bounds, range_equals, same_text, strings_view, strip,
    trim_bounds,
};

verus! {

/// Scheme and path every desktop authentication callback starts with.
pub const DESKTOP_AUTH_CALLBACK_PREFIX: &'static str = "huali-ai-mascot://auth-callback";
/// Callbacks kept while the renderer has not taken them.
pub const DESKTOP_AUTH_CALLBACK_QUEUE_CAPACITY: usize = 8;
/// Longest accepted release smoke value, in bytes.
pub const RELEASE_SMOKE_VALUE_MAX_BYTES: usize = 64;

/// A character compared without regard to ASCII case.
pub open spec fn ascii_folded(c: char) -> u32 {
    if 65 <= (c as u32) <= 90 { ((c as u32) + 32) as u32 } else { c as u32 }
}

pub fn ascii_fold(c: char) -> (folded: u32)
    ensures
        folded == ascii_folded(c),
{
    let v = c as u32;
    if 65 <= v && v <= 90 {
        v + 32
    } else {
        v
    }
}

/// Whether `s` starts with the callback prefix, ignoring ASCII case.
pub open spec fn has_callback_prefix(s: Seq<char>) -> bool {
    let prefix = DESKTOP_AUTH_CALLBACK_PREFIX@;
    s.len() >= prefix.len() && forall|i: int| 0 <= i < prefix.len() ==> ascii_folded(#[trigger] s[i])
        == ascii_folded(prefix[i])
}

/// A command-line argument without surrounding white space and double quotes
/// (as Windows passes a quoted protocol activation).
pub open spec fn normalized_argument(argument: Seq<char>) -> Seq<char> {
    strip(strip(strip(argument, false), true), false)
}

/// The callback an argument carries, if it is one.
pub open spec fn argument_callback(argument: Seq<char>) -> Option<Seq<char>> {
    if has_callback_prefix(normalized_argument(argument)) {
        Some(normalized_argument(argument))
    } else {
        None
    }
}

/// The callback carried by the first argument that carries one.
pub open spec fn first_callback(args: Seq<Seq<char>>) -> Option<Seq<char>>
    decreases args.len(),
{
    if args.len() == 0 {
        None
    } else {
        match argument_callback(args[0]) {
            Some(callback) => Some(callback),
            None => first_callback(args.drop_first()),
        }
    }
}

/// Returns the normalized callback URL when `argument` is a desktop authentication callback.
pub fn normalize_desktop_auth_callback_argument(argument: &str) -> (callback: Option<String>)
    ensures
        match callback {
            Some(url) => argument_callback(argument@) == Some(url@),
            None => argument_callback(argument@) is None,
        },
{
    let n = argument.unicode_len();
    assert(argument@.subrange(0, n as int) =~= argument@);
    let (a, b) = trim_bounds(argument, 0, n, false);
    let (c, d) = trim_bounds(argument, a, b, true);
    let (e, f) = trim_bounds(argument, c, d, false);
    let ghost normalized = argument@.subrange(e as int, f as int);
    assert(normalized == normalized_argument(argument@));
    let prefix = DESKTOP_AUTH_CALLBACK_PREFIX;
    let p = prefix.unicode_len();
    if f - e < p {
        return None;
    }
    let mut i: usize = 0;
    while i < p
        invariant
            p == prefix@.len(),
            prefix@ == DESKTOP_AUTH_CALLBACK_PREFIX@,
            e + p <= f <= argument@.len(),
            normalized == argument@.subrange(e as int, f as int),
            normalized == normalized_argument(argument@),
            i <= p,
            forall|j: int| 0 <= j < i ==> ascii_folded(#[trigger] normalized[j]) == ascii_folded(prefix@[j]),
        decreases p - i,
    {
        if ascii_fold(argument.get_char(e + i)) != ascii_fold(prefix.get_char(i)) {
            assert(normalized[i as int] == argument@[e + i]);
            return None;
        }
        assert(normalized[i as int] == argument@[e + i]);
        i += 1;
    }
    let url = argument.substring_char(e, f).to_owned();
    Some(url)
}

/// Finds the first command-line argument that is a desktop authentication callback.
pub fn find_desktop_auth_callback(args: &[String]) -> (callback: Option<String>)
    ensures
        match callback {
            Some(url) => first_callback(strings_view(args@)) == Some(url@),
            None => first_callback(strings_view(args@)) is None,
        },
{
    let ghost all = strings_view(args@);
    let n = args.len();
    let mut k: usize = 0;
    assert(all.subrange(0, n as int) =~= all);
    while k < n
        invariant
            n == args@.len(),
            all == strings_view(args@),
            k <= n,
            first_callback(all) == first_callback(all.subrange(k as int, n as int)),
        decreases n - k,
    {
        let found = normalize_desktop_auth_callback_argument(args[k].as_str());
        assert(all.subrange(k as int, n as int)[0] == args@[k as int]@);
        assert(all.subrange(k as int, n as int).drop_first() =~= all.subrange(k + 1, n as int));
        if found.is_some() {
            return found;
        }
        k += 1;
    }
    None
}

/// The query of a URL: what follows the first `?`, up to the first `#`.
pub open spec fn query_part(url: Seq<char>) -> Option<Seq<char>> {
    let q = index_of(url, '?');
    if q >= url.len() {
        None
    } else {
        let rest = url.subrange(q + 1, url.len() as int);
        Some(rest.subrange(0, index_of(rest, '#')))
    }
}

/// The value of a `name=value` pair named `name`.
pub open spec fn pair_value(pair: Seq<char>, name: Seq<char>) -> Option<Seq<char>> {
    let e = index_of(pair, '=');
    if e < pair.len() && pair.subrange(0, e) == name {
        Some(pair.subrange(e + 1, pair.len() as int))
    } else {
        None
    }
}

/// The value of the first `&`-separated pair of `query` named `name`.
pub open spec fn pairs_value(query: Seq<char>, name: Seq<char>) -> Option<Seq<char>>
    decreases query.len(),
{
    let a = index_of(query, '&');
    match pair_value(query.subrange(0, a), name) {
        Some(v) => Some(v),
        None => if 0 <= a < query.len() {
            pairs_value(query.subrange(a + 1, query.len() as int), name)
        } else {
            None
        },
    }
}

/// The raw (undecoded) value of query parameter `name` of `url`.
pub open spec fn query_value(url: Seq<char>, name: Seq<char>) -> Option<Seq<char>> {
    match query_part(url) {
        Some(query) => pairs_value(query, name),
        None => None,
    }
}

/// Returns the raw value of query parameter `name` of a callback URL.
pub fn desktop_auth_callback_query_value<'a>(callback_url: &'a str, name: &str) -> (value: Option<&'a str>)
    ensures
        match value {
            Some(v) => query_value(callback_url@, name@) == Some(v@),
            None => query_value(callback_url@, name@) is None,
        },
{
    let ghost url = callback_url@;
    let n = callback_url.unicode_len();
    assert(url.subrange(0, n as int) =~= url);
    let q = find_char(callback_url, 0, n, '?');
    proof {
        lemma_index_of_bounds(url, '?');
    }
    if q == n {
        return None;
    }
    let end = find_char(callback_url, q + 1, n, '#');
    let ghost query = url.subrange(q + 1, end as int);
    assert(query_part(url) == Some(query)) by {
        let rest = url.subrange(q + 1, url.len() as int);
        assert(rest.subrange(0, index_of(rest, '#')) =~= query);
    }
    let mut start = q + 1;
    loop
        invariant
            q + 1 <= start <= end <= n,
            n == url.len(),
            url == callback_url@,
            query_value(url, name@) == pairs_value(url.subrange(start as int, end as int), name@),
        decreases end - start,
    {
        let ghost rest = url.subrange(start as int, end as int);
        let amp = find_char(callback_url, start, end, '&');
        let eq = find_char(callback_url, start, amp, '=');
        let ghost pair = url.subrange(start as int, amp as int);
        assert(rest.subrange(0, amp - start) =~= pair);
        proof {
            lemma_index_of_bounds(pair, '=');
        }
        if eq < amp && range_equals(callback_url, start, eq, name) {
            assert(pair.subrange(0, eq - start) =~= url.subrange(start as int, eq as int));
            assert(pair.subrange(eq - start + 1, pair.len() as int) =~= url.subrange(eq + 1, amp as int));
            return Some(callback_url.substring_char(eq + 1, amp));
        }
        assert(pair_value(pair, name@) is None) by {
            if eq < amp {
                assert(pair.subrange(0, eq - start) =~= url.subrange(start as int, eq as int));
            }
        }
        if amp < end {
            assert(rest.subrange(amp - start + 1, rest.len() as int) =~= url.subrange(amp + 1, end as int));
            start = amp + 1;
        } else {
            return None;
        }
    }
}

/// Whether query parameter `name` of a callback URL is present and not empty.
pub fn desktop_auth_callback_has_value(callback_url: &str, name: &str) -> (present: bool)
    ensures
        present == (query_value(callback_url@, name@) is Some && query_value(callback_url@, name@)->0.len() > 0),
{
    match desktop_auth_callback_query_value(callback_url, name) {
        Some(value) => !value.is_empty(),
        None => false,
    }
}

pub open spec fn smoke_char(c: char) -> bool {
    ||| '0' <= c <= '9'
    ||| 'a' <= c <= 'z'
    ||| 'A' <= c <= 'Z'
    ||| c == '-'
}

/// A release smoke value is a short non-empty token of ASCII letters, digits and dashes.
pub open spec fn release_smoke_value_valid(value: Seq<char>, bytes: int) -> bool {
    &&& value.len() > 0
    &&& bytes <= RELEASE_SMOKE_VALUE_MAX_BYTES
    &&& forall|i: int| 0 <= i < value.len() ==> smoke_char(#[trigger] value[i])
}

pub fn valid_release_smoke_value(value: &str) -> (valid: bool)
    ensures
        valid == release_smoke_value_valid(value@, value.len() as int),
{
    if value.is_empty() || value.len() > RELEASE_SMOKE_VALUE_MAX_BYTES {
        return false;
    }
    let n = value.unicode_len();
    let mut i: usize = 0;
    while i < n
        invariant
            n == value@.len(),
            i <= n,
            forall|j: int| 0 <= j < i ==> smoke_char(#[trigger] value@[j]),
        decreases n - i,
    {
        let c = value.get_char(i);
        if !(('0' <= c && c <= '9') || ('a' <= c && c <= 'z') || ('A' <= c && c <= 'Z') || c == '-') {
            return false;
        }
        i += 1;
    }
    true
}

/// Whether `url` is an http or https URL.
pub open spec fn http_url(url: Seq<char>) -> bool {
    ||| url.len() >= 7 && url.subrange(0, 7) == "http://"@
    ||| url.len() >= 8 && url.subrange(0, 8) == "https://"@
}

pub fn is_http_url(url: &str) -> (http: bool)
    ensures
        http == http_url(url@),
{
    proof {
        reveal_strlit("http://");
        reveal_strlit("https://");
    }
    let n = url.unicode_len();
    (n >= 7 && range_equals(url, 0, 7, "http://")) || (n >= 8 && range_equals(url, 0, 8, "https://"))
}

/// Outcomes a renderer may report for a callback it processed.
pub open spec fn known_renderer_outcome(outcome: Seq<char>) -> bool {
    outcome == "success"@ || outcome == "error:expired"@ || outcome == "error:missing-identity"@
}

/// Whether a renderer's receipt for `callback_url` with `outcome` is recorded:
/// the URL must be a desktop authentication callback and the outcome a known one.
pub fn renderer_receipt_accepted(callback_url: &str, outcome: &str) -> (accepted: bool)
    ensures
        accepted == (argument_callback(callback_url@) is Some && known_renderer_outcome(outcome@)),
{
    normalize_desktop_auth_callback_argument(callback_url).is_some() && (same_text(outcome, "success")
        || same_text(outcome, "error:expired") || same_text(outcome, "error:missing-identity"))
}

// ---------------------------------------------------------------------------
// Pending callbacks.
// ---------------------------------------------------------------------------

/// A callback handed to the renderer, with the size of the command line it came from.
pub struct NativeDesktopAuthCallback {
    pub callback_url: Option<String>,
    pub argument_count: usize,
}

pub struct CallbackModel {
    pub callback_url: Option<Seq<char>>,
    pub argument_count: usize,
}

pub open spec fn optional_text(s: Option<String>) -> Option<Seq<char>> {
    match s {
        Some(s) => Some(s@),
        None => None,
    }
}

impl View for NativeDesktopAuthCallback {
    type V = CallbackModel;

    open spec fn view(&self) -> CallbackModel {
        CallbackModel { callback_url: optional_text(self.callback_url), argument_count: self.argument_count }
    }
}

/// Callbacks received but not yet taken by the renderer, oldest first.
pub struct PendingDesktopAuthCallback {
    pub pending: VecDeque<NativeDesktopAuthCallback>,
}

pub open spec fn callbacks_view(items: Seq<NativeDesktopAuthCallback>) -> Seq<CallbackModel> {
    items.map_values(|c: NativeDesktopAuthCallback| c@)
}

impl View for PendingDesktopAuthCallback {
    type V = Seq<CallbackModel>;

    open spec fn view(&self) -> Seq<CallbackModel> {
        callbacks_view(self.pending@)
    }
}

/// Whether callback `url` is already waiting.
pub open spec fn queued(pending: Seq<CallbackModel>, url: Seq<char>) -> bool {
    exists|i: int| 0 <= i < pending.len() && #[trigger] pending[i].callback_url == Some(url)
}

/// The queue after a command line of `argument_count` arguments carrying `found`
/// arrives: a new callback joins at the back (the oldest one leaves when the
/// queue is full); a repeated callback or a command line without one changes nothing.
pub open spec fn captured(pending: Seq<CallbackModel>, found: Option<Seq<char>>, argument_count: usize) -> Seq<CallbackModel> {
    match found {
        None => pending,
        Some(url) => if queued(pending, url) {
            pending
        } else {
            let kept = if pending.len() >= DESKTOP_AUTH_CALLBACK_QUEUE_CAPACITY { pending.drop_first() } else { pending };
            kept.push(CallbackModel { callback_url: Some(url), argument_count })
        },
    }
}

impl Default for PendingDesktopAuthCallback {
    fn default() -> (queue: Self)
        ensures
            queue@ == Seq::<CallbackModel>::empty(),
    {
        let queue = PendingDesktopAuthCallback { pending: VecDeque::new() };
        assert(queue@ =~= Seq::<CallbackModel>::empty());
        queue
    }
}

impl PendingDesktopAuthCallback {
    /// Whether callback `url` is already waiting.
    fn contains(&self, url: &str) -> (found: bool)
        ensures
            found == queued(self@, url@),
    {
        let n = self.pending.len();
        let mut k: usize = 0;
        while k < n
            invariant
                n == self.pending@.len(),
                k <= n,
                forall|j: int| 0 <= j < k ==> self@[j].callback_url != Some(url@),
            decreases n - k,
        {
            let item = &self.pending[k];
            assert(self@[k as int] == item@);
            match &item.callback_url {
                Some(existing) => {
                    if same_text(existing.as_str(), url) {
                        return true;
                    }
                },
                None => {},
            }
            k += 1;
        }
        false
    }

    /// Queues the callback carried by a command line, if any, and returns it.
    pub fn capture(&mut self, args: &[String]) -> (callback: Option<String>)
        ensures
            match callback {
                Some(url) => first_callback(strings_view(args@)) == Some(url@),
                None => first_callback(strings_view(args@)) is None,
            },
            final(self)@ == captured(old(self)@, first_callback(strings_view(args@)), args@.len() as usize),
    {
        let callback_url = find_desktop_auth_callback(args);
        match &callback_url {
            Some(url) => {
                if !self.contains(url.as_str()) {
                    let ghost before = self@;
                    if self.pending.len() >= DESKTOP_AUTH_CALLBACK_QUEUE_CAPACITY {
                        let _oldest = self.pending.pop_front();
                        assert(self@ =~= before.drop_first());
                    }
                    let ghost kept = self@;
                    self.pending.push_back(
                        NativeDesktopAuthCallback { callback_url: Some(url.clone()), argument_count: args.len() },
                    );
                    assert(self@ =~= kept.push(CallbackModel { callback_url: Some(url@), argument_count: args@.len() as usize }));
                }
            },
            None => {},
        }
        callback_url
    }

    /// Hands the oldest waiting callback to the renderer.
    pub fn take(&mut self) -> (callback: Option<NativeDesktopAuthCallback>)
        ensures
            old(self)@.len() == 0 ==> callback is None && final(self)@ == old(self)@,
            old(self)@.len() > 0 ==> callback is Some && callback->0@ == old(self)@[0] && final(self)@
                == old(self)@.drop_first(),
    {
        let ghost before = self@;
        let callback = self.pending.pop_front();
        assert(self@ =~= if before.len() > 0 { before.drop_first() } else { before });
        callback
    }
}

} // verus!
