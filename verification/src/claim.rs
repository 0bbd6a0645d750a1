//! The decisions of the claim flow that provisions a self-managed playit.gg
//! agent key: the random claim code's hex form, reading the setup status
//! while polling, and the outcome of each unauthenticated call.

use vstd::prelude::*;
use serde_json::Value as JsonValue;
use crate::provider::playit::{text_or, Envelope, envelope_succeeded};
use crate::text::{chars_of, opt_str, push_char, str_eq, string_from_chars};

verus! {

/// The lowercase hex digit of `d` (`d < 16`).
pub open spec fn hex_digit(d: nat) -> char {
    if d < 10 {
        (d + 48) as char
    } else {
        (d - 10 + 97) as char
    }
}

/// Each byte as two lowercase hex digits, high nibble first.
pub open spec fn hex_spec(bytes: Seq<u8>) -> Seq<char>
    decreases bytes.len(),
{
    if bytes.len() == 0 {
        Seq::empty()
    } else {
        hex_spec(bytes.drop_last()) + seq![
            hex_digit((bytes.last() / 16) as nat),
            hex_digit((bytes.last() % 16) as nat),
        ]
    }
}

/// A lowercase hex digit.
pub open spec fn is_lower_hex(c: char) -> bool {
    ('0' <= c && c <= '9') || ('a' <= c && c <= 'f')
}

/// The hex form of `n` bytes is `2 * n` lowercase hex digits (a claim code of
/// 8 random bytes is 16 hex characters).
pub proof fn law_hex_shape(bytes: Seq<u8>)
    ensures
        hex_spec(bytes).len() == 2 * bytes.len(),
        forall|k: int| 0 <= k < hex_spec(bytes).len() ==> is_lower_hex(#[trigger] hex_spec(bytes)[k]),
    decreases bytes.len(),
{
    if bytes.len() > 0 {
        let rest = bytes.drop_last();
        law_hex_shape(rest);
        let h = hex_spec(bytes);
        let hr = hex_spec(rest);
        assert forall|k: int| 0 <= k < h.len() implies is_lower_hex(#[trigger] h[k]) by {
            if k < hr.len() {
                assert(h[k] == hr[k]);
            }
        }
    }
}

fn hex_digit_char(d: u8) -> (c: char)
    requires
        d < 16,
    ensures
        c == hex_digit(d as nat),
{
    if d < 10 {
        (48u8 + d) as char
    } else {
        (87u8 + d) as char
    }
}

/// The bytes in lowercase hex, two digits per byte (`{:02x}` each).
pub fn hex(bytes: &[u8]) -> (s: String)
    ensures
        s@ == hex_spec(bytes@),
{
    let mut s = String::new();
    let n = bytes.len();
    let mut i: usize = 0;
    while i < n
        invariant
            n == bytes@.len(),
            i <= n,
            s@ == hex_spec(bytes@.take(i as int)),
        decreases n - i,
    {
        let b = bytes[i];
        push_char(&mut s, hex_digit_char(b / 16));
        push_char(&mut s, hex_digit_char(b % 16));
        assert(bytes@.take(i + 1).drop_last() =~= bytes@.take(i as int));
        i = i + 1;
    }
    assert(bytes@.take(n as int) =~= bytes@);
    s
}

/// ASCII letters lowered, every other character kept.
pub open spec fn ascii_lower(s: Seq<char>) -> Seq<char> {
    s.map_values(|c: char| if 'A' <= c && c <= 'Z' { ((c as u32) + 32) as char } else { c })
}

/// `sub` occurs in `s`.
pub open spec fn contains_spec(s: Seq<char>, sub: Seq<char>) -> bool {
    exists|i: int| 0 <= i <= s.len() - sub.len() && #[trigger] s.subrange(i, i + sub.len()) == sub
}

/// `s` with its ASCII letters lowered (`to_ascii_lowercase`).
pub fn to_ascii_lower(s: &str) -> (r: Vec<char>)
    ensures
        r@ == ascii_lower(s@),
{
    let v = chars_of(s);
    let n = v.len();
    let mut r: Vec<char> = Vec::new();
    let mut i: usize = 0;
    while i < n
        invariant
            n == v@.len(),
            v@ == s@,
            i <= n,
            r@ == ascii_lower(s@).take(i as int),
        decreases n - i,
    {
        let c = v[i];
        let d = if 'A' <= c && c <= 'Z' {
            ((c as u8) + 32) as char
        } else {
            c
        };
        r.push(d);
        assert(ascii_lower(s@).take(i + 1) =~= ascii_lower(s@).take(i as int).push(
            ascii_lower(s@)[i as int],
        ));
        i = i + 1;
    }
    assert(r@ =~= ascii_lower(s@));
    r
}

/// Whether `sub` occurs in `s`.
pub fn contains(s: &Vec<char>, sub: &str) -> (r: bool)
    ensures
        r == contains_spec(s@, sub@),
{
    let p = chars_of(sub);
    let n = s.len();
    let m = p.len();
    if m > n {
        return false;
    }
    let mut i: usize = 0;
    while i <= n - m
        invariant
            n == s@.len(),
            m == p@.len(),
            p@ == sub@,
            m <= n,
            i <= n - m + 1,
            forall|k: int| 0 <= k < i ==> #[trigger] s@.subrange(k, k + m) != sub@,
        decreases n - m + 1 - i,
    {
        let mut j: usize = 0;
        while j < m && s[i + j] == p[j]
            invariant
                n == s@.len(),
                m == p@.len(),
                m <= n,
                i <= n - m,
                j <= m,
                forall|q: int| 0 <= q < j ==> s@[i + q] == p@[q],
            decreases m - j,
        {
            j = j + 1;
        }
        if j == m {
            assert(s@.subrange(i as int, i + m) =~= sub@);
            return true;
        }
        assert(s@.subrange(i as int, i + m)[j as int] != sub@[j as int]);
        i = i + 1;
    }
    false
}

/// How long to wait for the user to accept the claim, in seconds.
pub const CLAIM_TIMEOUT_SECS: u64 = 300;

/// The pause between two polls of the claim setup, in seconds.
pub const POLL_INTERVAL_SECS: u64 = 3;

/// Whether the wait for the user is over: the claim gives up once
/// `CLAIM_TIMEOUT_SECS` whole seconds have passed since it started.
pub fn claim_timed_out(elapsed_secs: u64) -> (r: bool)
    ensures
        r == (elapsed_secs >= CLAIM_TIMEOUT_SECS),
{
    elapsed_secs >= CLAIM_TIMEOUT_SECS
}

/// How the claim stands, read off the setup answer.
#[derive(Debug, Clone, Copy, PartialEq, Eq, Structural)]
pub enum ClaimProgress {
    /// The user accepted; exchange the code for the secret key.
    Accepted,
    /// The user rejected the claim.
    Rejected,
    /// Not decided yet; poll again.
    Pending,
}

/// The progress that the setup status text reports: accepted when its
/// lowercase form mentions `accept`, else rejected when it mentions `reject`,
/// else pending. A status that is not a string counts as empty.
pub open spec fn progress_spec(status: Option<Seq<char>>) -> ClaimProgress {
    let s = ascii_lower(text_or(status, Seq::empty()));
    if contains_spec(s, "accept"@) {
        ClaimProgress::Accepted
    } else if contains_spec(s, "reject"@) {
        ClaimProgress::Rejected
    } else {
        ClaimProgress::Pending
    }
}

proof fn lemma_contains_six(s: Seq<char>, w: Seq<char>)
    requires
        w.len() == 6,
    ensures
        contains_spec(s, w) == exists|i: int|
            0 <= i && i + 6 <= s.len() && #[trigger] s.subrange(i, i + 6) == w,
{
    if contains_spec(s, w) {
        let i = choose|i: int| 0 <= i <= s.len() - w.len() && #[trigger] s.subrange(i, i + w.len()) == w;
        assert(s.subrange(i, i + 6) == w);
    }
    if exists|i: int| 0 <= i && i + 6 <= s.len() && #[trigger] s.subrange(i, i + 6) == w {
        let i = choose|i: int| 0 <= i && i + 6 <= s.len() && #[trigger] s.subrange(i, i + 6) == w;
        assert(s.subrange(i, i + w.len()) == w);
    }
}

/// Lowering changes only the ASCII capitals, each to its small letter.
pub proof fn law_ascii_lower(s: Seq<char>)
    ensures
        ascii_lower(s).len() == s.len(),
        forall|i: int|
            0 <= i < s.len() ==> (if 'A' <= s[i] && s[i] <= 'Z' {
                #[trigger] ascii_lower(s)[i] == ((s[i] as u32) + 32) as char
            } else {
                ascii_lower(s)[i] == s[i]
            }),
{
}

/// The claim counts as accepted exactly when the lowercase status text holds
/// `accept`; as rejected when it holds `reject` and not `accept`; otherwise
/// (neither word, or no status text at all) it is still pending.
pub proof fn law_progress_reads_status(status: Option<Seq<char>>)
    ensures
        ({
            let low = ascii_lower(text_or(status, Seq::empty()));
            let accept = exists|i: int|
                0 <= i && i + 6 <= low.len() && #[trigger] low.subrange(i, i + 6) == "accept"@;
            let reject = exists|i: int|
                0 <= i && i + 6 <= low.len() && #[trigger] low.subrange(i, i + 6) == "reject"@;
            &&& (progress_spec(status) == ClaimProgress::Accepted) == accept
            &&& (progress_spec(status) == ClaimProgress::Rejected) == (!accept && reject)
            &&& (progress_spec(status) == ClaimProgress::Pending) == (!accept && !reject)
        }),
        status is None ==> progress_spec(status) == ClaimProgress::Pending,
{
    reveal_strlit("accept");
    reveal_strlit("reject");
    let low = ascii_lower(text_or(status, Seq::empty()));
    lemma_contains_six(low, "accept"@);
    lemma_contains_six(low, "reject"@);
    if status is None {
        assert(low.len() == 0);
    }
}

/// How the claim stands, given the setup answer's data as a string (if it is one).
pub fn claim_progress(status: &Option<String>) -> (p: ClaimProgress)
    ensures
        p == progress_spec(opt_str(*status)),
{
    let lower = match status {
        Some(s) => to_ascii_lower(s.as_str()),
        None => {
            proof {
                reveal_strlit("");
                assert(""@ =~= Seq::<char>::empty());
            }
            to_ascii_lower("")
        },
    };
    if contains(&lower, "accept") {
        ClaimProgress::Accepted
    } else if contains(&lower, "reject") {
        ClaimProgress::Rejected
    } else {
        ClaimProgress::Pending
    }
}

/// The member `key` of a JSON object (`Value::get`); none for a missing
/// member or a value that is not an object.
pub uninterp spec fn json_member(v: JsonValue, key: Seq<char>) -> Option<JsonValue>;

/// The text of a JSON string (`Value::as_str`); none for any other value.
pub uninterp spec fn json_string(v: JsonValue) -> Option<Seq<char>>;

/// The compact JSON text of a value (`Value`'s `Display`).
pub uninterp spec fn json_display(v: JsonValue) -> Seq<char>;

/// `Value::get` of a member, cloned; named `json_member`.
#[verifier::external_body]
fn json_get(v: &JsonValue, key: &str) -> (r: Option<JsonValue>)
    ensures
        r == json_member(*v, key@),
{
    v.get(key).cloned()
}

/// `Value::as_str`, copied into a `String`; named `json_string`.
#[verifier::external_body]
fn json_str(v: &JsonValue) -> (r: Option<String>)
    ensures
        opt_str(r) == json_string(*v),
{
    v.as_str().map(|s| s.to_string())
}

/// `Value`'s `Display`; named `json_display`.
#[verifier::external_body]
fn json_text(v: &JsonValue) -> (r: String)
    ensures
        r@ == json_display(*v),
{
    v.to_string()
}

/// How the claim stands after a setup answer whose `data` is `data`: its text
/// when it is a JSON string, else the empty text, read as `claim_progress` does.
pub fn setup_progress(data: &JsonValue) -> (p: ClaimProgress)
    ensures
        p == progress_spec(json_string(*data)),
{
    claim_progress(&json_str(data))
}

/// The secret key that an exchange answer's `data` carries, if any: its
/// `secret_key` member when that is a string.
pub open spec fn secret_key_of(data: JsonValue) -> Option<Seq<char>> {
    match json_member(data, "secret_key"@) {
        Some(v) => json_string(v),
        None => None,
    }
}

/// The agent secret key from an exchange answer's `data`; without one, the
/// error names the whole `data`.
pub fn exchange_secret(data: &JsonValue) -> (r: Result<String, String>)
    ensures
        secret_key_of(*data) matches Some(k) ==> (r matches Ok(s) && s@ == k),
        secret_key_of(*data) is None ==> (r matches Err(m) && m@
            == "no secret_key in exchange response: "@ + json_display(*data)),
{
    let secret = match json_get(data, "secret_key") {
        Some(v) => json_str(&v),
        None => None,
    };
    match secret {
        Some(s) => Ok(s),
        None => {
            let mut m = String::from_str("no secret_key in exchange response: ");
            let shown = json_text(data);
            m.append(shown.as_str());
            Err(m)
        },
    }
}

/// The message of a failed claim call to `path`; `raw` is the whole answer.
pub open spec fn claim_error_text(
    path: Seq<char>,
    kind: Option<Seq<char>>,
    msg: Option<Seq<char>>,
    raw: Seq<char>,
) -> Seq<char> {
    "playit "@ + path + ": "@ + text_or(kind, "unknown"@) + " "@ + text_or(msg, ""@) + " (raw: "@
        + raw + ")"@
}

/// The outcome of a claim call to `path`: the envelope's `data` on success,
/// else the error message naming the path, the error type, its message and
/// the raw answer `raw`.
pub fn claim_call_result<D>(path: &str, env: Envelope<D>, raw: &str) -> (r: Result<Option<D>, String>)
    ensures
        envelope_succeeded(env) ==> (r matches Ok(d) && d == env.data),
        !envelope_succeeded(env) ==> (r matches Err(m) && m@ == claim_error_text(
            path@,
            opt_str(env.error_type),
            opt_str(env.error_message),
            raw@,
        )),
{
    let ok = match &env.status {
        Some(s) => str_eq(s.as_str(), "success"),
        None => false,
    };
    if ok {
        return Ok(env.data);
    }
    let mut m = String::from_str("playit ");
    m.append(path);
    m.append(": ");
    match &env.error_type {
        Some(k) => m.append(k.as_str()),
        None => m.append("unknown"),
    }
    m.append(" ");
    match &env.error_message {
        Some(k) => m.append(k.as_str()),
        None => m.append(""),
    }
    m.append(" (raw: ");
    m.append(raw);
    m.append(")");
    Err(m)
}

} // verus!
