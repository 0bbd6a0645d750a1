//! A provider that performs no external calls. It reports the tunnel it
//! would provision with a deterministic synthetic address, so the reconcile
//! loop can be developed and demoed without playit credentials.

use vstd::prelude::*;
use crate::error::Error;
use crate::provider::{DesiredTunnel, ProvisionedTunnel};
use crate::text::{chars_of, decimal, decimal_string, string_from_chars};

verus! {

/// A provider that performs no external calls and answers with a
/// deterministic synthetic address. It is the default provider.
#[derive(Debug)]
pub struct DryRunProvider;

impl Default for DryRunProvider {
    fn default() -> (p: DryRunProvider)
        ensures
            p == DryRunProvider,
    {
        DryRunProvider
    }
}

/// An ASCII letter or digit.
pub open spec fn is_ascii_alnum(c: char) -> bool {
    ||| ('0' <= c && c <= '9')
    ||| ('a' <= c && c <= 'z')
    ||| ('A' <= c && c <= 'Z')
}

/// Every character that is not an ASCII letter or digit replaced by `-`.
pub open spec fn dash_others(s: Seq<char>) -> Seq<char> {
    s.map_values(|c: char| if is_ascii_alnum(c) { c } else { '-' })
}

/// `s` without its leading dashes.
pub open spec fn trim_start_dashes(s: Seq<char>) -> Seq<char>
    decreases s.len(),
{
    if s.len() > 0 && s[0] == '-' {
        trim_start_dashes(s.drop_first())
    } else {
        s
    }
}

/// `s` without its trailing dashes.
pub open spec fn trim_end_dashes(s: Seq<char>) -> Seq<char>
    decreases s.len(),
{
    if s.len() > 0 && s.last() == '-' {
        trim_end_dashes(s.drop_last())
    } else {
        s
    }
}

/// The slug of a key: non-alphanumeric characters become dashes, and dashes
/// at either end are dropped.
pub open spec fn slug_spec(key: Seq<char>) -> Seq<char> {
    trim_end_dashes(trim_start_dashes(dash_others(key)))
}

proof fn lemma_trim_start(s: Seq<char>, i: int)
    requires
        0 <= i <= s.len(),
        forall|k: int| 0 <= k < i ==> s[k] == '-',
        i < s.len() ==> s[i] != '-',
    ensures
        trim_start_dashes(s) == s.skip(i),
    decreases i,
{
    if i == 0 {
        assert(s.skip(0) =~= s);
    } else {
        let rest = s.drop_first();
        assert forall|k: int| 0 <= k < i - 1 implies rest[k] == '-' by {
            assert(rest[k] == s[k + 1]);
        }
        lemma_trim_start(rest, i - 1);
        assert(rest.skip(i - 1) =~= s.skip(i));
    }
}

proof fn lemma_trim_end(s: Seq<char>, j: int)
    requires
        0 <= j <= s.len(),
        forall|k: int| j <= k < s.len() ==> s[k] == '-',
        j > 0 ==> s[j - 1] != '-',
    ensures
        trim_end_dashes(s) == s.take(j),
    decreases s.len() - j,
{
    if j == s.len() {
        assert(s.take(j) =~= s);
    } else {
        let rest = s.drop_last();
        lemma_trim_end(rest, j);
        assert(rest.take(j) =~= s.take(j));
    }
}

proof fn lemma_trim_start_suffix(s: Seq<char>)
    ensures
        trim_start_dashes(s).len() <= s.len(),
        forall|k: int|
            0 <= k < trim_start_dashes(s).len() ==> #[trigger] trim_start_dashes(s)[k] == s[k
                + s.len() - trim_start_dashes(s).len()],
        trim_start_dashes(s).len() > 0 ==> trim_start_dashes(s)[0] != '-',
    decreases s.len(),
{
    if s.len() > 0 && s[0] == '-' {
        let rest = s.drop_first();
        lemma_trim_start_suffix(rest);
        assert forall|k: int| 0 <= k < trim_start_dashes(s).len() implies #[trigger] trim_start_dashes(s)[k]
            == s[k + s.len() - trim_start_dashes(s).len()] by {
            assert(rest[k + rest.len() - trim_start_dashes(rest).len()] == s[k + s.len()
                - trim_start_dashes(s).len()]);
        }
    }
}

proof fn lemma_trim_end_prefix(s: Seq<char>)
    ensures
        trim_end_dashes(s).len() <= s.len(),
        forall|k: int| 0 <= k < trim_end_dashes(s).len() ==> #[trigger] trim_end_dashes(s)[k] == s[k],
        trim_end_dashes(s).len() > 0 ==> trim_end_dashes(s).last() != '-',
    decreases s.len(),
{
    if s.len() > 0 && s.last() == '-' {
        lemma_trim_end_prefix(s.drop_last());
    }
}

/// A slug is made of ASCII letters, digits and dashes, and neither starts nor
/// ends with a dash.
pub proof fn law_slug_shape(key: Seq<char>)
    ensures
        forall|k: int|
            0 <= k < slug_spec(key).len() ==> is_ascii_alnum(#[trigger] slug_spec(key)[k])
                || slug_spec(key)[k] == '-',
        slug_spec(key).len() > 0 ==> slug_spec(key)[0] != '-' && slug_spec(key).last() != '-',
{
    let m = dash_others(key);
    let a = trim_start_dashes(m);
    let b = trim_end_dashes(a);
    lemma_trim_start_suffix(m);
    lemma_trim_end_prefix(a);
    assert forall|k: int| 0 <= k < b.len() implies is_ascii_alnum(#[trigger] b[k]) || b[k] == '-' by {
        assert(b[k] == a[k]);
        assert(a[k] == m[k + m.len() - a.len()]);
    }
    if b.len() > 0 {
        assert(b[0] == a[0]);
    }
}

/// The slug keeps every ASCII letter and digit of the key in place and turns
/// every other character into a dash, before the dashes at the ends are
/// trimmed.
pub proof fn law_slug_keeps_letters_and_digits(key: Seq<char>)
    ensures
        dash_others(key).len() == key.len(),
        forall|i: int|
            0 <= i < key.len() ==> {
                let c = key[i];
                let alnum = ('0' <= c && c <= '9') || ('a' <= c && c <= 'z') || ('A' <= c && c
                    <= 'Z');
                &&& alnum ==> #[trigger] dash_others(key)[i] == c
                &&& !alnum ==> dash_others(key)[i] == '-'
            },
{
}

/// A key made only of ASCII letters and digits is its own slug, so the dry run
/// reports `dryrun-<key>` for it.
pub proof fn law_alphanumeric_key_is_its_own_slug(key: Seq<char>)
    requires
        forall|i: int|
            0 <= i < key.len() ==> ('0' <= #[trigger] key[i] && key[i] <= '9') || ('a' <= key[i]
                && key[i] <= 'z') || ('A' <= key[i] && key[i] <= 'Z'),
    ensures
        slug_spec(key) == key,
{
    let m = dash_others(key);
    assert(m =~= key);
    if key.len() > 0 {
        assert(trim_start_dashes(m) == m);
        assert(trim_end_dashes(m) == m);
    }
}

/// The synthetic address the dry run reports: `<slug>.dryrun.playit.gg:<port>`.
pub open spec fn dry_run_address(desired: DesiredTunnel) -> Seq<char> {
    slug_spec(desired.key@) + ".dryrun.playit.gg:"@ + decimal(desired.port as nat)
}

/// The synthetic tunnel id the dry run reports: `dryrun-<slug>`.
pub open spec fn dry_run_id(desired: DesiredTunnel) -> Seq<char> {
    "dryrun-"@ + slug_spec(desired.key@)
}

/// The dry run is deterministic: desired tunnels with the same key and port
/// get the same id and address.
pub proof fn law_dry_run_deterministic(a: DesiredTunnel, b: DesiredTunnel)
    requires
        a.key@ == b.key@,
        a.port == b.port,
    ensures
        dry_run_id(a) == dry_run_id(b),
        dry_run_address(a) == dry_run_address(b),
{
}

impl DryRunProvider {
    /// The slug of a key: each character that is not an ASCII letter or digit
    /// becomes `-`, then dashes at both ends are trimmed.
    pub fn slug(key: &str) -> (s: String)
        ensures
            s@ == slug_spec(key@),
    {
        let v = chars_of(key);
        let n = v.len();
        let mut m: Vec<char> = Vec::new();
        let mut i: usize = 0;
        while i < n
            invariant
                n == v@.len(),
                v@ == key@,
                i <= n,
                m@ == dash_others(key@).take(i as int),
            decreases n - i,
        {
            let c = v[i];
            let alnum = ('0' <= c && c <= '9') || ('a' <= c && c <= 'z') || ('A' <= c && c <= 'Z');
            m.push(if alnum { c } else { '-' });
            assert(dash_others(key@).take(i + 1) =~= dash_others(key@).take(i as int).push(
                dash_others(key@)[i as int],
            ));
            i = i + 1;
        }
        assert(m@ =~= dash_others(key@));
        let mut lo: usize = 0;
        while lo < n && m[lo] == '-'
            invariant
                n == m@.len(),
                lo <= n,
                forall|k: int| 0 <= k < lo ==> m@[k] == '-',
            decreases n - lo,
        {
            lo = lo + 1;
        }
        let mut hi: usize = n;
        while hi > lo && m[hi - 1] == '-'
            invariant
                n == m@.len(),
                lo <= hi <= n,
                forall|k: int| hi <= k < n ==> m@[k] == '-',
            decreases hi,
        {
            hi = hi - 1;
        }
        proof {
            lemma_trim_start(m@, lo as int);
            let rest = m@.skip(lo as int);
            if hi > lo {
                assert(rest[hi - lo - 1] == m@[hi - 1]);
            }
            assert forall|k: int| hi - lo <= k < rest.len() implies rest[k] == '-' by {
                assert(rest[k] == m@[k + lo]);
            }
            lemma_trim_end(rest, hi - lo);
            assert(rest.take(hi - lo) =~= m@.subrange(lo as int, hi as int));
        }
        let mut out: Vec<char> = Vec::new();
        let mut j: usize = lo;
        while j < hi
            invariant
                n == m@.len(),
                lo <= j <= hi <= n,
                out@ == m@.subrange(lo as int, j as int),
            decreases hi - j,
        {
            out.push(m[j]);
            assert(m@.subrange(lo as int, j + 1) =~= m@.subrange(lo as int, j as int).push(
                m@[j as int],
            ));
            j = j + 1;
        }
        string_from_chars(&out)
    }

    /// Reports the tunnel it would provision: id `dryrun-<slug>`, address
    /// `<slug>.dryrun.playit.gg:<port>`, and a custom domain counted as
    /// ready exactly when one is requested. Never fails, and makes no call.
    pub fn ensure(&self, desired: &DesiredTunnel) -> (r: Result<ProvisionedTunnel, Error>)
        ensures
            r matches Ok(t) && t.tunnel_id@ == dry_run_id(*desired) && t.address@ == dry_run_address(
                *desired,
            ) && t.custom_domain_ready == desired.custom_domain is Some,
    {
        let slug = Self::slug(desired.key.as_str());
        let mut address = slug.clone();
        address.append(".dryrun.playit.gg:");
        let port = decimal_string(desired.port);
        address.append(port.as_str());
        let mut tunnel_id = String::from_str("dryrun-");
        tunnel_id.append(slug.as_str());
        Ok(
            ProvisionedTunnel {
                tunnel_id,
                address,
                custom_domain_ready: desired.custom_domain.is_some(),
            },
        )
    }

    /// Deleting does nothing and never fails.
    pub fn delete(&self, key: &str) -> (r: Result<(), Error>)
        ensures
            r is Ok,
    {
        Ok(())
    }
}

} // verus!
