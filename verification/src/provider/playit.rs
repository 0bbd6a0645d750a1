//! The decisions of the provider that talks to the playit.gg API as a
//! self-managed agent, using the V1 tunnel API.
//!
//! The API is RPC-style: every call is `POST /<path>` with a JSON body and an
//! `Authorization: <Kind>-Key <secret>` header, answered by an envelope of the
//! form `{"status":"success","data":…}` or `{"status":"error","data":{…}}`.
//! This module holds what is sent and what is decided from each answer; the
//! HTTP exchange itself is done by the caller.

use vstd::prelude::*;
use crate::crd::Protocol;
use crate::error::{json_error_display, serde_json_error_text, Error};
use serde_json::Error as JsonError;
use serde_json::Value as JsonValue;
use crate::provider::{DesiredTunnel, ProvisionedTunnel};
use crate::text::{chars_of, decimal, decimal_string, opt_str, str_eq, string_from_chars};

verus! {

/// A credential for the playit.gg API; it becomes an `Authorization` header.
#[derive(Clone)]
pub enum PlayitCredential {
    /// Agent secret key. A self-managed agent can create its own tunnels via
    /// the V1 API; an assignable agent is read-only.
    AgentKey(String),
    /// Account API key; playit cancelled these, so it is no working write path.
    ApiKey(String),
}

/// What `str::trim` returns for a string: the string without its leading and
/// trailing Unicode whitespace.
pub uninterp spec fn trimmed(s: Seq<char>) -> Seq<char>;

/// `str::trim`: the contract names the result `trimmed(s@)`, and states what
/// its documentation gives without the whitespace table, that the result is a
/// contiguous piece of `s`. Which characters count as whitespace is not stated.
#[verifier::external_body]
fn trim(s: &str) -> (r: &str)
    ensures
        r@ == trimmed(s@),
        r@.len() <= s@.len() && exists|i: int| 0 <= i <= s@.len() - r@.len() && r@ == #[trigger] s@.subrange(i, i + r@.len()),
{
    s.trim()
}

/// The `Authorization` header value of a credential.
pub open spec fn header_value_spec(c: PlayitCredential) -> Seq<char> {
    match c {
        PlayitCredential::AgentKey(v) => "Agent-Key "@ + trimmed(v@),
        PlayitCredential::ApiKey(v) => "Api-Key "@ + trimmed(v@),
    }
}

impl PlayitCredential {
    /// The `Authorization` header value: the key kind, a space, and the key
    /// with surrounding whitespace removed.
    pub fn header_value(&self) -> (h: String)
        ensures
            h@ == header_value_spec(*self),
    {
        match self {
            PlayitCredential::AgentKey(v) => {
                let mut h = String::from_str("Agent-Key ");
                h.append(trim(v.as_str()));
                h
            },
            PlayitCredential::ApiKey(v) => {
                let mut h = String::from_str("Api-Key ");
                h.append(trim(v.as_str()));
                h
            },
        }
    }
}

/// One `name = value` attribute of an agent tunnel config.
pub struct AgentTunnelAttr {
    pub name: String,
    pub value: String,
}

impl View for AgentTunnelAttr {
    type V = (Seq<char>, Seq<char>);

    open spec fn view(&self) -> (Seq<char>, Seq<char>) {
        (self.name@, self.value@)
    }
}

/// Agent tunnel config: a list of named attributes. Used both when writing
/// (create/config) and reading (rundata).
pub struct AgentTunnelConfig {
    pub fields: Vec<AgentTunnelAttr>,
}

impl View for AgentTunnelConfig {
    type V = Seq<(Seq<char>, Seq<char>)>;

    open spec fn view(&self) -> Seq<(Seq<char>, Seq<char>)> {
        self.fields@.map_values(|a: AgentTunnelAttr| a@)
    }
}

/// A tunnel of this agent as the run data reports it.
pub struct AgentTunnelV1 {
    pub id: String,
    pub name: Option<String>,
    /// Best public address, e.g. `host:port` or a custom domain.
    pub display_address: Option<String>,
    pub agent_config: AgentTunnelConfig,
}

/// The content of a reported tunnel.
pub struct TunnelView {
    pub id: Seq<char>,
    pub name: Option<Seq<char>>,
    pub display_address: Option<Seq<char>>,
    pub config: Seq<(Seq<char>, Seq<char>)>,
}

impl View for AgentTunnelV1 {
    type V = TunnelView;

    open spec fn view(&self) -> TunnelView {
        TunnelView {
            id: self.id@,
            name: opt_str(self.name),
            display_address: opt_str(self.display_address),
            config: self.agent_config@,
        }
    }
}

/// What the agent may do with its own tunnels.
pub struct AgentPermissions {
    pub is_self_managed: bool,
}

/// This agent's run data: its id, its permissions and its tunnels.
pub struct AgentRunDataV1 {
    pub agent_id: String,
    pub tunnels: Vec<AgentTunnelV1>,
    pub permissions: AgentPermissions,
}

/// The value of the first attribute named `name`, if any.
pub open spec fn field_value(fields: Seq<(Seq<char>, Seq<char>)>, name: Seq<char>) -> Option<Seq<char>>
    decreases fields.len(),
{
    if fields.len() == 0 {
        None
    } else if fields[0].0 == name {
        Some(fields[0].1)
    } else {
        field_value(fields.drop_first(), name)
    }
}

/// The first match of `field_value` sits at the first index whose name matches.
proof fn lemma_field_value_at(fields: Seq<(Seq<char>, Seq<char>)>, name: Seq<char>, i: int)
    requires
        0 <= i <= fields.len(),
        forall|k: int| 0 <= k < i ==> fields[k].0 != name,
        i < fields.len() ==> fields[i].0 == name,
    ensures
        field_value(fields, name) == (if i < fields.len() { Some(fields[i].1) } else { None }),
    decreases i,
{
    if i > 0 {
        let rest = fields.drop_first();
        assert forall|k: int| 0 <= k < i - 1 implies rest[k].0 != name by {
            assert(rest[k] == fields[k + 1]);
        }
        lemma_field_value_at(rest, name, i - 1);
    }
}

impl AgentTunnelV1 {
    /// The value of the first config attribute named `name`.
    pub fn field(&self, name: &str) -> (r: Option<&str>)
        ensures
            match r {
                Some(v) => field_value(self@.config, name@) == Some(v@),
                None => field_value(self@.config, name@) is None,
            },
    {
        let fields = &self.agent_config.fields;
        let n = fields.len();
        let mut i: usize = 0;
        while i < n
            invariant
                n == fields@.len(),
                i <= n,
                fields == &self.agent_config.fields,
                forall|k: int| 0 <= k < i ==> self@.config[k].0 != name@,
            decreases n - i,
        {
            if str_eq(fields[i].name.as_str(), name) {
                proof {
                    lemma_field_value_at(self@.config, name@, i as int);
                }
                return Some(fields[i].value.as_str());
            }
            i = i + 1;
        }
        proof {
            lemma_field_value_at(self@.config, name@, n as int);
        }
        None
    }
}

/// The config that points a tunnel at `ip:port`.
pub open spec fn local_config_spec(ip: Seq<char>, port: u16) -> Seq<(Seq<char>, Seq<char>)> {
    seq![("local_ip"@, ip), ("local_port"@, decimal(port as nat))]
}

/// The agent tunnel config that forwards to `ip:port`.
pub fn local_config(ip: &str, port: u16) -> (c: AgentTunnelConfig)
    ensures
        c@ == local_config_spec(ip@, port),
{
    let mut fields: Vec<AgentTunnelAttr> = Vec::new();
    fields.push(
        AgentTunnelAttr { name: String::from_str("local_ip"), value: String::from_str(ip) },
    );
    fields.push(
        AgentTunnelAttr { name: String::from_str("local_port"), value: decimal_string(port) },
    );
    let c = AgentTunnelConfig { fields };
    assert(c@ =~= local_config_spec(ip@, port));
    c
}

/// The playit tunnel name that correlates with a resource key.
pub open spec fn tunnel_name_spec(key: Seq<char>) -> Seq<char> {
    "k8s/"@ + key
}

/// The playit tunnel name for a resource key: `k8s/<key>`.
pub fn tunnel_name(key: &str) -> (n: String)
    ensures
        n@ == tunnel_name_spec(key@),
{
    let mut n = String::from_str("k8s/");
    n.append(key);
    n
}

/// The characters before the first `:` of an address (all of it when it has none).
pub open spec fn host_of(a: Seq<char>) -> Seq<char>
    decreases a.len(),
{
    if a.len() == 0 {
        a
    } else if a[0] == ':' {
        Seq::empty()
    } else {
        seq![a[0]] + host_of(a.drop_first())
    }
}

/// `host_of` stops at the first `:`.
proof fn lemma_host_of_prefix(a: Seq<char>, i: int)
    requires
        0 <= i <= a.len(),
        forall|k: int| 0 <= k < i ==> a[k] != ':',
        i < a.len() ==> a[i] == ':',
    ensures
        host_of(a) == a.take(i),
    decreases i,
{
    if i == 0 {
        if a.len() == 0 {
            assert(a =~= a.take(0));
        } else {
            assert(host_of(a) =~= a.take(0));
        }
    } else {
        let rest = a.drop_first();
        assert forall|k: int| 0 <= k < i - 1 implies rest[k] != ':' by {
            assert(rest[k] == a[k + 1]);
        }
        lemma_host_of_prefix(rest, i - 1);
        assert(seq![a[0]] + rest.take(i - 1) =~= a.take(i));
    }
}

/// The host part of a `host:port` address (`split(':').next()`).
pub fn host_part(a: &str) -> (h: String)
    ensures
        h@ == host_of(a@),
{
    let v = chars_of(a);
    let n = v.len();
    let mut i: usize = 0;
    while i < n && v[i] != ':'
        invariant
            n == v@.len(),
            v@ == a@,
            i <= n,
            forall|k: int| 0 <= k < i ==> v@[k] != ':',
        decreases n - i,
    {
        i = i + 1;
    }
    proof {
        lemma_host_of_prefix(a@, i as int);
    }
    let mut out: Vec<char> = Vec::new();
    let mut j: usize = 0;
    while j < i
        invariant
            n == v@.len(),
            i <= n,
            j <= i,
            out@ == v@.take(j as int),
        decreases i - j,
    {
        out.push(v[j]);
        assert(v@.take(j + 1) =~= v@.take(j as int).push(v@[j as int]));
        j = j + 1;
    }
    string_from_chars(&out)
}

/// A requested custom domain counts as ready when the tunnel's public address
/// already is that domain (with or without a port).
pub open spec fn custom_domain_ready_spec(
    custom_domain: Option<Seq<char>>,
    display_address: Option<Seq<char>>,
) -> bool {
    match (custom_domain, display_address) {
        (Some(cd), Some(a)) => host_of(a) == cd,
        _ => false,
    }
}

/// `d` is the host part of the address `s`: a prefix without `:` that ends
/// the address or is followed by `:`.
pub open spec fn is_host_part(d: Seq<char>, s: Seq<char>) -> bool {
    &&& d.len() <= s.len()
    &&& s.take(d.len() as int) == d
    &&& forall|k: int| 0 <= k < d.len() ==> d[k] != ':'
    &&& (d.len() == s.len() || s[d.len() as int] == ':')
}

proof fn lemma_host_of_is_host_part(d: Seq<char>, s: Seq<char>)
    ensures
        (host_of(s) == d) <==> is_host_part(d, s),
    decreases s.len(),
{
    if s.len() == 0 {
        if d.len() == 0 {
            assert(s =~= d);
            assert(s.take(0) =~= d);
        }
    } else if s[0] == ':' {
        if d.len() == 0 {
            assert(host_of(s) =~= d);
            assert(s.take(0) =~= d);
        } else if is_host_part(d, s) {
            assert(s.take(d.len() as int)[0] == d[0]);
        }
    } else {
        let s1 = s.drop_first();
        if d.len() == 0 {
            assert(host_of(s).len() >= 1);
        } else {
            let d1 = d.drop_first();
            lemma_host_of_is_host_part(d1, s1);
            if host_of(s) == d {
                assert(host_of(s)[0] == s[0]);
                assert(host_of(s1) =~= d1) by {
                    assert(host_of(s) =~= seq![s[0]] + host_of(s1));
                }
                assert(d =~= seq![s[0]] + d1);
                assert(s.take(d.len() as int) =~= seq![s[0]] + s1.take(d1.len() as int));
                assert(s.take(d.len() as int) =~= d);
                assert forall|k: int| 0 <= k < d.len() implies d[k] != ':' by {
                    if k > 0 {
                        assert(d[k] == d1[k - 1]);
                    }
                }
                if d.len() < s.len() {
                    assert(s[d.len() as int] == s1[d1.len() as int]);
                }
            }
            if is_host_part(d, s) {
                assert(s.take(d.len() as int)[0] == s[0]);
                assert(s1.take(d1.len() as int) =~= d1) by {
                    assert forall|k: int| 0 <= k < d1.len() implies s1.take(d1.len() as int)[k]
                        == d1[k] by {
                        assert(s.take(d.len() as int)[k + 1] == d[k + 1]);
                    }
                }
                assert forall|k: int| 0 <= k < d1.len() implies d1[k] != ':' by {
                    assert(d1[k] == d[k + 1]);
                }
                if d1.len() < s1.len() {
                    assert(s1[d1.len() as int] == s[d.len() as int]);
                }
                assert(is_host_part(d1, s1));
                assert(host_of(s) =~= seq![s[0]] + d1);
                assert(d =~= seq![s[0]] + d1);
            }
        }
    }
}

/// A requested custom domain counts as ready exactly when the tunnel's display
/// address is that domain, alone or followed by `:` and anything (a port):
/// the domain is a prefix of the address, holds no `:`, and is followed by
/// the end of the address or a `:`. Without a requested domain, or without
/// an address, it is never ready.
pub proof fn law_custom_domain_ready_means_host(cd: Option<Seq<char>>, a: Option<Seq<char>>)
    ensures
        custom_domain_ready_spec(cd, a) <==> (cd is Some && a is Some && {
            let d = cd->0;
            let s = a->0;
            &&& d.len() <= s.len()
            &&& s.take(d.len() as int) == d
            &&& forall|k: int| 0 <= k < d.len() ==> d[k] != ':'
            &&& (d.len() == s.len() || s[d.len() as int] == ':')
        }),
{
    if cd is Some && a is Some {
        lemma_host_of_is_host_part(cd->0, a->0);
    }
}

/// Whether the tunnel's current public address already is the requested custom
/// domain. Attaching a domain is not automated; once it is attached in the
/// dashboard this reports it.
pub fn custom_domain_ready(desired: &DesiredTunnel, tunnel: &AgentTunnelV1) -> (r: bool)
    ensures
        r == custom_domain_ready_spec(opt_str(desired.custom_domain), tunnel@.display_address),
{
    match (&desired.custom_domain, &tunnel.display_address) {
        (Some(cd), Some(a)) => {
            let host = host_part(a.as_str());
            str_eq(host.as_str(), cd.as_str())
        },
        _ => false,
    }
}

/// The message of the refusal to write with an agent that is not self-managed.
pub open spec fn not_self_managed_text() -> Seq<char> {
    "this playit agent is not self-managed, so it can't create or modify tunnels. Claim a self-managed agent (agent_type=self-managed) and give the operator its key via PLAYIT_AGENT_KEY."@
}

/// Guard: writes only work for a self-managed agent.
pub fn require_self_managed(rd: &AgentRunDataV1) -> (r: Result<(), Error>)
    ensures
        rd.permissions.is_self_managed ==> r is Ok,
        !rd.permissions.is_self_managed ==> (r matches Err(Error::Provider(m)) && m@ == not_self_managed_text()),
{
    if rd.permissions.is_self_managed {
        Ok(())
    } else {
        Err(Error::Provider(String::from_str("this playit agent is not self-managed, so it can't create or modify tunnels. Claim a self-managed agent (agent_type=self-managed) and give the operator its key via PLAYIT_AGENT_KEY.")))
    }
}

/// Different resource keys give different tunnel names, so each resource is
/// correlated with its own tunnel.
pub proof fn law_tunnel_name_injective(a: Seq<char>, b: Seq<char>)
    requires
        tunnel_name_spec(a) == tunnel_name_spec(b),
    ensures
        a == b,
{
    let p = "k8s/"@;
    assert(a =~= tunnel_name_spec(a).skip(p.len() as int));
    assert(b =~= tunnel_name_spec(b).skip(p.len() as int));
}

/// Reading back the config that points at `ip:port` gives `ip` as
/// `local_ip` and the decimal `port` as `local_port`.
pub proof fn law_local_config_round_trip(ip: Seq<char>, port: u16)
    ensures
        field_value(local_config_spec(ip, port), "local_ip"@) == Some(ip),
        field_value(local_config_spec(ip, port), "local_port"@) == Some(decimal(port as nat)),
{
    reveal_strlit("local_ip");
    reveal_strlit("local_port");
    let c = local_config_spec(ip, port);
    assert(c[0].0 == "local_ip"@);
    assert(c[1].0 == "local_port"@);
    assert("local_ip"@ != "local_port"@) by {
        assert("local_ip"@.len() != "local_port"@.len());
    }
    assert(c.drop_first()[0] == c[1]);
    assert(field_value(c.drop_first(), "local_port"@) == Some(c[1].1));
}

// --- the answer envelope -----------------------------------------------------

/// What the caller reads off an answer envelope: its `status` string, its
/// `data` and, for an error, `data.type` and `data.message`.
pub struct Envelope<D> {
    pub status: Option<String>,
    pub data: Option<D>,
    pub error_type: Option<String>,
    pub error_message: Option<String>,
}

/// The envelope reports success.
pub open spec fn envelope_succeeded<D>(env: Envelope<D>) -> bool {
    opt_str(env.status) == Some("success"@)
}

/// The text of an optional string, or `default` when absent.
pub open spec fn text_or(o: Option<Seq<char>>, default: Seq<char>) -> Seq<char> {
    match o {
        Some(s) => s,
        None => default,
    }
}

/// The message of a failed call to `path`.
pub open spec fn call_error_text(path: Seq<char>, kind: Option<Seq<char>>, msg: Option<Seq<char>>) -> Seq<char> {
    "playit "@ + path + ": "@ + text_or(kind, "unknown"@) + " \u{2014} "@ + text_or(msg, ""@)
}

/// An optional string's text, or the given default.
fn string_or(o: &Option<String>, default: &str) -> (s: String)
    ensures
        s@ == text_or(opt_str(*o), default@),
{
    match o {
        Some(v) => v.clone(),
        None => String::from_str(default),
    }
}

/// The outcome of a call to `path`: the envelope's `data` on success, else an
/// `Error::Provider` naming the path, the error type and its message.
pub fn decode_envelope<D>(path: &str, env: Envelope<D>) -> (r: Result<Option<D>, Error>)
    ensures
        envelope_succeeded(env) ==> (r matches Ok(d) && d == env.data),
        !envelope_succeeded(env) ==> (r matches Err(Error::Provider(m)) && m@ == call_error_text(
            path@,
            opt_str(env.error_type),
            opt_str(env.error_message),
        )),
{
    if opt_is(&env.status, "success") {
        return Ok(env.data);
    }
    let mut m = String::from_str("playit ");
    m.append(path);
    m.append(": ");
    let kind = string_or(&env.error_type, "unknown");
    m.append(kind.as_str());
    m.append(" \u{2014} ");
    let msg = string_or(&env.error_message, "");
    m.append(msg.as_str());
    Err(Error::Provider(m))
}

/// A JSON value, carried through unexamined.
#[verifier::external_type_specification]
#[verifier::external_body]
pub struct ExJsonValue(JsonValue);

/// What serde_json reads off an answer body: the parser's message when the
/// text is not JSON, else its `status`, `data.type` and `data.message`
/// strings (each absent when missing or not a string) and its `data` value.
pub uninterp spec fn answer_reading(text: Seq<char>) -> std::result::Result<
    (Option<Seq<char>>, Option<Seq<char>>, Option<Seq<char>>, Option<JsonValue>),
    Seq<char>,
>;

/// `serde_json::from_str` on an answer body, and the envelope fields read off
/// the parsed value (`get("status")`, `pointer("/data/type")`,
/// `pointer("/data/message")`, each through `as_str`, and `get("data")`),
/// named `answer_reading`; a parse failure's text is `json_error_display`.
#[verifier::external_body]
fn parse_answer(text: &str) -> (r: std::result::Result<Envelope<JsonValue>, JsonError>)
    ensures
        r matches Ok(env) ==> (answer_reading(text@) matches Ok(read) && read == (
            opt_str(env.status),
            opt_str(env.error_type),
            opt_str(env.error_message),
            env.data,
        )),
        r matches Err(e) ==> (answer_reading(text@) matches Err(parse) && parse
            == json_error_display(e)),
{
    let v: JsonValue = serde_json::from_str(text)?;
    let status = v.get("status").and_then(|s| s.as_str()).map(|s| s.to_string());
    let error_type = v.pointer("/data/type").and_then(|s| s.as_str()).map(|s| s.to_string());
    let error_message = v.pointer("/data/message").and_then(|s| s.as_str()).map(|s| s.to_string());
    Ok(Envelope { status, data: v.get("data").cloned(), error_type, error_message })
}

/// The message of an answer to `path` whose body `text` is not JSON; `parse`
/// is the parser's message.
pub open spec fn undecodable_text(path: Seq<char>, parse: Seq<char>, text: Seq<char>) -> Seq<char> {
    "decoding "@ + path + " response: "@ + parse + "; body="@ + text
}

/// The outcome of the answer body `text` of a call to `path`: a body that is
/// not JSON fails with its decoding message; a successful envelope gives its
/// `data`; any other envelope fails with its error type and message.
pub fn decode_answer(path: &str, text: &str) -> (r: std::result::Result<Option<JsonValue>, Error>)
    ensures
        answer_reading(text@) matches Err(parse) ==> (r matches Err(Error::Provider(m)) && m@
            == undecodable_text(path@, parse, text@)),
        answer_reading(text@) matches Ok((status, kind, msg, data)) ==> if status == Some(
            "success"@,
        ) {
            r matches Ok(d) && d == data
        } else {
            r matches Err(Error::Provider(m)) && m@ == call_error_text(path@, kind, msg)
        },
{
    match parse_answer(text) {
        Ok(env) => decode_envelope(path, env),
        Err(e) => {
            let mut m = String::from_str("decoding ");
            m.append(path);
            m.append(" response: ");
            let detail = serde_json_error_text(&e);
            m.append(detail.as_str());
            m.append("; body=");
            m.append(text);
            Err(Error::Provider(m))
        },
    }
}

/// The failure of sending a call to `path`; `detail` is the transport's message.
pub fn transport_error(path: &str, detail: &str) -> (e: Error)
    ensures
        e matches Error::Provider(m) && m@ == "HTTP "@ + path@ + ": "@ + detail@,
{
    let mut m = String::from_str("HTTP ");
    m.append(path);
    m.append(": ");
    m.append(detail);
    Error::Provider(m)
}

/// The failure of reading the answer to `path`; `detail` is the transport's message.
pub fn read_error(path: &str, detail: &str) -> (e: Error)
    ensures
        e matches Error::Provider(m) && m@ == "reading "@ + path@ + " response: "@ + detail@,
{
    let mut m = String::from_str("reading ");
    m.append(path);
    m.append(" response: ");
    m.append(detail);
    Error::Provider(m)
}

/// The failure of reading the `data` of a successful answer to `path` as the
/// expected shape; `detail` is the decoder's message.
pub fn data_error(path: &str, detail: &str) -> (e: Error)
    ensures
        e matches Error::Provider(m) && m@ == "decoding "@ + path@ + " data: "@ + detail@,
{
    let mut m = String::from_str("decoding ");
    m.append(path);
    m.append(" data: ");
    m.append(detail);
    Error::Provider(m)
}

// --- request bodies (V1) ----------------------------------------------------

/// Plain TCP/UDP port allocation.
pub struct RawPorts {
    pub port_type: String,
    pub port_count: u16,
    pub software_description: String,
}

/// How a new tunnel is exposed.
pub enum ProtocolCreate {
    /// A named playit tunnel type, e.g. `https`, `minecraft-java`.
    TunnelType(String),
    /// Plain TCP/UDP port allocation.
    RawPorts(RawPorts),
}

/// The agent that serves a new tunnel, and where it forwards to.
pub struct AgentOrigin {
    pub agent_id: Option<String>,
    pub config: AgentTunnelConfig,
}

/// The origin of a new tunnel.
pub enum OriginCreate {
    Agent(AgentOrigin),
}

/// Allocate the public endpoint in a region.
pub struct UseAllocRegion {
    pub region: String,
    pub port: Option<u16>,
}

/// The public endpoint of a new tunnel.
pub enum EndpointCreate {
    Region(UseAllocRegion),
}

/// Body of `/v1/tunnels/create`.
pub struct ReqTunnelsCreateV1 {
    pub name: String,
    pub protocol: ProtocolCreate,
    pub origin: OriginCreate,
    pub endpoint: EndpointCreate,
    pub enabled: bool,
    pub firewall_id: Option<String>,
}

/// Body of `/v1/tunnels/config`.
pub struct ReqTunnelsConfigV1 {
    pub tunnel_id: String,
    pub new_agent_id: Option<String>,
    pub new_config: Option<AgentTunnelConfig>,
}

/// Body of `/tunnels/delete`.
pub struct ReqDelete {
    pub tunnel_id: String,
}

/// The playit port type of a protocol.
pub open spec fn port_type_spec(p: Protocol) -> Seq<char> {
    match p {
        Protocol::Tcp => "tcp"@,
        Protocol::Udp => "udp"@,
        Protocol::Both => "both"@,
    }
}

/// `p` is how a tunnel of `desired` is exposed: its tunnel type when it names
/// one, else raw ports of its protocol, with at least one port.
pub open spec fn protocol_for(p: ProtocolCreate, desired: DesiredTunnel) -> bool {
    match desired.tunnel_type {
        Some(tt) => p matches ProtocolCreate::TunnelType(t) && t@ == tt@,
        None => p matches ProtocolCreate::RawPorts(r) && r.port_type@ == port_type_spec(
            desired.protocol,
        ) && r.port_count == (if desired.port_count >= 1 {
            desired.port_count
        } else {
            1
        }) && r.software_description@ == "playit-operator"@,
    }
}

/// A tunnel without a tunnel type is created as raw ports of its own
/// protocol, as the playit API spells it: TCP as `tcp`, UDP as `udp`, both as
/// `both`; with at least one port, and exactly the requested count when one is
/// requested. A named tunnel type is passed through instead.
pub proof fn law_protocol_names(p: ProtocolCreate, desired: DesiredTunnel)
    requires
        protocol_for(p, desired),
    ensures
        desired.tunnel_type matches Some(tt) ==> (p matches ProtocolCreate::TunnelType(t) && t@
            == tt@),
        desired.tunnel_type is None ==> (p matches ProtocolCreate::RawPorts(r) && {
            &&& desired.protocol == Protocol::Tcp ==> r.port_type@ == "tcp"@
            &&& desired.protocol == Protocol::Udp ==> r.port_type@ == "udp"@
            &&& desired.protocol == Protocol::Both ==> r.port_type@ == "both"@
            &&& r.port_count >= 1
            &&& desired.port_count >= 1 ==> r.port_count == desired.port_count
            &&& r.software_description@ == "playit-operator"@
        }),
        desired.tunnel_type is None && desired.protocol == Protocol::Tcp ==> (p matches ProtocolCreate::RawPorts(r)
            && r.port_type@ != "udp"@ && r.port_type@ != "both"@),
{
    reveal_strlit("tcp");
    reveal_strlit("udp");
    reveal_strlit("both");
    assert("tcp"@[0] != "udp"@[0]);
    assert("tcp"@.len() != "both"@.len());
}

/// How a tunnel of `desired` is exposed. A tunnel type (e.g. `https`)
/// overrides the raw protocol and port count.
pub fn build_protocol(desired: &DesiredTunnel) -> (p: ProtocolCreate)
    ensures
        protocol_for(p, *desired),
{
    if let Some(tt) = &desired.tunnel_type {
        return ProtocolCreate::TunnelType(tt.clone());
    }
    let port_type = match desired.protocol {
        Protocol::Tcp => String::from_str("tcp"),
        Protocol::Udp => String::from_str("udp"),
        Protocol::Both => String::from_str("both"),
    };
    let port_count = if desired.port_count >= 1 { desired.port_count } else { 1 };
    ProtocolCreate::RawPorts(
        RawPorts {
            port_type,
            port_count,
            software_description: String::from_str("playit-operator"),
        },
    )
}

/// The region a tunnel is allocated in: the requested one, else `global`.
pub open spec fn region_spec(region: Option<Seq<char>>) -> Seq<char> {
    match region {
        Some(r) => r,
        None => "global"@,
    }
}

/// `req` creates the tunnel of `desired` on the agent `agent_id`.
pub open spec fn create_request_for(
    req: ReqTunnelsCreateV1,
    desired: DesiredTunnel,
    agent_id: Seq<char>,
) -> bool {
    &&& req.name@ == tunnel_name_spec(desired.key@)
    &&& protocol_for(req.protocol, desired)
    &&& req.origin matches OriginCreate::Agent(o) && opt_str(o.agent_id) == Some(agent_id)
        && o.config@ == local_config_spec(desired.local_target@, desired.port)
    &&& req.endpoint matches EndpointCreate::Region(u) && u.region@ == region_spec(
        opt_str(desired.region),
    ) && u.port is None
    &&& req.enabled
    &&& req.firewall_id is None
}

/// The request that creates the tunnel of `desired` on the agent `agent_id`,
/// enabled, in the requested region or else the `global` one.
pub fn create_request(desired: &DesiredTunnel, agent_id: &str) -> (req: ReqTunnelsCreateV1)
    ensures
        create_request_for(req, *desired, agent_id@),
{
    let region = match &desired.region {
        Some(r) => r.clone(),
        None => String::from_str("global"),
    };
    ReqTunnelsCreateV1 {
        name: tunnel_name(desired.key.as_str()),
        protocol: build_protocol(desired),
        origin: OriginCreate::Agent(
            AgentOrigin {
                agent_id: Some(String::from_str(agent_id)),
                config: local_config(desired.local_target.as_str(), desired.port),
            },
        ),
        endpoint: EndpointCreate::Region(UseAllocRegion { region, port: None }),
        enabled: true,
        firewall_id: None,
    }
}

/// `req` points the tunnel `tunnel_id` at the target of `desired`.
pub open spec fn config_request_for(
    req: ReqTunnelsConfigV1,
    tunnel_id: Seq<char>,
    desired: DesiredTunnel,
) -> bool {
    &&& req.tunnel_id@ == tunnel_id
    &&& req.new_agent_id is None
    &&& req.new_config matches Some(c) && c@ == local_config_spec(desired.local_target@, desired.port)
}

/// The request that points the tunnel `tunnel_id` at the target of `desired`.
pub fn config_request(tunnel_id: &str, desired: &DesiredTunnel) -> (req: ReqTunnelsConfigV1)
    ensures
        config_request_for(req, tunnel_id@, *desired),
{
    ReqTunnelsConfigV1 {
        tunnel_id: String::from_str(tunnel_id),
        new_agent_id: None,
        new_config: Some(local_config(desired.local_target.as_str(), desired.port)),
    }
}

/// The request that deletes the tunnel `tunnel_id`.
pub fn delete_request(tunnel_id: &str) -> (req: ReqDelete)
    ensures
        req.tunnel_id@ == tunnel_id@,
{
    ReqDelete { tunnel_id: String::from_str(tunnel_id) }
}

// --- decisions of `ensure` and `delete` ----------------------------------------

/// The reported tunnels, each by its content.
pub open spec fn tunnel_views(ts: Seq<AgentTunnelV1>) -> Seq<TunnelView> {
    ts.map_values(|t: AgentTunnelV1| t@)
}

/// `i` is the first tunnel named `name`.
pub open spec fn first_named(ts: Seq<TunnelView>, name: Seq<char>, i: int) -> bool {
    &&& 0 <= i < ts.len()
    &&& ts[i].name == Some(name)
    &&& forall|k: int| 0 <= k < i ==> ts[k].name != Some(name)
}

/// No tunnel is named `name`.
pub open spec fn none_named(ts: Seq<TunnelView>, name: Seq<char>) -> bool {
    forall|k: int| 0 <= k < ts.len() ==> ts[k].name != Some(name)
}

/// `i` is the first tunnel with the id `id`.
pub open spec fn first_with_id(ts: Seq<TunnelView>, id: Seq<char>, i: int) -> bool {
    &&& 0 <= i < ts.len()
    &&& ts[i].id == id
    &&& forall|k: int| 0 <= k < i ==> ts[k].id != id
}

/// No tunnel has the id `id`.
pub open spec fn none_with_id(ts: Seq<TunnelView>, id: Seq<char>) -> bool {
    forall|k: int| 0 <= k < ts.len() ==> ts[k].id != id
}

/// Whether an optional string holds exactly `s`.
fn opt_is(o: &Option<String>, s: &str) -> (r: bool)
    ensures
        r == (opt_str(*o) == Some(s@)),
{
    match o {
        Some(v) => str_eq(v.as_str(), s),
        None => false,
    }
}

/// The index of the first tunnel named `name`, if any.
pub fn find_named(ts: &Vec<AgentTunnelV1>, name: &str) -> (r: Option<usize>)
    ensures
        match r {
            Some(i) => first_named(tunnel_views(ts@), name@, i as int),
            None => none_named(tunnel_views(ts@), name@),
        },
{
    let n = ts.len();
    let mut i: usize = 0;
    while i < n
        invariant
            n == ts@.len(),
            i <= n,
            forall|k: int| 0 <= k < i ==> tunnel_views(ts@)[k].name != Some(name@),
        decreases n - i,
    {
        if opt_is(&ts[i].name, name) {
            return Some(i);
        }
        i = i + 1;
    }
    None
}

/// The index of the first tunnel with the id `id`, if any.
pub fn find_with_id(ts: &Vec<AgentTunnelV1>, id: &str) -> (r: Option<usize>)
    ensures
        match r {
            Some(i) => first_with_id(tunnel_views(ts@), id@, i as int),
            None => none_with_id(tunnel_views(ts@), id@),
        },
{
    let n = ts.len();
    let mut i: usize = 0;
    while i < n
        invariant
            n == ts@.len(),
            i <= n,
            forall|k: int| 0 <= k < i ==> tunnel_views(ts@)[k].id != id@,
        decreases n - i,
    {
        if str_eq(ts[i].id.as_str(), id) {
            return Some(i);
        }
        i = i + 1;
    }
    None
}

/// The message of the refusal of a target that is not an IP address.
pub open spec fn not_an_ip_text(target: Seq<char>) -> Seq<char> {
    "resolved local_ip `"@ + target
        + "` is not an IP address \u{2014} playit forwards to a ClusterIP, so headless Services (clusterIP: None) aren't supported"@
}

/// The first check of `ensure`: playit forwards to a ClusterIP, so a target
/// that is not an IP address (`target_is_ip` is the result of parsing it as
/// one) is refused before any call.
pub fn check_target(desired: &DesiredTunnel, target_is_ip: bool) -> (r: Result<(), Error>)
    ensures
        target_is_ip ==> r is Ok,
        !target_is_ip ==> (r matches Err(Error::Provider(m)) && m@ == not_an_ip_text(
            desired.local_target@,
        )),
{
    if target_is_ip {
        Ok(())
    } else {
        let mut m = String::from_str("resolved local_ip `");
        m.append(desired.local_target.as_str());
        m.append("` is not an IP address \u{2014} playit forwards to a ClusterIP, so headless Services (clusterIP: None) aren't supported");
        Err(Error::Provider(m))
    }
}

/// The tunnel's forwarding target differs from the desired `ip:port`.
pub open spec fn drifted(config: Seq<(Seq<char>, Seq<char>)>, desired: DesiredTunnel) -> bool {
    ||| field_value(config, "local_ip"@) != Some(desired.local_target@)
    ||| field_value(config, "local_port"@) != Some(decimal(desired.port as nat))
}

/// The text of an optional string, empty when absent.
pub open spec fn text_or_empty(o: Option<Seq<char>>) -> Seq<char> {
    match o {
        Some(s) => s,
        None => Seq::empty(),
    }
}

/// `p` reports the tunnel `t` for `desired`.
pub open spec fn reports(p: ProvisionedTunnel, t: TunnelView, desired: DesiredTunnel) -> bool {
    &&& p.tunnel_id@ == t.id
    &&& p.address@ == text_or_empty(t.display_address)
    &&& p.custom_domain_ready == custom_domain_ready_spec(
        opt_str(desired.custom_domain),
        t.display_address,
    )
}

/// What `ensure` does once it has this agent's run data.
pub enum EnsurePlan {
    /// A tunnel of the desired name exists: report it, after sending
    /// `reconfigure` when its forwarding target has drifted.
    Existing { tunnel: ProvisionedTunnel, reconfigure: Option<ReqTunnelsConfigV1> },
    /// No tunnel of the desired name exists: create it with this request.
    Create(ReqTunnelsCreateV1),
}

/// The report of a tunnel for `desired`.
fn report(t: &AgentTunnelV1, desired: &DesiredTunnel) -> (p: ProvisionedTunnel)
    ensures
        reports(p, t@, *desired),
{
    let address = match &t.display_address {
        Some(a) => a.clone(),
        None => String::new(),
    };
    ProvisionedTunnel {
        tunnel_id: t.id.clone(),
        address,
        custom_domain_ready: custom_domain_ready(desired, t),
    }
}

/// The first tunnel named `name`, if any.
pub open spec fn named_tunnel(ts: Seq<TunnelView>, name: Seq<char>) -> Option<TunnelView>
    decreases ts.len(),
{
    if ts.len() == 0 {
        None
    } else if ts[0].name == Some(name) {
        Some(ts[0])
    } else {
        named_tunnel(ts.drop_first(), name)
    }
}

/// `named_tunnel` finds the tunnel at the first index that carries the name.
proof fn lemma_named_tunnel_at(ts: Seq<TunnelView>, name: Seq<char>, i: int)
    requires
        0 <= i <= ts.len(),
        forall|k: int| 0 <= k < i ==> ts[k].name != Some(name),
        i < ts.len() ==> ts[i].name == Some(name),
    ensures
        named_tunnel(ts, name) == (if i < ts.len() { Some(ts[i]) } else { None }),
    decreases i,
{
    if i > 0 {
        let rest = ts.drop_first();
        assert forall|k: int| 0 <= k < i - 1 implies rest[k].name != Some(name) by {
            assert(rest[k] == ts[k + 1]);
        }
        lemma_named_tunnel_at(rest, name, i - 1);
    }
}

/// The write that `ensure` needs on the listed tunnels `ts`: none when the
/// tunnel named `k8s/<key>` forwards to the desired target, a reconfiguration
/// when its target drifted, a creation when there is no such tunnel.
pub enum EnsureWrite {
    NoWrite,
    Reconfigure,
    Create,
}

/// The write that `ensure` needs for `desired` on the listed tunnels `ts`.
pub open spec fn ensure_write(ts: Seq<TunnelView>, desired: DesiredTunnel) -> EnsureWrite {
    match named_tunnel(ts, tunnel_name_spec(desired.key@)) {
        None => EnsureWrite::Create,
        Some(t) => if drifted(t.config, desired) {
            EnsureWrite::Reconfigure
        } else {
            EnsureWrite::NoWrite
        },
    }
}

/// The write that a plan asks for.
pub open spec fn plan_write(plan: EnsurePlan) -> EnsureWrite {
    match plan {
        EnsurePlan::Create(_) => EnsureWrite::Create,
        EnsurePlan::Existing { reconfigure: Some(_), .. } => EnsureWrite::Reconfigure,
        EnsurePlan::Existing { reconfigure: None, .. } => EnsureWrite::NoWrite,
    }
}

/// The decision of `ensure` on the run data `rd`: the tunnel is found by its
/// name `k8s/<key>`. A found tunnel is reported, and reconfigured first when
/// its target drifted; a missing one is created. Writes need a self-managed
/// agent; reporting an up-to-date tunnel does not.
pub fn plan_ensure(desired: &DesiredTunnel, rd: &AgentRunDataV1) -> (r: Result<EnsurePlan, Error>)
    ensures
        ({
            let ts = tunnel_views(rd.tunnels@);
            let w = ensure_write(ts, *desired);
            if w != EnsureWrite::NoWrite && !rd.permissions.is_self_managed {
                r matches Err(Error::Provider(m)) && m@ == not_self_managed_text()
            } else {
                &&& r matches Ok(plan) && plan_write(plan) == w
                &&& r matches Ok(EnsurePlan::Create(req)) ==> create_request_for(
                    req,
                    *desired,
                    rd.agent_id@,
                )
                &&& r matches Ok(EnsurePlan::Existing { tunnel, reconfigure }) ==> {
                    &&& named_tunnel(ts, tunnel_name_spec(desired.key@)) matches Some(t)
                    &&& reports(tunnel, t, *desired)
                    &&& reconfigure matches Some(req) ==> config_request_for(req, t.id, *desired)
                }
            }
        }),
{
    let name = tunnel_name(desired.key.as_str());
    let found = find_named(&rd.tunnels, name.as_str());
    proof {
        let ts = tunnel_views(rd.tunnels@);
        match found {
            Some(i) => lemma_named_tunnel_at(ts, name@, i as int),
            None => lemma_named_tunnel_at(ts, name@, ts.len() as int),
        }
    }
    match found {
        Some(i) => {
            let t = &rd.tunnels[i];
            assert(tunnel_views(rd.tunnels@)[i as int] == t@);
            let want_port = decimal_string(desired.port);
            let ip_same = match t.field("local_ip") {
                Some(v) => str_eq(v, desired.local_target.as_str()),
                None => false,
            };
            let port_same = match t.field("local_port") {
                Some(v) => str_eq(v, want_port.as_str()),
                None => false,
            };
            let drift = !ip_same || !port_same;
            let reconfigure = if drift {
                require_self_managed(rd)?;
                Some(config_request(t.id.as_str(), desired))
            } else {
                None
            };
            let tunnel = report(t, desired);
            Ok(EnsurePlan::Existing { tunnel, reconfigure })
        },
        None => {
            require_self_managed(rd)?;
            Ok(EnsurePlan::Create(create_request(desired, rd.agent_id.as_str())))
        },
    }
}

/// The report of `ensure` after it created the tunnel `id`: the run data
/// fetched again (`rd`) gives the freshly assigned address; a tunnel missing
/// from it is reported with an empty address and no custom domain.
pub fn report_created(desired: &DesiredTunnel, id: String, rd: &AgentRunDataV1) -> (p: ProvisionedTunnel)
    ensures
        p.tunnel_id@ == id@,
        none_with_id(tunnel_views(rd.tunnels@), id@) ==> p.address@ == Seq::<char>::empty()
            && !p.custom_domain_ready,
        forall|i: int|
            #[trigger] first_with_id(tunnel_views(rd.tunnels@), id@, i) ==> reports(
                p,
                tunnel_views(rd.tunnels@)[i],
                *desired,
            ),
{
    match find_with_id(&rd.tunnels, id.as_str()) {
        Some(i) => {
            let t = &rd.tunnels[i];
            proof {
                assert forall|j: int|
                    #[trigger] first_with_id(tunnel_views(rd.tunnels@), id@, j) implies j == i by {
                    if j < i {
                        assert(tunnel_views(rd.tunnels@)[j].id != id@);
                    }
                    if i < j {
                        assert(tunnel_views(rd.tunnels@)[i as int].id != id@);
                    }
                }
                assert(tunnel_views(rd.tunnels@)[i as int] == t@);
            }
            report(t, desired)
        },
        None => ProvisionedTunnel { tunnel_id: id, address: String::new(), custom_domain_ready: false },
    }
}

/// The id of the tunnel that `delete` removes for `key`: the tunnel named
/// `k8s/<key>`, if one is listed.
pub open spec fn delete_target(ts: Seq<TunnelView>, key: Seq<char>) -> Option<Seq<char>> {
    match named_tunnel(ts, tunnel_name_spec(key)) {
        Some(t) => Some(t.id),
        None => None,
    }
}

/// The decision of `delete` on the run data `rd`: the tunnel named
/// `k8s/<key>` is deleted, which needs a self-managed agent; when there is
/// none there is nothing to do.
pub fn plan_delete(key: &str, rd: &AgentRunDataV1) -> (r: Result<Option<ReqDelete>, Error>)
    ensures
        match delete_target(tunnel_views(rd.tunnels@), key@) {
            None => r matches Ok(None),
            Some(id) => if rd.permissions.is_self_managed {
                r matches Ok(Some(req)) && req.tunnel_id@ == id
            } else {
                r matches Err(Error::Provider(m)) && m@ == not_self_managed_text()
            },
        },
{
    let name = tunnel_name(key);
    let found = find_named(&rd.tunnels, name.as_str());
    proof {
        let ts = tunnel_views(rd.tunnels@);
        match found {
            Some(i) => lemma_named_tunnel_at(ts, name@, i as int),
            None => lemma_named_tunnel_at(ts, name@, ts.len() as int),
        }
    }
    match found {
        Some(i) => {
            let t = &rd.tunnels[i];
            assert(tunnel_views(rd.tunnels@)[i as int] == t@);
            require_self_managed(rd)?;
            Ok(Some(delete_request(t.id.as_str())))
        },
        None => Ok(None),
    }
}

/// Ensuring is idempotent: once the tunnel created by the create request for
/// `desired` is listed under its name with the config that request sent,
/// `ensure` for the same `desired` needs no write (no second creation, no
/// reconfiguration) and reports that tunnel.
pub proof fn law_ensure_idempotent_after_create(
    req: ReqTunnelsCreateV1,
    desired: DesiredTunnel,
    agent_id: Seq<char>,
    ts: Seq<TunnelView>,
    t: TunnelView,
)
    requires
        create_request_for(req, desired, agent_id),
        named_tunnel(ts, req.name@) == Some(t),
        req.origin matches OriginCreate::Agent(o) && t.config == o.config@,
    ensures
        ensure_write(ts, desired) == EnsureWrite::NoWrite,
        named_tunnel(ts, tunnel_name_spec(desired.key@)) == Some(t),
{
    law_local_config_round_trip(desired.local_target@, desired.port);
}

/// Likewise after a reconfiguration: once the tunnel named for `desired`
/// carries the config that the config request sent, `ensure` needs no write.
pub proof fn law_ensure_idempotent_after_reconfigure(
    req: ReqTunnelsConfigV1,
    desired: DesiredTunnel,
    ts: Seq<TunnelView>,
    t: TunnelView,
)
    requires
        config_request_for(req, t.id, desired),
        named_tunnel(ts, tunnel_name_spec(desired.key@)) == Some(t),
        req.new_config matches Some(c) && t.config == c@,
    ensures
        ensure_write(ts, desired) == EnsureWrite::NoWrite,
{
    law_local_config_round_trip(desired.local_target@, desired.port);
}

/// Deleting is idempotent: once no listed tunnel carries the name of `key`'s
/// tunnel, `delete` has nothing to remove, so it sends no request and succeeds
/// whatever the agent's permissions.
pub proof fn law_delete_idempotent(key: Seq<char>, ts: Seq<TunnelView>)
    requires
        forall|k: int| 0 <= k < ts.len() ==> ts[k].name != Some(tunnel_name_spec(key)),
    ensures
        delete_target(ts, key) is None,
{
    lemma_named_tunnel_at(ts, tunnel_name_spec(key), ts.len() as int);
}

} // verus!
