//! The decisions of the reconcile loop: for each `PlayitTunnel`, resolve the
//! target Service, drive the tunnel provider to match, and reflect the result
//! in `.status`; on deletion, tear the tunnel down. The Kubernetes calls and
//! the provider calls themselves are made by the caller, which hands each
//! answer back to the function that decides the next step.

use vstd::prelude::*;
use crate::crd::{PlayitTunnelSpec, PlayitTunnelStatus, StatusView};
use crate::error::{error_text, Error};
use crate::provider::{DesiredTunnel, ProvisionedTunnel};
use crate::text::{opt_str, str_eq};

verus! {

/// Finalizer added to every `PlayitTunnel` so deletion is intercepted.
pub const FINALIZER: &'static str = "playit-operator.io/finalizer";

/// What the reconcile loop reads of a `PlayitTunnel` resource.
pub struct TunnelResource {
    /// `.metadata.namespace`.
    pub namespace: Option<String>,
    /// The resource's name (`name_any`).
    pub name: String,
    /// `.metadata.generation`.
    pub generation: Option<i64>,
    pub spec: PlayitTunnelSpec,
    pub status: Option<PlayitTunnelStatus>,
}

/// When the resource is looked at again.
#[derive(Debug, Clone, Copy, PartialEq, Eq, Structural)]
pub enum Requeue {
    /// Reconcile again after this many seconds.
    After(u64),
    /// Reconcile again only when the resource changes.
    AwaitChange,
}

/// Requeue delay after a tunnel was provisioned: a periodic re-check that
/// detects and repairs drift.
pub const READY_REQUEUE_SECS: u64 = 300;

/// Requeue delay after the provider failed to ensure the tunnel.
pub const ERROR_REQUEUE_SECS: u64 = 30;

/// Requeue delay after reconciliation itself returned an error.
pub const FAILURE_REQUEUE_SECS: u64 = 15;

/// The key that correlates a resource with its tunnel: `namespace/name`.
pub open spec fn key_spec(ns: Seq<char>, name: Seq<char>) -> Seq<char> {
    ns + "/"@ + name
}

/// The key of the resource `name` in the namespace `ns`: `ns/name`.
pub fn tunnel_key(ns: &str, name: &str) -> (k: String)
    ensures
        k@ == key_spec(ns@, name@),
{
    let mut k = String::from_str(ns);
    k.append("/");
    k.append(name);
    k
}

/// The namespace that reconciliation works in; a resource without one is
/// refused with `MissingField("metadata.namespace")`.
pub fn reconcile_namespace(tunnel: &TunnelResource) -> (r: Result<String, Error>)
    ensures
        tunnel.namespace matches Some(ns) ==> (r matches Ok(s) && s@ == ns@),
        tunnel.namespace is None ==> (r matches Err(Error::MissingField(f)) && f@
            == "metadata.namespace"@),
{
    match &tunnel.namespace {
        Some(ns) => Ok(ns.clone()),
        None => Err(Error::MissingField("metadata.namespace")),
    }
}

/// A failure of the finalizer machinery (adding or removing the finalizer, or
/// the apply or cleanup it ran), given by its message, becomes a provider error.
pub fn finalizer_failure(message: String) -> (e: Error)
    ensures
        e matches Error::Provider(m) && m@ == message@,
{
    Error::Provider(message)
}

/// Where the tunnel forwards to: the Service's ClusterIP, or, for a Service
/// without one (headless, `None`), its cluster DNS name.
pub open spec fn target_spec(cluster_ip: Option<Seq<char>>, service: Seq<char>, ns: Seq<char>) -> Seq<char> {
    if cluster_ip is Some && cluster_ip->0 != "None"@ {
        cluster_ip->0
    } else {
        service + "."@ + ns + ".svc.cluster.local"@
    }
}

/// The in-cluster target of the Service `service` in `ns`, given its
/// `spec.clusterIP`.
pub fn resolve_target(cluster_ip: Option<String>, service: &str, ns: &str) -> (t: String)
    ensures
        t@ == target_spec(opt_str(cluster_ip), service@, ns@),
{
    if let Some(ip) = cluster_ip {
        if !str_eq(ip.as_str(), "None") {
            return ip;
        }
    }
    let mut t = String::from_str(service);
    t.append(".");
    t.append(ns);
    t.append(".svc.cluster.local");
    t
}

/// The tunnel that `apply` asks the provider for, given the answer of the
/// Service lookup: the lookup's own failure, a missing Service
/// (`ServiceNotFound`), or the Service's ClusterIP when it has one.
pub fn desired_for(tunnel: &TunnelResource, ns: &str, lookup: Result<Option<Option<String>>, Error>) -> (r:
    Result<DesiredTunnel, Error>)
    ensures
        lookup matches Err(e) ==> (r matches Err(e2) && e2 == e),
        lookup matches Ok(None) ==> (r matches Err(Error::ServiceNotFound(svc, n)) && svc@
            == tunnel.spec.service_name@ && n@ == ns@),
        lookup matches Ok(Some(ip)) ==> (r matches Ok(d) && d.key@ == key_spec(ns@, tunnel.name@)
            && d.protocol == tunnel.spec.protocol && d.port == tunnel.spec.port && d.port_count
            == tunnel.spec.port_count && opt_str(d.region) == opt_str(tunnel.spec.region) && opt_str(
            d.custom_domain,
        ) == opt_str(tunnel.spec.custom_domain) && d.local_target@ == target_spec(
            opt_str(ip),
            tunnel.spec.service_name@,
            ns@,
        ) && d.tunnel_type is None),
{
    match lookup {
        Err(e) => Err(e),
        Ok(None) => Err(Error::ServiceNotFound(tunnel.spec.service_name.clone(), String::from_str(ns))),
        Ok(Some(ip)) => {
            let key = tunnel_key(ns, tunnel.name.as_str());
            let target = resolve_target(ip, tunnel.spec.service_name.as_str(), ns);
            Ok(DesiredTunnel::from_spec(key, &tunnel.spec, target))
        },
    }
}

/// The status of a tunnel that the provider reports as provisioned.
pub open spec fn ready_status(t: ProvisionedTunnel, generation: Option<i64>) -> StatusView {
    StatusView {
        phase: Some("Ready"@),
        tunnel_id: Some(t.tunnel_id@),
        address: Some(t.address@),
        custom_domain_ready: Some(t.custom_domain_ready),
        observed_generation: generation,
        message: Some("tunnel provisioned"@),
    }
}

/// The generation last successfully reconciled, as the current status
/// records it (none without a status).
pub open spec fn last_reconciled(current: Option<StatusView>) -> Option<i64> {
    match current {
        Some(c) => c.observed_generation,
        None => None,
    }
}

/// The status after the provider failed with the message `m`: phase `Error`,
/// the message, and the generation last successfully reconciled kept as it
/// was, since this generation was not reconciled.
pub open spec fn error_status(m: Seq<char>, current: Option<StatusView>) -> StatusView {
    StatusView {
        phase: Some("Error"@),
        tunnel_id: None,
        address: None,
        custom_domain_ready: None,
        observed_generation: last_reconciled(current),
        message: Some(m),
    }
}

/// The status a provider answer gives a resource of generation `generation`
/// whose current status is `current`; a failure is given by its message.
pub open spec fn answer_status(
    answer: Result<ProvisionedTunnel, Seq<char>>,
    generation: Option<i64>,
    current: Option<StatusView>,
) -> StatusView {
    match answer {
        Ok(t) => ready_status(t, generation),
        Err(m) => error_status(m, current),
    }
}

/// A successful provider answer always gives the `Ready` status with the
/// answer's tunnel id, address and custom-domain state, the resource's
/// generation and the message `tunnel provisioned`, whatever status the
/// resource carried before (an earlier `Error` included).
pub proof fn law_success_is_ready(
    t: ProvisionedTunnel,
    generation: Option<i64>,
    current: Option<StatusView>,
)
    ensures
        answer_status(Ok(t), generation, current) == (StatusView {
            phase: Some("Ready"@),
            tunnel_id: Some(t.tunnel_id@),
            address: Some(t.address@),
            custom_domain_ready: Some(t.custom_domain_ready),
            observed_generation: generation,
            message: Some("tunnel provisioned"@),
        }),
        answer_status(Ok(t), generation, current) == answer_status(Ok(t), generation, None),
{
}

/// A failed provider answer always gives the `Error` status carrying the
/// failure's message, no tunnel id, address or custom-domain state, and the
/// generation that the current status records as last reconciled.
pub proof fn law_failure_is_error(m: Seq<char>, generation: Option<i64>, current: Option<StatusView>)
    ensures
        answer_status(Err(m), generation, current) == (StatusView {
            phase: Some("Error"@),
            tunnel_id: None,
            address: None,
            custom_domain_ready: None,
            observed_generation: match current {
                Some(c) => c.observed_generation,
                None => None,
            },
            message: Some(m),
        }),
{
}

/// The current status of a resource, by its content.
pub open spec fn status_of(status: Option<PlayitTunnelStatus>) -> Option<StatusView> {
    match status {
        Some(c) => Some(c@),
        None => None,
    }
}

/// The resource already carries the status `s`.
pub open spec fn status_unchanged(current: Option<PlayitTunnelStatus>, s: StatusView) -> bool {
    current matches Some(c) && c@ == s
}

/// Status writes settle: applying a provider answer to a resource that
/// already carries the status this answer wrote gives that same status again,
/// so `status_update` asks for no further write and reconciliation does not
/// spin. It holds for failures too, because the error status keeps the
/// recorded generation.
pub proof fn law_status_settles(
    answer: Result<ProvisionedTunnel, Seq<char>>,
    generation: Option<i64>,
    current: Option<StatusView>,
)
    ensures
        answer_status(answer, generation, Some(answer_status(answer, generation, current)))
            == answer_status(answer, generation, current),
{
}

/// What `apply` does once the provider has answered: the status to write,
/// whether to write it, and when to look again.
pub struct StatusUpdate {
    pub status: PlayitTunnelStatus,
    /// False when the resource already carries `status`: a status write bumps
    /// the resource version and re-triggers reconcile, so an unconditional
    /// write would spin.
    pub patch: bool,
    pub requeue: Requeue,
}

/// Whether a status must be written: not when the resource already has it.
pub fn needs_patch(current: Option<&PlayitTunnelStatus>, status: &PlayitTunnelStatus) -> (r: bool)
    ensures
        r == !(current matches Some(c) && c@ == status@),
{
    match current {
        Some(c) => !c.same_as(status),
        None => true,
    }
}

/// The status update after the provider's answer `outcome`: `Ready` with the
/// tunnel's id, address and custom-domain state and a re-check after
/// `READY_REQUEUE_SECS`; or `Error` with the error's message and a retry after
/// `ERROR_REQUEUE_SECS`. `Ready` records the resource's generation as
/// reconciled; `Error` keeps the generation that the current status records.
pub fn status_update(tunnel: &TunnelResource, outcome: Result<ProvisionedTunnel, Error>) -> (u:
    StatusUpdate)
    ensures
        u.patch == !status_unchanged(tunnel.status, u.status@),
        outcome matches Ok(t) ==> u.status@ == answer_status(
            Ok(t),
            tunnel.generation,
            status_of(tunnel.status),
        ) && u.requeue == Requeue::After(READY_REQUEUE_SECS),
        outcome matches Err(e) ==> u.status@ == answer_status(
            Err(error_text(e)),
            tunnel.generation,
            status_of(tunnel.status),
        ) && u.requeue == Requeue::After(ERROR_REQUEUE_SECS),
{
    let (status, requeue) = match outcome {
        Ok(t) => {
            let status = PlayitTunnelStatus {
                phase: Some(String::from_str("Ready")),
                tunnel_id: Some(t.tunnel_id),
                address: Some(t.address),
                custom_domain_ready: Some(t.custom_domain_ready),
                observed_generation: tunnel.generation,
                message: Some(String::from_str("tunnel provisioned")),
            };
            (status, Requeue::After(READY_REQUEUE_SECS))
        },
        Err(e) => {
            let status = PlayitTunnelStatus {
                phase: Some(String::from_str("Error")),
                tunnel_id: None,
                address: None,
                custom_domain_ready: None,
                observed_generation: match &tunnel.status {
                    Some(c) => c.observed_generation,
                    None => None,
                },
                message: Some(e.to_text()),
            };
            (status, Requeue::After(ERROR_REQUEUE_SECS))
        },
    };
    let patch = needs_patch(tunnel.status.as_ref(), &status);
    StatusUpdate { status, patch, requeue }
}

/// The result of `apply` once the status write (if any) is done: the planned
/// requeue, or the write's failure.
pub fn apply_result(update: &StatusUpdate, written: Result<(), Error>) -> (r: Result<Requeue, Error>)
    ensures
        written is Ok ==> r == Ok::<Requeue, Error>(update.requeue),
        written matches Err(e) ==> (r matches Err(e2) && e2 == e),
{
    match written {
        Ok(()) => Ok(update.requeue),
        Err(e) => Err(e),
    }
}

/// The key of a resource being deleted: `namespace/name`, with an empty
/// namespace when it has none.
pub fn cleanup_key(tunnel: &TunnelResource) -> (k: String)
    ensures
        k@ == key_spec(
            match opt_str(tunnel.namespace) {
                Some(ns) => ns,
                None => Seq::empty(),
            },
            tunnel.name@,
        ),
{
    match &tunnel.namespace {
        Some(ns) => tunnel_key(ns.as_str(), tunnel.name.as_str()),
        None => {
            proof {
                reveal_strlit("");
            }
            tunnel_key("", tunnel.name.as_str())
        },
    }
}

/// The result of cleanup once the provider deleted the tunnel: wait for the
/// next change; a failed delete is returned as is.
pub fn cleanup_result(deleted: Result<(), Error>) -> (r: Result<Requeue, Error>)
    ensures
        deleted is Ok ==> r == Ok::<Requeue, Error>(Requeue::AwaitChange),
        deleted matches Err(e) ==> (r matches Err(e2) && e2 == e),
{
    match deleted {
        Ok(()) => Ok(Requeue::AwaitChange),
        Err(e) => Err(e),
    }
}

/// After a reconcile error, look again after `FAILURE_REQUEUE_SECS`.
pub fn error_policy(err: &Error) -> (r: Requeue)
    ensures
        r == Requeue::After(FAILURE_REQUEUE_SECS),
{
    Requeue::After(FAILURE_REQUEUE_SECS)
}

} // verus!
