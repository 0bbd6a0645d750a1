//! The `PlayitTunnel` custom resource: its desired state (`spec`) and the
//! observed state (`status`) that the operator writes back.

use vstd::prelude::*;
use crate::text::{opt_str, opt_string_eq};

verus! {

/// Network protocol exposed by a tunnel.
#[derive(Debug, Clone, Copy, PartialEq, Eq, Structural)]
pub enum Protocol {
    /// TCP only.
    Tcp,
    /// UDP only.
    Udp,
    /// Both TCP and UDP on the same port.
    Both,
}

impl Default for Protocol {
    /// The protocol of a spec that names none: TCP.
    fn default() -> (p: Protocol)
        ensures
            p == Protocol::Tcp,
    {
        Protocol::Tcp
    }
}

/// `PlayitTunnel` declares a playit.gg tunnel that forwards public traffic to a
/// Kubernetes `Service`. playit is a layer-4 (TCP/UDP) port allocator, so each
/// `PlayitTunnel` maps one public address to one `Service` port.
#[derive(Debug, Clone)]
pub struct PlayitTunnelSpec {
    /// Protocol to expose over the tunnel. Defaults to `tcp`.
    pub protocol: Protocol,
    /// Name of the target `Service`, in the same namespace as this resource.
    pub service_name: String,
    /// Port on the target `Service` to forward traffic to.
    pub port: u16,
    /// Number of consecutive ports to allocate. Defaults to 1.
    pub port_count: u16,
    /// Optional region / endpoint preference (a playit region id).
    pub region: Option<String>,
    /// Custom domain to attach to this tunnel (requires playit Premium).
    pub custom_domain: Option<String>,
}

/// The port count a spec gets when it names none.
pub fn default_port_count() -> (n: u16)
    ensures
        n == 1,
{
    1
}

/// Observed state of a `PlayitTunnel`, written to `.status` by the operator.
#[derive(Debug, Clone)]
pub struct PlayitTunnelStatus {
    /// High-level lifecycle phase: `Pending`, `Ready`, or `Error`.
    pub phase: Option<String>,
    /// Opaque tunnel id returned by playit.gg.
    pub tunnel_id: Option<String>,
    /// Public address (`host:port`) assigned to the tunnel.
    pub address: Option<String>,
    /// Whether the requested custom domain has been attached and is serving.
    pub custom_domain_ready: Option<bool>,
    /// `.metadata.generation` last successfully reconciled.
    pub observed_generation: Option<i64>,
    /// Human-readable detail about the current phase (progress or error text).
    pub message: Option<String>,
}

/// The content of a status, with each text field as its characters.
pub struct StatusView {
    pub phase: Option<Seq<char>>,
    pub tunnel_id: Option<Seq<char>>,
    pub address: Option<Seq<char>>,
    pub custom_domain_ready: Option<bool>,
    pub observed_generation: Option<i64>,
    pub message: Option<Seq<char>>,
}

impl View for PlayitTunnelStatus {
    type V = StatusView;

    open spec fn view(&self) -> StatusView {
        StatusView {
            phase: opt_str(self.phase),
            tunnel_id: opt_str(self.tunnel_id),
            address: opt_str(self.address),
            custom_domain_ready: self.custom_domain_ready,
            observed_generation: self.observed_generation,
            message: opt_str(self.message),
        }
    }
}

impl Default for PlayitTunnelStatus {
    /// A status with every field unset.
    fn default() -> (s: PlayitTunnelStatus)
        ensures
            s@ == (StatusView {
                phase: None,
                tunnel_id: None,
                address: None,
                custom_domain_ready: None,
                observed_generation: None,
                message: None,
            }),
    {
        PlayitTunnelStatus {
            phase: None,
            tunnel_id: None,
            address: None,
            custom_domain_ready: None,
            observed_generation: None,
            message: None,
        }
    }
}

impl PlayitTunnelStatus {
    /// Whether two statuses hold the same content, field by field.
    pub fn same_as(&self, other: &PlayitTunnelStatus) -> (r: bool)
        ensures
            r == (self@ == other@),
    {
        opt_string_eq(&self.phase, &other.phase) && opt_string_eq(&self.tunnel_id, &other.tunnel_id)
            && opt_string_eq(&self.address, &other.address) && self.custom_domain_ready
            == other.custom_domain_ready && self.observed_generation == other.observed_generation
            && opt_string_eq(&self.message, &other.message)
    }
}

} // verus!
