//! What a tunnel provider is handed and what it reports back, and the two
//! providers: a dry run that makes no external calls, and the playit.gg API.

use vstd::prelude::*;
use crate::crd::{PlayitTunnelSpec, Protocol};
use crate::text::{clone_opt_string, opt_str};

pub mod dryrun;
pub mod playit;




verus! {

/// The desired shape of a tunnel, distilled from a `PlayitTunnelSpec` plus the
/// resolved in-cluster target address.
#[derive(Debug, Clone)]
pub struct DesiredTunnel {
    /// Stable key (`namespace/name`) correlating a resource with a playit tunnel.
    pub key: String,
    pub protocol: Protocol,
    /// Port on the target the tunnel forwards to.
    pub port: u16,
    pub port_count: u16,
    pub region: Option<String>,
    pub custom_domain: Option<String>,
    /// In-cluster address the agent forwards to, e.g. `10.0.0.5`.
    pub local_target: String,
    /// A named playit tunnel type (e.g. `https`) that overrides the raw
    /// protocol and port count; none when built from a spec.
    pub tunnel_type: Option<String>,
}

impl DesiredTunnel {
    /// Build a `DesiredTunnel` from a spec and the resolved cluster target.
    pub fn from_spec(key: String, spec: &PlayitTunnelSpec, local_target: String) -> (d: Self)
        ensures
            d.key@ == key@,
            d.protocol == spec.protocol,
            d.port == spec.port,
            d.port_count == spec.port_count,
            opt_str(d.region) == opt_str(spec.region),
            opt_str(d.custom_domain) == opt_str(spec.custom_domain),
            d.local_target@ == local_target@,
            d.tunnel_type is None,
    {
        DesiredTunnel {
            key,
            protocol: spec.protocol,
            port: spec.port,
            port_count: spec.port_count,
            region: clone_opt_string(&spec.region),
            custom_domain: clone_opt_string(&spec.custom_domain),
            local_target,
            tunnel_type: None,
        }
    }
}

/// The realized tunnel as reported by a provider.
#[derive(Debug, Clone)]
pub struct ProvisionedTunnel {
    pub tunnel_id: String,
    /// Public `host:port` assigned by playit.
    pub address: String,
    pub custom_domain_ready: bool,
}

} // verus!
