//! Verified core of a Kubernetes operator that turns `PlayitTunnel` custom
//! resources into playit.gg tunnels.

pub mod claim;
pub mod controller;
pub mod crd;
pub mod error;
pub mod provider;
pub mod startup;
pub mod text;
