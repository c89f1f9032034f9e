//! WireGuard keys, the peer configuration file and its metadata.
use vstd::prelude::*;
use crate::crd::{NetworkState, TunnelState};

pub mod connection;
pub mod connection_manager;
pub mod ini_file;
pub mod keys;
pub mod meta;
pub mod operations;
pub mod peer_config;

verus! {

/// Why the cluster's resources do not yet make a peer configuration.
#[derive(Debug, Clone, Copy, PartialEq, Eq)]
pub enum WireguardError {
    AddressNotAssigned,
    NetworkNotReady,
    NetworkInvalidState(NetworkState),
    NetworkInvalidServerPublicKey,
    NetworkMissingEndpoint,
    NetworkMissingAllowedIps,
    TunnelNotReady,
    TunnelInvalidState(TunnelState),
    TunnelInvalidPresharedKey,
}

} // verus!
