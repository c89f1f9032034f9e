//! Deciding whether the cluster's resources are ready for a connection, and
//! building the peer configuration from them.
use vstd::prelude::*;
use crate::config::tunnel::TunnelConfig;
use crate::crd::{
    network_failed, network_ready, tunnel_closed, tunnel_failed, tunnel_ready, Network,
    NetworkState, Tunnel, TunnelState,
};
use super::keys::is_wg_key_text;
use super::peer_config::{crd_result_view, peer_config_from_crd, WireguardPeerConfig};
use super::WireguardError;

verus! {

/// Why a tunnel or network cannot be connected to.
#[derive(Debug, Clone, Copy, PartialEq, Eq)]
pub enum AvailabilityError {
    /// The tunnel is not on the cluster.
    TunnelNotFound,
    /// The tunnel failed or was closed.
    TunnelInvalidState(Option<TunnelState>),
    /// The tunnel did not become ready in time.
    TunnelTimedOut,
    /// The network is not on the cluster.
    NetworkNotFound,
    /// The network failed.
    NetworkInvalidState(Option<NetworkState>),
    /// The network did not become ready in time.
    NetworkTimedOut,
}

/// Why a peer configuration could not be made for a stored tunnel.
#[derive(Debug)]
pub enum PeerConfigError {
    /// The key stored for the named tunnel is not a WireGuard key.
    InvalidConfigKey(String),
    /// The resources do not make a configuration yet.
    Wireguard(WireguardError),
}

/// Waiting for a tunnel ends once it is gone, ready or failed.
pub fn tunnel_await_condition(tunnel: Option<&Tunnel>) -> (b: bool)
    ensures
        b == match tunnel {
            Some(t) => tunnel_ready(t) || tunnel_failed(t),
            None => true,
        },
{
    match tunnel {
        Some(t) => t.is_ready() || t.is_error(),
        None => true,
    }
}

/// Waiting for a network ends once it is gone, ready or failed.
pub fn network_await_condition(network: Option<&Network>) -> (b: bool)
    ensures
        b == match network {
            Some(n) => network_ready(n) || network_failed(n),
            None => true,
        },
{
    match network {
        Some(n) => n.is_ready() || n.is_error(),
        None => true,
    }
}

/// Whether the tunnel found after waiting can be used.
pub fn check_tunnel_availability(tunnel: Option<&Tunnel>) -> (r: Result<(), AvailabilityError>)
    ensures
        match tunnel {
            None => r == Err::<(), _>(AvailabilityError::TunnelNotFound),
            Some(t) => if tunnel_failed(t) || tunnel_closed(t) {
                r == Err::<(), _>(
                    AvailabilityError::TunnelInvalidState(
                        match t.status {
                            Some(s) => Some(s.state),
                            None => None,
                        },
                    ),
                )
            } else if !tunnel_ready(t) {
                r == Err::<(), _>(AvailabilityError::TunnelTimedOut)
            } else {
                r is Ok
            },
        },
{
    match tunnel {
        None => Err(AvailabilityError::TunnelNotFound),
        Some(t) => {
            if t.is_error() || t.is_closed() {
                Err(AvailabilityError::TunnelInvalidState(t.state()))
            } else if !t.is_ready() {
                Err(AvailabilityError::TunnelTimedOut)
            } else {
                Ok(())
            }
        },
    }
}

/// Whether the network found after waiting can be used.
pub fn check_network_availability(network: Option<&Network>) -> (r: Result<(), AvailabilityError>)
    ensures
        match network {
            None => r == Err::<(), _>(AvailabilityError::NetworkNotFound),
            Some(n) => if network_failed(n) {
                r == Err::<(), _>(
                    AvailabilityError::NetworkInvalidState(
                        match n.status {
                            Some(s) => Some(s.state),
                            None => None,
                        },
                    ),
                )
            } else if !network_ready(n) {
                r == Err::<(), _>(AvailabilityError::NetworkTimedOut)
            } else {
                r is Ok
            },
        },
{
    match network {
        None => Err(AvailabilityError::NetworkNotFound),
        Some(n) => {
            if n.is_error() {
                Err(AvailabilityError::NetworkInvalidState(n.state()))
            } else if !n.is_ready() {
                Err(AvailabilityError::NetworkTimedOut)
            } else {
                Ok(())
            }
        },
    }
}

/// The peer configuration of a stored tunnel, from its network and tunnel resources.
pub fn get_peer_config(config_tunnel: &TunnelConfig, network: &Network, tunnel: &Tunnel) -> (r: Result<
    WireguardPeerConfig,
    PeerConfigError,
>)
    ensures
        !is_wg_key_text(config_tunnel.private_key@) ==> (r matches Err(
            PeerConfigError::InvalidConfigKey(name),
        ) && name@ == config_tunnel.name@),
        is_wg_key_text(config_tunnel.private_key@) ==> match peer_config_from_crd(
            config_tunnel.private_key@,
            network,
            tunnel,
        ) {
            Ok(c) => r matches Ok(x) && x@ == c,
            Err(e) => r matches Err(PeerConfigError::Wireguard(f)) && f == e,
        },
{
    let key = match config_tunnel.try_get_wgkey() {
        Ok(k) => k,
        Err(_) => {
            return Err(PeerConfigError::InvalidConfigKey(config_tunnel.name.clone()));
        },
    };
    let r = WireguardPeerConfig::from_crd(key, network, tunnel);
    assert(crd_result_view(r) == peer_config_from_crd(config_tunnel.private_key@, network, tunnel));
    match r {
        Ok(c) => Ok(c),
        Err(e) => Err(PeerConfigError::Wireguard(e)),
    }
}

} // verus!
