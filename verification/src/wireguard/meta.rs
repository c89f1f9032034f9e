//! The metadata kept beside a peer configuration file.
use vstd::prelude::*;
use crate::config::tunnel::TunnelIdentifier;
use crate::crd::{Network, NetworkState};
use super::WireguardError;

verus! {

/// What k8s-insider remembers of an active connection: its tunnel, the
/// cluster's domain and whether the DNS resolver was patched for it.
pub struct InsiderPeerMeta {
    pub tunnel: TunnelIdentifier,
    pub cluster_domain: Option<String>,
    pub dns_patched: bool,
}

impl InsiderPeerMeta {
    /// The metadata of a new connection to a deployed network.
    pub fn from_crd(tunnel_id: &TunnelIdentifier, network: &Network) -> (r: Result<
        InsiderPeerMeta,
        WireguardError,
    >)
        ensures
            match network.status {
                None => r == Err::<InsiderPeerMeta, _>(WireguardError::NetworkNotReady),
                Some(s) => if s.state != NetworkState::Deployed {
                    r == Err::<InsiderPeerMeta, _>(WireguardError::NetworkInvalidState(s.state))
                } else {
                    r matches Ok(m) && m.tunnel == *tunnel_id && m.cluster_domain
                        == s.service_domain && !m.dns_patched
                },
            },
    {
        let network_status = match &network.status {
            Some(s) => s,
            None => {
                return Err(WireguardError::NetworkNotReady);
            },
        };
        if network_status.state != NetworkState::Deployed {
            return Err(WireguardError::NetworkInvalidState(network_status.state));
        }
        let cluster_domain = match &network_status.service_domain {
            Some(d) => Some(d.clone()),
            None => None,
        };
        Ok(InsiderPeerMeta { tunnel: tunnel_id.duplicate(), cluster_domain, dns_patched: false })
    }
}

} // verus!
