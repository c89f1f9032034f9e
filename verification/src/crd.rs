//! The Network and Tunnel resources that k8s-insider keeps on the cluster,
//! with the fields that the command line tool reads and writes.
use vstd::prelude::*;
use crate::net::{IpAddrPair, IpNetwork, SocketAddress};

verus! {

/// The name and namespace of a resource.
pub struct ObjectMeta {
    pub name: Option<String>,
    pub namespace: Option<String>,
}

/// The lifecycle of a network.
#[derive(Clone, Copy, Debug, PartialEq, Eq, Structural)]
pub enum NetworkState {
    Created,
    Deployed,
    Failed,
}

/// The lifecycle of a tunnel.
#[derive(Clone, Copy, Debug, PartialEq, Eq, Structural)]
pub enum TunnelState {
    Created,
    Configured,
    Connected,
    Closed,
    Failed,
}

/// How a network's WireGuard endpoint is exposed.
pub enum NetworkService {
    ClusterIp { ip: Option<IpAddrPair> },
    NodePort { cluster_ip: Option<IpAddrPair>, predefined_ips: Option<Vec<IpAddrPair>> },
    LoadBalancer { cluster_ip: Option<IpAddrPair> },
    ExternalIp { cluster_ip: Option<IpAddrPair>, ips: Vec<IpAddrPair> },
}

/// What the user asks of a network.
pub struct NetworkSpec {
    pub peer_cidr: IpNetwork,
    pub network_service: Option<NetworkService>,
    pub nat: Option<bool>,
}

/// What the controller reports of a network.
pub struct NetworkStatus {
    pub state: NetworkState,
    pub server_public_key: Option<String>,
    pub dns: Option<IpAddrPair>,
    pub endpoints: Option<Vec<SocketAddress>>,
    pub allowed_ips: Option<Vec<IpNetwork>>,
    pub service_domain: Option<String>,
}

/// A VPN network resource.
pub struct Network {
    pub metadata: ObjectMeta,
    pub spec: NetworkSpec,
    pub status: Option<NetworkStatus>,
}

/// What the user asks of a tunnel.
pub struct TunnelSpec {
    pub network: String,
    pub peer_public_key: String,
    pub preshared_key: String,
    pub static_ip: Option<IpAddrPair>,
}

/// What the controller reports of a tunnel.
pub struct TunnelStatus {
    pub state: TunnelState,
    pub address: Option<IpAddrPair>,
}

/// A tunnel resource: one peer of a network.
pub struct Tunnel {
    pub metadata: ObjectMeta,
    pub spec: TunnelSpec,
    pub status: Option<TunnelStatus>,
}

/// A network is ready once deployed.
pub open spec fn network_ready(n: &Network) -> bool {
    n.status matches Some(s) && s.state == NetworkState::Deployed
}

/// A network has failed.
pub open spec fn network_failed(n: &Network) -> bool {
    n.status matches Some(s) && s.state == NetworkState::Failed
}

/// A tunnel is ready once configured (or connected).
pub open spec fn tunnel_ready(t: &Tunnel) -> bool {
    t.status matches Some(s) && (s.state == TunnelState::Configured || s.state
        == TunnelState::Connected)
}

/// A tunnel has failed.
pub open spec fn tunnel_failed(t: &Tunnel) -> bool {
    t.status matches Some(s) && s.state == TunnelState::Failed
}

/// A tunnel has been closed.
pub open spec fn tunnel_closed(t: &Tunnel) -> bool {
    t.status matches Some(s) && s.state == TunnelState::Closed
}

impl Network {
    /// Whether the network is deployed.
    pub fn is_ready(&self) -> (b: bool)
        ensures
            b == network_ready(self),
    {
        match &self.status {
            Some(s) => s.state == NetworkState::Deployed,
            None => false,
        }
    }

    /// Whether the network has failed.
    pub fn is_error(&self) -> (b: bool)
        ensures
            b == network_failed(self),
    {
        match &self.status {
            Some(s) => s.state == NetworkState::Failed,
            None => false,
        }
    }

    /// The state the controller reports, if any.
    pub fn state(&self) -> (r: Option<NetworkState>)
        ensures
            r == match self.status {
                Some(s) => Some(s.state),
                None => None::<NetworkState>,
            },
    {
        match &self.status {
            Some(s) => Some(s.state),
            None => None,
        }
    }
}

impl Tunnel {
    /// Whether the tunnel is configured or connected.
    pub fn is_ready(&self) -> (b: bool)
        ensures
            b == tunnel_ready(self),
    {
        match &self.status {
            Some(s) => s.state == TunnelState::Configured || s.state == TunnelState::Connected,
            None => false,
        }
    }

    /// Whether the tunnel has failed.
    pub fn is_error(&self) -> (b: bool)
        ensures
            b == tunnel_failed(self),
    {
        match &self.status {
            Some(s) => s.state == TunnelState::Failed,
            None => false,
        }
    }

    /// Whether the tunnel has been closed.
    pub fn is_closed(&self) -> (b: bool)
        ensures
            b == tunnel_closed(self),
    {
        match &self.status {
            Some(s) => s.state == TunnelState::Closed,
            None => false,
        }
    }

    /// The state the controller reports, if any.
    pub fn state(&self) -> (r: Option<TunnelState>)
        ensures
            r == match self.status {
                Some(s) => Some(s.state),
                None => None::<TunnelState>,
            },
    {
        match &self.status {
            Some(s) => Some(s.state),
            None => None,
        }
    }
}

} // verus!
