//! Identifiers and stored settings of tunnels.
use vstd::prelude::*;
use super::network::NetworkIdentifier;
use crate::wireguard::keys::{InvalidWgKey, WgKey, is_wg_key_text};

verus! {

/// A tunnel of a network: the network it belongs to and the name of its
/// Tunnel resource on the cluster.
pub struct TunnelIdentifier {
    pub network: NetworkIdentifier,
    pub name: String,
}

impl TunnelIdentifier {
    /// A tunnel identifier from its network and the tunnel resource's name.
    pub fn from_network_identifier(network: NetworkIdentifier, name: String) -> (r: Self)
        ensures
            r.network == network,
            r.name == name,
    {
        TunnelIdentifier { network, name }
    }

    /// A copy of this identifier.
    pub fn duplicate(&self) -> (r: Self)
        ensures
            r == *self,
    {
        TunnelIdentifier { network: self.network.duplicate(), name: self.name.clone() }
    }

    /// Whether two identifiers name the same tunnel of the same network.
    pub fn same_as(&self, other: &TunnelIdentifier) -> (b: bool)
        ensures
            b == (self.network.same_as_spec(other.network) && self.name@ == other.name@),
    {
        self.network.same_as(&other.network) && self.name == other.name
    }
}

/// A tunnel as the local configuration stores it: the name of its Tunnel
/// resource and the peer's private key in base64.
pub struct TunnelConfig {
    pub name: String,
    pub private_key: String,
}

impl TunnelConfig {
    /// A tunnel entry holding the base64 text of `private_key`.
    pub fn new(name: String, private_key: WgKey) -> (r: Self)
        ensures
            r.name == name,
            r.private_key@ == private_key@,
    {
        TunnelConfig { name, private_key: private_key.to_base64() }
    }

    /// The stored private key, or an error when its text is not a key.
    pub fn try_get_wgkey(&self) -> (r: Result<WgKey, InvalidWgKey>)
        ensures
            r is Ok <==> is_wg_key_text(self.private_key@),
            r matches Ok(k) ==> k@ == self.private_key@,
    {
        WgKey::from_base64(self.private_key.as_str())
    }
}

} // verus!
