//! Identifiers and stored settings of networks.
use vstd::prelude::*;
use crate::name_map::{NameMap, first_free_name, numbered_name};
use super::ConfigError;
use super::tunnel::TunnelConfig;

verus! {

/// A network on a cluster: its resource name, namespace and kubeconfig context.
pub struct NetworkIdentifier {
    pub name: String,
    pub namespace: String,
    pub context: String,
}

impl NetworkIdentifier {
    /// A network identifier from its parts.
    pub fn new(name: String, namespace: String, context: String) -> (r: Self)
        ensures
            r.name == name,
            r.namespace == namespace,
            r.context == context,
    {
        NetworkIdentifier { name, namespace, context }
    }

    /// Two identifiers are the same network when all their parts agree.
    pub open spec fn same_as_spec(self, other: NetworkIdentifier) -> bool {
        &&& self.name@ == other.name@
        &&& self.namespace@ == other.namespace@
        &&& self.context@ == other.context@
    }

    /// Whether two identifiers name the same network.
    pub fn same_as(&self, other: &NetworkIdentifier) -> (b: bool)
        ensures
            b == self.same_as_spec(*other),
    {
        self.name == other.name && self.namespace == other.namespace && self.context
            == other.context
    }

    /// A copy of this identifier.
    pub fn duplicate(&self) -> (r: Self)
        ensures
            r == *self,
    {
        NetworkIdentifier {
            name: self.name.clone(),
            namespace: self.namespace.clone(),
            context: self.context.clone(),
        }
    }
}

/// A network as the local configuration stores it: its identifier and the
/// tunnels created for it, by local name.
pub struct NetworkConfig {
    pub id: NetworkIdentifier,
    pub tunnels: NameMap<TunnelConfig>,
}

impl NetworkConfig {
    /// The tunnels by local name.
    pub open spec fn tunnels_map(&self) -> Map<Seq<char>, TunnelConfig> {
        self.tunnels.map()
    }

    /// The tunnels as (local name, tunnel) pairs in ascending order of name.
    pub open spec fn tunnel_entries(&self) -> Seq<(Seq<char>, TunnelConfig)> {
        self.tunnels.entries_view()
    }

    /// The tunnel table is kept sorted by local name.
    pub open spec fn well_formed(&self) -> bool {
        self.tunnels.well_formed()
    }

    /// What a well-formed network configuration holds: its tunnel entries
    /// are exactly the tunnels map, in ascending order of local name.
    pub proof fn lemma_well_formed(&self)
        requires
            self.well_formed(),
        ensures
            self.tunnels_map().dom().finite(),
            self.tunnels_map().dom().len() == self.tunnel_entries().len(),
            forall|i: int|
                0 <= i < self.tunnel_entries().len() ==> #[trigger] self.tunnels_map().dom().contains(
                    self.tunnel_entries()[i].0,
                ) && self.tunnels_map()[self.tunnel_entries()[i].0] == self.tunnel_entries()[i].1,
            forall|k: Seq<char>|
                #[trigger] self.tunnels_map().dom().contains(k) ==> exists|i: int|
                    0 <= i < self.tunnel_entries().len() && #[trigger] self.tunnel_entries()[i].0
                        == k,
            forall|i: int, j: int|
                0 <= i < j < self.tunnel_entries().len() ==> crate::text::seq_lt(
                    #[trigger] self.tunnel_entries()[i].0,
                    #[trigger] self.tunnel_entries()[j].0,
                ),
    {
        self.tunnels.lemma_well_formed();
        assert forall|k: Seq<char>| #[trigger] self.tunnels_map().dom().contains(k) implies exists|
            i: int,
        | 0 <= i < self.tunnel_entries().len() && #[trigger] self.tunnel_entries()[i].0 == k by {
            let i = choose|i: int|
                0 <= i < self.tunnels.spec_len() && #[trigger] self.tunnels.entries_view()[i].0 == k;
            assert(self.tunnel_entries()[i].0 == k);
        }
    }

    /// A network configuration with no tunnels.
    pub fn from_identifier(id: NetworkIdentifier) -> (r: Self)
        ensures
            r.well_formed(),
            r.id == id,
            r.tunnels_map() == Map::<Seq<char>, TunnelConfig>::empty(),
            r.tunnel_entries() == Seq::<(Seq<char>, TunnelConfig)>::empty(),
    {
        NetworkConfig { id, tunnels: NameMap::new() }
    }

    /// The only tunnel, if there is at most one; an error if there are several.
    pub fn try_get_default_tunnel(&self) -> (r: Result<Option<(&String, &TunnelConfig)>, ConfigError>)
        requires
            self.well_formed(),
        ensures
            self.tunnels_map().dom().len() > 1 <==> r matches Err(ConfigError::MultipleTunnels),
            r is Err ==> r matches Err(ConfigError::MultipleTunnels),
            r matches Ok(None) <==> self.tunnels_map().dom().len() == 0,
            r matches Ok(Some(kv)) ==> self.tunnels_map().dom().len() == 1
                && self.tunnels_map().dom().contains(kv.0@) && *kv.1 == self.tunnels_map()[kv.0@],
    {
        proof {
            self.lemma_well_formed();
        }
        if self.tunnels.len() > 1 {
            return Err(ConfigError::MultipleTunnels);
        }
        Ok(self.tunnels.first_key_value())
    }

    /// The tunnel stored under `name`.
    pub fn try_get_tunnel(&self, name: &str) -> (r: Option<(&String, &TunnelConfig)>)
        requires
            self.well_formed(),
        ensures
            match r {
                Some(kv) => self.tunnels_map().dom().contains(name@) && kv.0@ == name@ && *kv.1
                    == self.tunnels_map()[name@],
                None => !self.tunnels_map().dom().contains(name@),
            },
    {
        self.tunnels.get_key_value(name)
    }

    /// All tunnels as (local name, tunnel) pairs, in ascending order of name.
    pub fn list_tunnels(&self) -> (r: Vec<(&String, &TunnelConfig)>)
        requires
            self.well_formed(),
        ensures
            r@.len() == self.tunnel_entries().len(),
            forall|i: int|
                0 <= i < r@.len() ==> (#[trigger] r@[i]).0@ == self.tunnel_entries()[i].0 && *r@[i].1
                    == self.tunnel_entries()[i].1,
    {
        let n = self.tunnels.len();
        let mut r: Vec<(&String, &TunnelConfig)> = Vec::new();
        let mut i: usize = 0;
        while i < n
            invariant
                n == self.tunnel_entries().len(),
                i <= n,
                r@.len() == i,
                forall|j: int|
                    0 <= j < i ==> (#[trigger] r@[j]).0@ == self.tunnel_entries()[j].0 && *r@[j].1
                        == self.tunnel_entries()[j].1,
            decreases n - i,
        {
            let e = self.tunnels.entry_at(i);
            r.push(e);
            i = i + 1;
        }
        r
    }

    /// Stores `config` under `name` unless that name is taken.
    pub fn try_add_tunnel(&mut self, name: String, config: TunnelConfig) -> (r: Result<(), ConfigError>)
        requires
            old(self).well_formed(),
        ensures
            final(self).well_formed(),
            final(self).id == old(self).id,
            old(self).tunnels_map().dom().contains(name@) ==> (r matches Err(
                ConfigError::TunnelAlreadyPresent(n),
            ) && n@ == name@ && *final(self) == *old(self)),
            !old(self).tunnels_map().dom().contains(name@) ==> r is Ok && final(self).tunnels_map()
                == old(self).tunnels_map().insert(name@, config),
    {
        if self.tunnels.contains(name.as_str()) {
            return Err(ConfigError::TunnelAlreadyPresent(name));
        }
        self.tunnels.insert_new(name, config);
        Ok(())
    }

    /// Removes the tunnel stored under `name` and hands it back.
    pub fn try_remove_tunnel(&mut self, name: &str) -> (r: Result<TunnelConfig, ConfigError>)
        requires
            old(self).well_formed(),
        ensures
            final(self).well_formed(),
            final(self).id == old(self).id,
            old(self).tunnels_map().dom().contains(name@) ==> (r matches Ok(t) && t
                == old(self).tunnels_map()[name@] && final(self).tunnels_map() == old(
                self,
            ).tunnels_map().remove(name@)),
            !old(self).tunnels_map().dom().contains(name@) ==> (r matches Err(
                ConfigError::TunnelNotPresent(n),
            ) && n@ == name@ && *final(self) == *old(self)),
    {
        proof {
            self.tunnels.lemma_well_formed();
        }
        match self.tunnels.find(name) {
            Some(i) => {
                let (_, t) = self.tunnels.remove_at(i);
                Ok(t)
            },
            None => Err(ConfigError::TunnelNotPresent(crate::text::to_owned_string(name))),
        }
    }

    /// A local name for a new tunnel: the first of `tun0`, `tun1`, ... not in use.
    pub fn generate_config_tunnel_name(&self) -> (r: String)
        requires
            self.well_formed(),
        ensures
            !self.tunnels_map().dom().contains(r@),
            exists|i: nat|
                r@ == numbered_name("tun"@, i) && forall|j: nat|
                    j < i ==> self.tunnels_map().dom().contains(#[trigger] numbered_name("tun"@, j)),
            r@ == first_free_name(self.tunnels_map().dom(), "tun"@),
    {
        self.tunnels.first_free_numbered_name("tun")
    }
}

/// Removing a tunnel right after adding it under a free name gives back the
/// network's tunnels as they were; in between it is found under that name.
pub proof fn lemma_add_then_remove_tunnel(
    before: NetworkConfig,
    added: NetworkConfig,
    removed: NetworkConfig,
    name: Seq<char>,
    tunnel: TunnelConfig,
)
    requires
        !before.tunnels_map().dom().contains(name),
        added.tunnels_map() == before.tunnels_map().insert(name, tunnel),
        removed.tunnels_map() == added.tunnels_map().remove(name),
    ensures
        added.tunnels_map().dom().contains(name),
        added.tunnels_map()[name] == tunnel,
        removed.tunnels_map() == before.tunnels_map(),
{
    assert(removed.tunnels_map() =~= before.tunnels_map());
}

} // verus!
