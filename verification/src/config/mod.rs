//! The local k8s-insider configuration: the networks the user works with and
//! the tunnels created for each of them.
use vstd::prelude::*;
use crate::name_map::{NameMap, first_free_name, numbered_name};
use crate::text::{push_str, to_owned_string};
use self::network::NetworkConfig;

pub mod network;
pub mod tunnel;

verus! {

/// Why an operation on the local configuration was refused.
#[derive(Debug)]
pub enum ConfigError {
    /// There are several networks, so none is the default one.
    MultipleNetworks,
    /// There are several tunnels, so none is the default one.
    MultipleTunnels,
    /// A network with this local name is already stored.
    NetworkAlreadyPresent(String),
    /// A tunnel with this local name is already stored.
    TunnelAlreadyPresent(String),
    /// No network is stored under this local name.
    NetworkNotPresent(String),
    /// No tunnel is stored under this local name.
    TunnelNotPresent(String),
    /// No network is stored at all.
    NoNetworks,
    /// The network stores no tunnel at all.
    NoTunnels,
}

/// The name `name-context` under which a network is stored when its own name
/// is taken.
pub open spec fn name_with_context(name: Seq<char>, context: Seq<char>) -> Seq<char> {
    name + "-"@ + context
}

/// The local name a network gets when none is given: its own name if free,
/// else `name-context` if free, else the first free of `name-context0`,
/// `name-context1`, ...
pub open spec fn generated_network_name(
    taken: Set<Seq<char>>,
    name: Seq<char>,
    context: Seq<char>,
) -> Seq<char> {
    if !taken.contains(name) {
        name
    } else if !taken.contains(name_with_context(name, context)) {
        name_with_context(name, context)
    } else {
        first_free_name(taken, name_with_context(name, context))
    }
}

/// The local configuration: networks by local name, and the file it was read from.
pub struct InsiderConfig {
    pub path: Option<String>,
    pub networks: NameMap<NetworkConfig>,
}

impl InsiderConfig {
    /// The networks by local name.
    pub open spec fn networks_map(&self) -> Map<Seq<char>, NetworkConfig> {
        self.networks.map()
    }

    /// The networks as (local name, network) pairs in ascending order of name.
    pub open spec fn network_entries(&self) -> Seq<(Seq<char>, NetworkConfig)> {
        self.networks.entries_view()
    }

    /// Both the network table and every network's tunnel table are sorted.
    pub open spec fn well_formed(&self) -> bool {
        &&& self.networks.well_formed()
        &&& forall|k: Seq<char>| #[trigger]
            self.networks_map().dom().contains(k) ==> self.networks_map()[k].well_formed()
    }

    /// An empty configuration that belongs to no file.
    pub fn new() -> (r: Self)
        ensures
            r.well_formed(),
            r.path is None,
            r.networks_map() == Map::<Seq<char>, NetworkConfig>::empty(),
            r.network_entries() == Seq::<(Seq<char>, NetworkConfig)>::empty(),
    {
        InsiderConfig { path: None, networks: NameMap::new() }
    }

    /// A local name for `network`: its own name if free, else `name-context`
    /// if free, else the first free of `name-context0`, `name-context1`, ...
    pub fn generate_config_network_name(&self, network: &NetworkConfig) -> (r: String)
        requires
            self.well_formed(),
        ensures
            !self.networks_map().dom().contains(r@),
            !self.networks_map().dom().contains(network.id.name@) ==> r@ == network.id.name@,
            self.networks_map().dom().contains(network.id.name@) && !self.networks_map().dom().contains(
                name_with_context(network.id.name@, network.id.context@),
            ) ==> r@ == name_with_context(network.id.name@, network.id.context@),
            self.networks_map().dom().contains(network.id.name@) && self.networks_map().dom().contains(
                name_with_context(network.id.name@, network.id.context@),
            ) ==> exists|i: nat|
                r@ == numbered_name(name_with_context(network.id.name@, network.id.context@), i)
                    && forall|j: nat|
                    j < i ==> self.networks_map().dom().contains(
                        #[trigger] numbered_name(
                            name_with_context(network.id.name@, network.id.context@),
                            j,
                        ),
                    ),
            r@ == generated_network_name(
                self.networks_map().dom(),
                network.id.name@,
                network.id.context@,
            ),
    {
        if !self.networks.contains(network.id.name.as_str()) {
            return network.id.name.clone();
        }
        let mut name_context = network.id.name.clone();
        push_str(&mut name_context, "-");
        push_str(&mut name_context, network.id.context.as_str());
        proof {
            reveal_strlit("-");
        }
        assert(name_context@ == name_with_context(network.id.name@, network.id.context@));
        if !self.networks.contains(name_context.as_str()) {
            return name_context;
        }
        self.networks.first_free_numbered_name(name_context.as_str())
    }

    /// The only network, if there is at most one; an error if there are several.
    pub fn try_get_default_network(&self) -> (r: Result<Option<(&String, &NetworkConfig)>, ConfigError>)
        requires
            self.well_formed(),
        ensures
            self.networks_map().dom().len() > 1 <==> r matches Err(ConfigError::MultipleNetworks),
            r is Err ==> r matches Err(ConfigError::MultipleNetworks),
            r matches Ok(None) <==> self.networks_map().dom().len() == 0,
            r matches Ok(Some(kv)) ==> self.networks_map().dom().len() == 1
                && self.networks_map().dom().contains(kv.0@) && *kv.1 == self.networks_map()[kv.0@],
    {
        proof {
            self.networks.lemma_well_formed();
        }
        if self.networks.len() > 1 {
            return Err(ConfigError::MultipleNetworks);
        }
        Ok(self.networks.first_key_value())
    }

    /// The network stored under `name`.
    pub fn try_get_network(&self, name: &str) -> (r: Option<(&String, &NetworkConfig)>)
        requires
            self.well_formed(),
        ensures
            match r {
                Some(kv) => self.networks_map().dom().contains(name@) && kv.0@ == name@ && *kv.1
                    == self.networks_map()[name@],
                None => !self.networks_map().dom().contains(name@),
            },
    {
        self.networks.get_key_value(name)
    }

    /// A mutable reference to the network stored under `name`. The
    /// configuration stays well formed as long as the network does.
    pub fn try_get_network_mut(&mut self, name: &str) -> (r: Option<&mut NetworkConfig>)
        requires
            old(self).well_formed(),
        ensures
            match r {
                Some(v) => {
                    &&& old(self).networks_map().dom().contains(name@)
                    &&& *v == old(self).networks_map()[name@]
                    &&& final(self).networks_map() == old(self).networks_map().insert(name@, *final(v))
                    &&& final(self).path == old(self).path
                    &&& final(v).well_formed() ==> final(self).well_formed()
                },
                None => !old(self).networks_map().dom().contains(name@) && *final(self) == *old(self),
            },
    {
        self.networks.get_mut(name)
    }

    /// All networks as (local name, network) pairs, in ascending order of name.
    pub fn list_networks(&self) -> (r: Vec<(&String, &NetworkConfig)>)
        requires
            self.well_formed(),
        ensures
            r@.len() == self.network_entries().len(),
            forall|i: int|
                0 <= i < r@.len() ==> (#[trigger] r@[i]).0@ == self.network_entries()[i].0 && *r@[i].1
                    == self.network_entries()[i].1,
    {
        let n = self.networks.len();
        let mut r: Vec<(&String, &NetworkConfig)> = Vec::new();
        let mut i: usize = 0;
        while i < n
            invariant
                n == self.network_entries().len(),
                i <= n,
                r@.len() == i,
                forall|j: int|
                    0 <= j < i ==> (#[trigger] r@[j]).0@ == self.network_entries()[j].0 && *r@[j].1
                        == self.network_entries()[j].1,
            decreases n - i,
        {
            let e = self.networks.entry_at(i);
            r.push(e);
            i = i + 1;
        }
        r
    }

    /// Stores `config` under `name` unless that name is taken.
    pub fn try_add_network(&mut self, name: String, config: NetworkConfig) -> (r: Result<(), ConfigError>)
        requires
            old(self).well_formed(),
            config.well_formed(),
        ensures
            final(self).well_formed(),
            final(self).path == old(self).path,
            old(self).networks_map().dom().contains(name@) ==> (r matches Err(
                ConfigError::NetworkAlreadyPresent(n),
            ) && n@ == name@ && *final(self) == *old(self)),
            !old(self).networks_map().dom().contains(name@) ==> r is Ok && final(self).networks_map()
                == old(self).networks_map().insert(name@, config),
    {
        if self.networks.contains(name.as_str()) {
            return Err(ConfigError::NetworkAlreadyPresent(name));
        }
        let ghost old_map = self.networks_map();
        let ghost k = name@;
        let ghost c = config;
        self.networks.insert_new(name, config);
        assert forall|key: Seq<char>| #[trigger]
            self.networks_map().dom().contains(key) implies self.networks_map()[key].well_formed() by {
            if key != k {
                assert(old_map.dom().contains(key));
            }
        }
        Ok(())
    }

    /// Removes the network stored under `name` and hands it back.
    pub fn try_remove_network(&mut self, name: &str) -> (r: Result<NetworkConfig, ConfigError>)
        requires
            old(self).well_formed(),
        ensures
            final(self).well_formed(),
            final(self).path == old(self).path,
            old(self).networks_map().dom().contains(name@) ==> (r matches Ok(n) && n
                == old(self).networks_map()[name@] && final(self).networks_map() == old(
                self,
            ).networks_map().remove(name@)),
            !old(self).networks_map().dom().contains(name@) ==> (r matches Err(
                ConfigError::NetworkNotPresent(n),
            ) && n@ == name@ && *final(self) == *old(self)),
    {
        proof {
            self.networks.lemma_well_formed();
        }
        match self.networks.find(name) {
            Some(i) => {
                let ghost old_map = self.networks_map();
                let (_, n) = self.networks.remove_at(i);
                assert forall|key: Seq<char>| #[trigger]
                    self.networks_map().dom().contains(key) implies self.networks_map()[key].well_formed() by {
                    assert(old_map.dom().contains(key));
                }
                Ok(n)
            },
            None => Err(ConfigError::NetworkNotPresent(to_owned_string(name))),
        }
    }
}

/// A network added under a free name is found under that name, with the
/// configuration it was added with, beside the networks already there.
pub proof fn lemma_add_then_get_network(
    before: InsiderConfig,
    after: InsiderConfig,
    name: Seq<char>,
    network: NetworkConfig,
)
    requires
        before.well_formed(),
        !before.networks_map().dom().contains(name),
        after.networks_map() == before.networks_map().insert(name, network),
    ensures
        after.networks_map().dom().contains(name),
        after.networks_map()[name] == network,
        forall|k: Seq<char>|
            k != name ==> (#[trigger] after.networks_map().dom().contains(k)
                == before.networks_map().dom().contains(k)),
        after.networks_map().dom().len() == before.networks_map().dom().len() + 1,
{
    before.networks.lemma_well_formed();
}

/// Removing a network right after adding it under a free name gives back
/// the networks as they were.
pub proof fn lemma_add_then_remove_network(
    before: InsiderConfig,
    added: InsiderConfig,
    removed: InsiderConfig,
    name: Seq<char>,
    network: NetworkConfig,
)
    requires
        !before.networks_map().dom().contains(name),
        added.networks_map() == before.networks_map().insert(name, network),
        removed.networks_map() == added.networks_map().remove(name),
    ensures
        removed.networks_map() == before.networks_map(),
{
    assert(removed.networks_map() =~= before.networks_map());
}

} // verus!
