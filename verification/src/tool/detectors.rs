//! Detecting a cluster's pod CIDR and cluster domain from its config maps.
use vstd::prelude::*;
use crate::formats::{json_string_field, read_json_string_field, read_yaml_string_field, yaml_string_field, FieldError};
use crate::name_map::{str_equal, NameMap};

verus! {

/// A config map: its name and its data entries.
pub struct ConfigMap {
    pub name: Option<String>,
    pub data: Option<NameMap<String>>,
}

impl ConfigMap {
    /// The data entries, if any, form a well-formed map.
    pub open spec fn well_formed(&self) -> bool {
        self.data matches Some(d) ==> d.well_formed()
    }
}

/// The data entry of a config map under `key`.
pub open spec fn data_entry(c: ConfigMap, key: Seq<char>) -> Option<Seq<char>> {
    match c.data {
        Some(d) => if d.map().dom().contains(key) {
            Some(d.map()[key]@)
        } else {
            None
        },
        None => None,
    }
}

fn get_data<'a>(c: &'a ConfigMap, key: &str) -> (r: Option<&'a String>)
    requires
        c.well_formed(),
    ensures
        match r {
            Some(v) => data_entry(*c, key@) == Some(v@),
            None => data_entry(*c, key@) is None,
        },
{
    match &c.data {
        Some(d) => match d.get_key_value(key) {
            Some((_, v)) => Some(v),
            None => None,
        },
        None => None,
    }
}

/// The Cilium pod CIDR of its config map: its `cluster-pool-ipv4-cidr` entry.
pub open spec fn cilium_cidr(c: ConfigMap) -> Option<Seq<char>> {
    data_entry(c, "cluster-pool-ipv4-cidr"@)
}

/// The Flannel pod CIDR of its config map: the `Network` string of the JSON
/// object in its `net-conf.json` entry.
pub open spec fn flannel_cidr(c: ConfigMap) -> Option<Seq<char>> {
    match data_entry(c, "net-conf.json"@) {
        Some(conf) => match json_string_field(conf, "Network"@) {
            Ok(cidr) => Some(cidr),
            Err(_) => None,
        },
        None => None,
    }
}

/// The pod CIDR in Cilium's config map.
pub fn try_get_cilium_cidr(configmap: &ConfigMap) -> (r: Option<String>)
    requires
        configmap.well_formed(),
    ensures
        match r {
            Some(v) => cilium_cidr(*configmap) == Some(v@),
            None => cilium_cidr(*configmap) is None,
        },
{
    match get_data(configmap, "cluster-pool-ipv4-cidr") {
        Some(v) => Some(v.clone()),
        None => None,
    }
}

/// The pod CIDR in Flannel's config map.
pub fn try_get_flannel_cidr(configmap: &ConfigMap) -> (r: Option<String>)
    requires
        configmap.well_formed(),
    ensures
        match r {
            Some(v) => flannel_cidr(*configmap) == Some(v@),
            None => flannel_cidr(*configmap) is None,
        },
{
    match get_data(configmap, "net-conf.json") {
        Some(conf) => match read_json_string_field(conf.as_str(), "Network") {
            Ok(cidr) => Some(cidr),
            Err(_) => None,
        },
        None => None,
    }
}

/// The network plugins whose pod CIDR can be detected.
#[derive(Debug, Clone, Copy, PartialEq, Eq, Structural)]
pub enum Cni {
    Cilium,
    Flannel,
}

/// A pod CIDR and the plugin it was found for.
pub struct CniCidr {
    pub cidr: String,
    pub cni: Cni,
}

/// What a config map tells of the pod CIDR: Cilium's and Flannel's config
/// maps (by name) carry it; others, and those without it, tell nothing.
pub open spec fn configmap_cidr(c: ConfigMap) -> Option<(Cni, Seq<char>)> {
    match c.name {
        Some(n) => if n@ == "cilium-config"@ {
            match cilium_cidr(c) {
                Some(x) => Some((Cni::Cilium, x)),
                None => None,
            }
        } else if n@ == "kube-flannel-cfg"@ {
            match flannel_cidr(c) {
                Some(x) => Some((Cni::Flannel, x)),
                None => None,
            }
        } else {
            None
        },
        None => None,
    }
}

/// The pod CIDRs that a list of config maps tells, in order.
pub open spec fn configmaps_cidrs(s: Seq<ConfigMap>) -> Seq<(Cni, Seq<char>)>
    decreases s.len(),
{
    if s.len() == 0 {
        Seq::empty()
    } else {
        match configmap_cidr(s.last()) {
            Some(x) => configmaps_cidrs(s.drop_last()).push(x),
            None => configmaps_cidrs(s.drop_last()),
        }
    }
}

/// The plugins and texts of a sequence of pod CIDRs.
pub open spec fn cni_cidrs_view(v: Seq<CniCidr>) -> Seq<(Cni, Seq<char>)> {
    v.map_values(|c: CniCidr| (c.cni, c.cidr@))
}

/// The pod CIDR that a config map tells, if any.
pub fn cni_cidr(configmap: &ConfigMap) -> (r: Option<CniCidr>)
    requires
        configmap.well_formed(),
    ensures
        match r {
            Some(c) => configmap_cidr(*configmap) == Some((c.cni, c.cidr@)),
            None => configmap_cidr(*configmap) is None,
        },
{
    match &configmap.name {
        Some(n) => {
            if str_equal(n.as_str(), "cilium-config") {
                match try_get_cilium_cidr(configmap) {
                    Some(cidr) => Some(CniCidr { cni: Cni::Cilium, cidr }),
                    None => None,
                }
            } else if str_equal(n.as_str(), "kube-flannel-cfg") {
                match try_get_flannel_cidr(configmap) {
                    Some(cidr) => Some(CniCidr { cni: Cni::Flannel, cidr }),
                    None => None,
                }
            } else {
                None
            }
        },
        None => None,
    }
}

/// The pod CIDRs that the cluster's config maps tell, in order.
pub fn get_cluster_configmaps(configmaps: &Vec<ConfigMap>) -> (r: Vec<CniCidr>)
    requires
        forall|i: int| 0 <= i < configmaps@.len() ==> (#[trigger] configmaps@[i]).well_formed(),
    ensures
        cni_cidrs_view(r@) == configmaps_cidrs(configmaps@),
{
    let mut r: Vec<CniCidr> = Vec::new();
    let mut i: usize = 0;
    while i < configmaps.len()
        invariant
            forall|k: int| 0 <= k < configmaps@.len() ==> (#[trigger] configmaps@[k]).well_formed(),
            i <= configmaps@.len(),
            cni_cidrs_view(r@) == configmaps_cidrs(configmaps@.take(i as int)),
        decreases configmaps@.len() - i,
    {
        assert(configmaps@.take(i + 1).drop_last() =~= configmaps@.take(i as int));
        match cni_cidr(&configmaps[i]) {
            Some(c) => {
                let ghost prev = r@;
                let ghost x = (c.cni, c.cidr@);
                r.push(c);
                assert(cni_cidrs_view(r@) =~= cni_cidrs_view(prev).push(x));
            },
            None => {},
        }
        i = i + 1;
    }
    assert(configmaps@.take(configmaps@.len() as int) =~= configmaps@);
    r
}

/// Why a cluster parameter could not be detected.
#[derive(Debug, Clone, Copy, PartialEq, Eq, Structural)]
pub enum DetectError {
    /// No config map of a supported network plugin tells the pod CIDR.
    UnsupportedCni,
    /// The kubelet config map has no data.
    MissingData,
    /// The kubelet config map has no `kubelet` entry.
    MissingKubeletEntry,
    /// The kubelet configuration could not be read for its cluster domain.
    InvalidKubeletConfig(FieldError),
}

/// The pod CIDR: the first that the cluster's config maps tell.
pub fn detect_pod_cidr(configmaps: &Vec<ConfigMap>) -> (r: Result<String, DetectError>)
    requires
        forall|i: int| 0 <= i < configmaps@.len() ==> (#[trigger] configmaps@[i]).well_formed(),
    ensures
        configmaps_cidrs(configmaps@).len() == 0 ==> r == Err::<String, DetectError>(
            DetectError::UnsupportedCni,
        ),
        configmaps_cidrs(configmaps@).len() > 0 ==> (r matches Ok(c) && c@ == configmaps_cidrs(
            configmaps@,
        )[0].1),
{
    let mut found = get_cluster_configmaps(configmaps);
    if found.len() == 0 {
        return Err(DetectError::UnsupportedCni);
    }
    let first = found.remove(0);
    Ok(first.cidr)
}

/// The cluster domain in the kubelet's config map: none without that map;
/// else the `clusterDomain` string of the YAML mapping in its `kubelet` entry.
pub fn detect_cluster_domain(kubelet_configmap: Option<&ConfigMap>) -> (r: Result<
    Option<String>,
    DetectError,
>)
    requires
        kubelet_configmap matches Some(c) ==> c.well_formed(),
    ensures
        match kubelet_configmap {
            None => r matches Ok(None),
            Some(c) => match c.data {
                None => r == Err::<Option<String>, DetectError>(DetectError::MissingData),
                Some(_) => match data_entry(*c, "kubelet"@) {
                    None => r == Err::<Option<String>, DetectError>(
                        DetectError::MissingKubeletEntry,
                    ),
                    Some(conf) => match yaml_string_field(conf, "clusterDomain"@) {
                        Ok(domain) => r matches Ok(Some(d)) && d@ == domain,
                        Err(e) => r == Err::<Option<String>, DetectError>(
                            DetectError::InvalidKubeletConfig(e),
                        ),
                    },
                },
            },
        },
{
    let c = match kubelet_configmap {
        Some(c) => c,
        None => {
            return Ok(None);
        },
    };
    if c.data.is_none() {
        return Err(DetectError::MissingData);
    }
    let conf = match get_data(c, "kubelet") {
        Some(v) => v,
        None => {
            return Err(DetectError::MissingKubeletEntry);
        },
    };
    match read_yaml_string_field(conf.as_str(), "clusterDomain") {
        Ok(domain) => Ok(Some(domain)),
        Err(e) => Err(DetectError::InvalidKubeletConfig(e)),
    }
}

/// The pod CIDRs of two lists one after the other are those of the first
/// list followed by those of the second: every config map is examined, in
/// order.
pub proof fn lemma_configmaps_cidrs_append(s: Seq<ConfigMap>, t: Seq<ConfigMap>)
    ensures
        configmaps_cidrs(s + t) == configmaps_cidrs(s) + configmaps_cidrs(t),
    decreases t.len(),
{
    if t.len() == 0 {
        assert(s + t =~= s);
        assert(configmaps_cidrs(t) =~= Seq::<(Cni, Seq<char>)>::empty());
        assert(configmaps_cidrs(s) + configmaps_cidrs(t) =~= configmaps_cidrs(s));
    } else {
        assert((s + t).drop_last() =~= s + t.drop_last());
        assert((s + t).last() == t.last());
        lemma_configmaps_cidrs_append(s, t.drop_last());
        match configmap_cidr(t.last()) {
            Some(x) => {
                assert(configmaps_cidrs(s) + configmaps_cidrs(t.drop_last()).push(x) =~= (
                configmaps_cidrs(s) + configmaps_cidrs(t.drop_last())).push(x));
            },
            None => {},
        }
    }
}

/// A single config map tells its own pod CIDR: Cilium's config map
/// (`cilium-config`) its `cluster-pool-ipv4-cidr` entry, Flannel's
/// (`kube-flannel-cfg`) the `Network` field of its `net-conf.json` entry;
/// any other config map tells nothing.
pub proof fn lemma_single_configmap_cidr(c: ConfigMap)
    ensures
        c.name matches Some(n) ==> (n@ == "cilium-config"@ ==> (data_entry(
            c,
            "cluster-pool-ipv4-cidr"@,
        ) matches Some(x) ==> configmaps_cidrs(seq![c]) == seq![(Cni::Cilium, x)])),
        c.name matches Some(n) ==> (n@ == "kube-flannel-cfg"@ ==> (data_entry(c, "net-conf.json"@) matches Some(
            conf,
        ) ==> (json_string_field(conf, "Network"@) matches Ok(x) ==> configmaps_cidrs(seq![c])
            == seq![(Cni::Flannel, x)]))),
        c.name matches Some(n) ==> (n@ != "cilium-config"@ && n@ != "kube-flannel-cfg"@
            ==> configmaps_cidrs(seq![c]).len() == 0),
        c.name is None ==> configmaps_cidrs(seq![c]).len() == 0,
{
    reveal_strlit("cilium-config");
    reveal_strlit("kube-flannel-cfg");
    assert(seq![c].drop_last() =~= Seq::<ConfigMap>::empty());
    assert(configmaps_cidrs(seq![c].drop_last()) =~= Seq::<(Cni, Seq<char>)>::empty());
    assert(seq![c].last() == c);
    if let Some(n) = c.name {
        if n@ == "kube-flannel-cfg"@ {
            assert(n@[0] == 'k' && "cilium-config"@[0] == 'c');
            assert(n@ != "cilium-config"@);
            assert(configmap_cidr(c) == match flannel_cidr(c) {
                Some(x) => Some((Cni::Flannel, x)),
                None => None,
            });
        }
    }
    match configmap_cidr(c) {
        Some(x) => assert(configmaps_cidrs(seq![c]) =~= seq![x]),
        None => assert(configmaps_cidrs(seq![c]) =~= Seq::<(Cni, Seq<char>)>::empty()),
    }
}

/// The config map at each position of a list, when it tells a pod CIDR,
/// contributes it after those of the maps before it and before those after.
pub proof fn lemma_configmap_at_position(s: Seq<ConfigMap>, i: int)
    requires
        0 <= i < s.len(),
    ensures
        configmaps_cidrs(s) == configmaps_cidrs(s.take(i)) + configmaps_cidrs(seq![s[i]])
            + configmaps_cidrs(s.skip(i + 1)),
{
    lemma_configmaps_cidrs_append(s.take(i), seq![s[i]]);
    lemma_configmaps_cidrs_append(s.take(i) + seq![s[i]], s.skip(i + 1));
    assert(s.take(i) + seq![s[i]] + s.skip(i + 1) =~= s);
}

} // verus!
