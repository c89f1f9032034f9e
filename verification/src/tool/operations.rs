//! The helper tool's decisions on what the cluster lists: whether a release
//! exists, which releases to remove, which pod to read a configuration from.
use vstd::prelude::*;

verus! {

/// Whether a release exists, from the number of resources matching it, and
/// whether that number is ambiguous (more than one).
pub fn check_if_resource_exists(count: usize) -> (r: (bool, bool))
    ensures
        r.0 == (count > 0),
        r.1 == (count > 1),
{
    if count == 0 {
        (false, false)
    } else if count == 1 {
        (true, false)
    } else {
        (true, true)
    }
}

/// Why the helper tool refuses to act on the releases it found.
#[derive(Debug, Clone, Copy, PartialEq, Eq, Structural)]
pub enum ReleaseError {
    /// Several releases were found and none was named.
    MultipleReleases,
    /// The chosen pod has no name.
    NamelessPod,
    /// A release of the same name exists and installing was not forced.
    ReleaseExists,
}

/// Whether `install` goes ahead: a release of the same name already in the
/// cluster is deployed over only when forced.
pub fn plan_tool_install(exists: bool, force: bool) -> (r: Result<(), ReleaseError>)
    ensures
        r is Err <==> exists && !force,
        r matches Err(e) ==> e == ReleaseError::ReleaseExists,
{
    if exists && !force {
        Err(ReleaseError::ReleaseExists)
    } else {
        Ok(())
    }
}

/// The names present among the listed resources, in order; nameless ones
/// are left out.
pub open spec fn present_names(items: Seq<Option<String>>) -> Seq<Seq<char>>
    decreases items.len(),
{
    if items.len() == 0 {
        Seq::empty()
    } else {
        match items.last() {
            Some(n) => present_names(items.drop_last()).push(n@),
            None => present_names(items.drop_last()),
        }
    }
}

/// The texts of a sequence of strings.
pub open spec fn names_view(v: Seq<String>) -> Seq<Seq<char>> {
    v.map_values(|s: String| s@)
}

/// The names of the listed resources, leaving out nameless ones.
pub fn named_resources(items: &Vec<Option<String>>) -> (r: Vec<String>)
    ensures
        names_view(r@) == present_names(items@),
{
    let mut r: Vec<String> = Vec::new();
    let mut i: usize = 0;
    while i < items.len()
        invariant
            i <= items@.len(),
            names_view(r@) == present_names(items@.take(i as int)),
        decreases items@.len() - i,
    {
        assert(items@.take(i + 1).drop_last() =~= items@.take(i as int));
        match &items[i] {
            Some(n) => {
                let ghost prev = r@;
                r.push(n.clone());
                assert(names_view(r@) =~= names_view(prev).push(n@));
            },
            None => {},
        }
        i = i + 1;
    }
    assert(items@.take(items@.len() as int) =~= items@);
    r
}

/// `uninstall`: the release deployments to delete, by name. Without a
/// release name there must be at most one.
pub fn uninstall_targets(release_name: Option<&str>, deployments: &Vec<Option<String>>) -> (r:
    Result<Vec<String>, ReleaseError>)
    ensures
        (release_name is None && deployments@.len() > 1) <==> r is Err,
        r matches Err(e) ==> e == ReleaseError::MultipleReleases,
        r matches Ok(v) ==> names_view(v@) == present_names(deployments@),
{
    if release_name.is_none() && deployments.len() > 1 {
        return Err(ReleaseError::MultipleReleases);
    }
    Ok(named_resources(deployments))
}

/// `connect`: the pod to read the peer configuration from, picked among the
/// release's pods by the number of seconds since the Unix epoch. Without a
/// release name there must be at most one pod.
pub fn choose_peer_pod(release_name: Option<&str>, pods: &Vec<Option<String>>, secs: u64) -> (r:
    Result<String, ReleaseError>)
    requires
        pods@.len() > 0,
    ensures
        release_name is None && pods@.len() > 1 ==> r == Err::<String, ReleaseError>(
            ReleaseError::MultipleReleases,
        ),
        !(release_name is None && pods@.len() > 1) ==> match pods@[(secs as int) % (pods@.len() as int)] {
            Some(n) => r matches Ok(p) && p@ == n@,
            None => r == Err::<String, ReleaseError>(ReleaseError::NamelessPod),
        },
{
    if release_name.is_none() && pods.len() > 1 {
        return Err(ReleaseError::MultipleReleases);
    }
    let n = pods.len() as u64;
    let k = (secs % n) as usize;
    match &pods[k] {
        Some(p) => Ok(p.clone()),
        None => Err(ReleaseError::NamelessPod),
    }
}

/// A file read by running `cat` in a pod: what it printed, unless it
/// printed nothing, when what it reported on its error output is the error.
pub fn text_file_result(stdout: String, stderr: String) -> (r: Result<String, String>)
    ensures
        stdout@.len() > 0 ==> (r matches Ok(t) && t@ == stdout@),
        stdout@.len() == 0 ==> (r matches Err(e) && e@ == stderr@),
{
    if stdout.as_str().unicode_len() == 0 {
        Err(stderr)
    } else {
        Ok(stdout)
    }
}

} // verus!
