//! The table of component versions: the local tool, the latest release and
//! the images of the release on the cluster.
use vstd::prelude::*;
use crate::commands::install::ControllerRelease;
use crate::output::{strings_view, TableOutputRow};
use crate::text::to_owned_string;
use crate::version::LOCAL_INSIDER_VERSION;

verus! {

/// A component and its version.
pub struct VersionView<'a> {
    pub component: &'a str,
    pub version: &'a str,
}

/// A version if known, else `unknown`.
pub open spec fn or_unknown(v: Option<Seq<char>>) -> Seq<char> {
    match v {
        Some(x) => x,
        None => "unknown"@,
    }
}

impl<'a> VersionView<'a> {
    /// The version of this tool.
    pub fn get_local_cli_version() -> (r: Self)
        ensures
            r.component@ == "k8s-insider CLI (local)"@,
            r.version@ == LOCAL_INSIDER_VERSION@,
    {
        VersionView { component: "k8s-insider CLI (local)", version: LOCAL_INSIDER_VERSION }
    }

    /// The latest released version, `unknown` when it could not be found.
    pub fn get_latest_version(version: Option<&'a str>) -> (r: Self)
        ensures
            r.component@ == "k8s-insider CLI (latest)"@,
            r.version@ == or_unknown(
                match version {
                    Some(v) => Some(v@),
                    None => None,
                },
            ),
    {
        VersionView {
            component: "k8s-insider CLI (latest)",
            version: match version {
                Some(v) => v,
                None => "unknown",
            },
        }
    }

    /// The controller image's tag in the release, `unknown` without one.
    pub fn get_controller_image_version(release: Option<&'a ControllerRelease>) -> (r: Self)
        ensures
            r.component@ == "k8s-insider-controller"@,
            r.version@ == or_unknown(
                match release {
                    Some(rel) => Some(rel.controller_image_tag@),
                    None => None,
                },
            ),
    {
        VersionView {
            component: "k8s-insider-controller",
            version: match release {
                Some(rel) => rel.controller_image_tag.as_str(),
                None => "unknown",
            },
        }
    }

    /// The network manager image's tag in the release, `unknown` without one.
    pub fn get_network_manager_image_version(release: Option<&'a ControllerRelease>) -> (r: Self)
        ensures
            r.component@ == "k8s-insider-network-manager"@,
            r.version@ == or_unknown(
                match release {
                    Some(rel) => Some(rel.network_manager_image_tag@),
                    None => None,
                },
            ),
    {
        VersionView {
            component: "k8s-insider-network-manager",
            version: match release {
                Some(rel) => rel.network_manager_image_tag.as_str(),
                None => "unknown",
            },
        }
    }

    /// The router image's tag in the release, `unknown` without one.
    pub fn get_router_image_version(release: Option<&'a ControllerRelease>) -> (r: Self)
        ensures
            r.component@ == "k8s-insider-router"@,
            r.version@ == or_unknown(
                match release {
                    Some(rel) => Some(rel.router_image_tag@),
                    None => None,
                },
            ),
    {
        VersionView {
            component: "k8s-insider-router",
            version: match release {
                Some(rel) => rel.router_image_tag.as_str(),
                None => "unknown",
            },
        }
    }
}

impl<'a> TableOutputRow for VersionView<'a> {
    open spec fn name_text(&self) -> Seq<char> {
        self.component@
    }

    open spec fn column_names_text() -> Seq<Seq<char>> {
        seq!["COMPONENT"@, "VERSION"@]
    }

    open spec fn row_text(&self) -> Seq<Seq<char>> {
        seq![self.component@, self.version@]
    }

    fn get_name(&self) -> (r: String) {
        to_owned_string(self.component)
    }

    fn get_column_names() -> (r: Vec<String>) {
        let mut r: Vec<String> = Vec::new();
        r.push(to_owned_string("COMPONENT"));
        r.push(to_owned_string("VERSION"));
        assert(strings_view(r@) =~= Self::column_names_text());
        r
    }

    fn get_column_count() -> (r: usize) {
        2
    }

    fn get_row(&self) -> (r: Vec<String>) {
        let mut r: Vec<String> = Vec::new();
        r.push(to_owned_string(self.component));
        r.push(to_owned_string(self.version));
        assert(strings_view(r@) =~= self.row_text());
        r
    }
}

/// The five rows of the version table: local tool, latest release,
/// controller, network manager and router.
pub fn version_table<'a>(
    latest_version: Option<&'a str>,
    release: Option<&'a ControllerRelease>,
) -> (r: Vec<VersionView<'a>>)
    ensures
        r@.len() == 5,
        r@[0].component@ == "k8s-insider CLI (local)"@,
        r@[0].version@ == LOCAL_INSIDER_VERSION@,
        r@[1].version@ == or_unknown(
            match latest_version {
                Some(v) => Some(v@),
                None => None,
            },
        ),
        r@[2].version@ == or_unknown(
            match release {
                Some(rel) => Some(rel.controller_image_tag@),
                None => None,
            },
        ),
        r@[3].version@ == or_unknown(
            match release {
                Some(rel) => Some(rel.network_manager_image_tag@),
                None => None,
            },
        ),
        r@[4].version@ == or_unknown(
            match release {
                Some(rel) => Some(rel.router_image_tag@),
                None => None,
            },
        ),
        r@[1].component@ == "k8s-insider CLI (latest)"@,
        r@[2].component@ == "k8s-insider-controller"@,
        r@[3].component@ == "k8s-insider-network-manager"@,
        r@[4].component@ == "k8s-insider-router"@,
{
    let mut r: Vec<VersionView<'a>> = Vec::new();
    r.push(VersionView::get_local_cli_version());
    r.push(VersionView::get_latest_version(latest_version));
    r.push(VersionView::get_controller_image_version(release));
    r.push(VersionView::get_network_manager_image_version(release));
    r.push(VersionView::get_router_image_version(release));
    r
}

} // verus!
