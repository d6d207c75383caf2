//! Release configuration: the version selector, feature gates and the chart
//! configuration that every operation of the orchestrator reads.

use vstd::prelude::*;

verus! {

/// Version selector for a release: either follow the newest chart the
/// repository offers, or pin to a concrete version string.
#[derive(Debug, PartialEq, Eq)]
pub enum Install {
    /// Track the latest available version; the payload records whether the
    /// caller asked for automatic updates and plays no part in resolution.
    FollowLatest(bool),
    /// Pin to the literal version string, passed through unvalidated.
    Version(String),
}

/// The version argument a selector resolves to: empty for follow-latest
/// (the external tool then defaults to the newest available), the pinned
/// string verbatim otherwise.
pub open spec fn resolved_selector(v: Install) -> Seq<char> {
    match v {
        Install::FollowLatest(_) => Seq::empty(),
        Install::Version(s) => s@,
    }
}

/// Resolution of an optional selector: an absent selector behaves like
/// follow-latest.
pub open spec fn resolved_version(v: Option<Install>) -> Seq<char> {
    match v {
        Some(sel) => resolved_selector(sel),
        None => Seq::empty(),
    }
}

impl Install {
    /// Maps the selector to the version argument handed to the external tool.
    pub fn resolve(&self) -> (r: String)
        ensures
            r@ == resolved_selector(*self),
    {
        match self {
            Install::FollowLatest(_) => String::new(),
            Install::Version(v) => v.clone(),
        }
    }
}

impl Clone for Install {
    fn clone(&self) -> (r: Self)
        ensures
            r == *self,
    {
        match self {
            Install::FollowLatest(b) => Install::FollowLatest(*b),
            Install::Version(v) => Install::Version(v.clone()),
        }
    }
}

impl Default for Install {
    /// An unspecified selector follows the latest version.
    fn default() -> (r: Self)
        ensures
            r is FollowLatest,
            resolved_selector(r) == Seq::<char>::empty(),
    {
        Install::FollowLatest(true)
    }
}

/// Named boolean toggles propagated to the primary release as environment
/// variables of its values payload.
#[derive(Debug, Clone, Copy, PartialEq, Eq)]
pub struct FeatureGates {
    pub experimental_oci_storage: bool,
    pub experimental_helm_ops: bool,
}

impl Default for FeatureGates {
    fn default() -> (r: Self)
        ensures
            !r.experimental_oci_storage,
            !r.experimental_helm_ops,
    {
        FeatureGates { experimental_oci_storage: false, experimental_helm_ops: false }
    }
}

/// Configuration for the fleet and fleet-crd releases, owned by the caller
/// and read (never written) by every orchestrator operation.
#[derive(Debug)]
pub struct FleetChart {
    /// URL of the chart repository to register under the fixed name "fleet".
    pub repo: String,
    /// Version selector; absent means follow-latest.
    pub version: Option<Install>,
    /// Target namespace for installs and upgrades.
    pub namespace: String,

    /// Wait for resources to become ready before returning.
    pub wait: bool,
    pub update_dependency: bool,
    /// Create the target namespace if it does not exist.
    pub create_namespace: bool,

    /// Bootstrap flag forwarded to the primary release's values payload.
    pub bootstrap_local_cluster: bool,

    pub feature_gates: FeatureGates,
}

impl FleetChart {
    /// The version argument for this configuration.
    pub fn resolve_version(&self) -> (r: String)
        ensures
            r@ == resolved_version(self.version),
    {
        match &self.version {
            Some(sel) => sel.resolve(),
            None => String::new(),
        }
    }
}

impl Clone for FleetChart {
    fn clone(&self) -> (r: Self)
        ensures
            r == *self,
    {
        FleetChart {
            repo: self.repo.clone(),
            version: match &self.version {
                Some(sel) => Some(sel.clone()),
                None => None,
            },
            namespace: self.namespace.clone(),
            wait: self.wait,
            update_dependency: self.update_dependency,
            create_namespace: self.create_namespace,
            bootstrap_local_cluster: self.bootstrap_local_cluster,
            feature_gates: self.feature_gates,
        }
    }
}

impl Default for FleetChart {
    fn default() -> (r: Self)
        ensures
            r.repo@ == Seq::<char>::empty(),
            r.version is None,
            r.namespace@ == Seq::<char>::empty(),
            !r.wait,
            !r.update_dependency,
            !r.create_namespace,
            !r.bootstrap_local_cluster,
            !r.feature_gates.experimental_oci_storage,
            !r.feature_gates.experimental_helm_ops,
    {
        FleetChart {
            repo: String::new(),
            version: None,
            namespace: String::new(),
            wait: false,
            update_dependency: false,
            create_namespace: false,
            bootstrap_local_cluster: false,
            feature_gates: FeatureGates {
                experimental_oci_storage: false,
                experimental_helm_ops: false,
            },
        }
    }
}

} // verus!
