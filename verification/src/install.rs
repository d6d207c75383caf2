//! The release orchestrator. Each operation is one request/response cycle
//! against the external process layer: a request builder here produces the
//! structured request, the process layer runs the tool, and a classification
//! function here turns the outcome into the operation's typed result.
//!
//! Classification order is fixed: a non-empty error-line list fails the
//! operation with its first line before any output is looked at; only a
//! clean outcome has its output text parsed.

use vstd::prelude::*;
use crate::chart::{FleetChart, resolved_version};
use crate::errors::{
    FleetCRDInstallError, FleetCRDInstallResult, FleetInstallError, FleetInstallResult,
    MetadataGetError, MetadataGetResult, RepoAddError, RepoAddResult, RepoSearchError,
    RepoSearchResult,
};
use crate::metadata::{ChartInfo, ChartSearch, first_named};
use crate::outcome::{ToolOutcome, first_error, outcome_succeeded};
use crate::values::{build_values, values_payload};

verus! {

/// The timeout, in seconds, handed to the CRD install request: CRD
/// registration can be slow to become ready cluster-wide.
pub const CRD_INSTALL_TIMEOUT: u64 = 300;

/// Request to register a chart repository under a name.
#[derive(Debug, PartialEq, Eq)]
pub struct RepoAddRequest {
    pub name: String,
    pub url: String,
}

/// Request to search the registered repositories.
#[derive(Debug, PartialEq, Eq)]
pub struct RepoSearchRequest {
    pub terms: Vec<String>,
}

/// Request to list releases.
#[derive(Debug, PartialEq, Eq)]
pub struct ListRequest {
    pub all: bool,
    pub all_namespaces: bool,
}

/// Request to install a release.
#[derive(Debug, PartialEq, Eq)]
pub struct InstallRequest {
    pub release_name: String,
    pub chart: String,
    pub create_namespace: bool,
    pub wait: bool,
    pub ns: String,
    pub version: String,
    /// Values payload; only the primary release carries one.
    pub values: Option<String>,
    /// Explicit timeout in seconds; only the CRD install carries one.
    pub timeout: Option<u64>,
}

/// Request to upgrade a release.
#[derive(Debug, PartialEq, Eq)]
pub struct UpgradeRequest {
    pub release_name: String,
    pub chart: String,
    pub wait: bool,
    pub ns: String,
    /// Always set: values not overridden by the payload keep their prior
    /// release state.
    pub reuse_values: bool,
    pub version: String,
    pub values: Option<String>,
}

/// Classification of a repo-add outcome.
pub open spec fn repo_add_classified(o: ToolOutcome) -> Result<(), RepoAddError> {
    if !outcome_succeeded(o) {
        Err(RepoAddError::RepoAdd(first_error(o)))
    } else {
        Ok(())
    }
}

/// Classification of a repo-search outcome: a clean outcome hands its
/// output text on for parsing.
pub open spec fn search_classified(o: ToolOutcome) -> Result<String, RepoSearchError> {
    if !outcome_succeeded(o) {
        Err(RepoSearchError::RepoSearch(first_error(o)))
    } else {
        Ok(o.data)
    }
}

/// Classification of the parse stage of a search: a parse failure becomes
/// the deserialization error, a parsed list is the result, in tool order.
pub open spec fn search_parsed_classified(p: Result<Vec<ChartSearch>, String>) -> Result<
    Vec<ChartSearch>,
    RepoSearchError,
> {
    match p {
        Ok(list) => Ok(list),
        Err(msg) => Err(RepoSearchError::DeserializeInfoError(msg)),
    }
}

/// Classification of a list outcome: a tool error fails the lookup, empty
/// output is "not found" and is never parsed, anything else is handed on
/// for parsing.
pub open spec fn metadata_classified(o: ToolOutcome) -> Result<Option<String>, MetadataGetError> {
    if !outcome_succeeded(o) {
        Err(MetadataGetError::MetadataGet(first_error(o)))
    } else if o.data@.len() == 0 {
        Ok(None)
    } else {
        Ok(Some(o.data))
    }
}

/// Classification of the parse stage of a metadata lookup: a parse failure
/// becomes the deserialization error, a parsed list is scanned for the
/// first entry with the requested name.
pub open spec fn metadata_parsed_classified(name: String, p: Result<Vec<ChartInfo>, String>) -> Result<
    Option<ChartInfo>,
    MetadataGetError,
> {
    match p {
        Ok(list) => Ok(first_named(list@, name@)),
        Err(msg) => Err(MetadataGetError::DeserializeInfoError(msg)),
    }
}

/// Classification of a primary-install outcome.
pub open spec fn install_fleet_classified(o: ToolOutcome) -> Result<String, FleetInstallError> {
    if !outcome_succeeded(o) {
        Err(FleetInstallError::FleetInstall(first_error(o)))
    } else {
        Ok(o.data)
    }
}

/// Classification of a primary-upgrade outcome.
pub open spec fn upgrade_fleet_classified(o: ToolOutcome) -> Result<String, FleetInstallError> {
    if !outcome_succeeded(o) {
        Err(FleetInstallError::FleetUpgrade(first_error(o)))
    } else {
        Ok(o.data)
    }
}

/// Classification of the parse stage of a primary install or upgrade.
pub open spec fn fleet_parsed_classified(p: Result<ChartInfo, String>) -> Result<
    ChartInfo,
    FleetInstallError,
> {
    match p {
        Ok(info) => Ok(info),
        Err(msg) => Err(FleetInstallError::DeserializeInstallError(msg)),
    }
}

/// Classification of a CRD-install outcome.
pub open spec fn install_crds_classified(o: ToolOutcome) -> Result<String, FleetCRDInstallError> {
    if !outcome_succeeded(o) {
        Err(FleetCRDInstallError::CRDInstall(first_error(o)))
    } else {
        Ok(o.data)
    }
}

/// Classification of a CRD-upgrade outcome.
pub open spec fn upgrade_crds_classified(o: ToolOutcome) -> Result<String, FleetCRDInstallError> {
    if !outcome_succeeded(o) {
        Err(FleetCRDInstallError::CRDUpgrade(first_error(o)))
    } else {
        Ok(o.data)
    }
}

/// Classification of the parse stage of a CRD install or upgrade.
pub open spec fn crds_parsed_classified(p: Result<ChartInfo, String>) -> Result<
    ChartInfo,
    FleetCRDInstallError,
> {
    match p {
        Ok(info) => Ok(info),
        Err(msg) => Err(FleetCRDInstallError::DeserializeInstallError(msg)),
    }
}

impl FleetChart {
    /// The repo-add request: the fixed repository name "fleet" and the
    /// configured URL.
    pub fn add_repo_request(&self) -> (r: RepoAddRequest)
        ensures
            r.name@ == "fleet"@,
            r.url == self.repo,
    {
        RepoAddRequest { name: String::from_str("fleet"), url: self.repo.clone() }
    }

    /// Turns a repo-add outcome into the operation's result: unit on a
    /// clean outcome, the tool's first error line otherwise.
    pub fn add_repo_outcome(outcome: &ToolOutcome) -> (r: RepoAddResult<()>)
        ensures
            r == repo_add_classified(*outcome),
    {
        if outcome.err.len() > 0 {
            Err(RepoAddError::RepoAdd(outcome.err[0].clone()))
        } else {
            Ok(())
        }
    }

    /// The repo-search request: the single fixed search term "fleet".
    pub fn search_repo_request() -> (r: RepoSearchRequest)
        ensures
            r.terms@.len() == 1,
            r.terms@[0]@ == "fleet"@,
    {
        let mut terms: Vec<String> = Vec::new();
        terms.push(String::from_str("fleet"));
        RepoSearchRequest { terms }
    }

    /// Turns a repo-search outcome into either the output text to parse or
    /// the tool's first error line.
    pub fn search_repo_outcome(outcome: &ToolOutcome) -> (r: RepoSearchResult<String>)
        ensures
            r == search_classified(*outcome),
    {
        if outcome.err.len() > 0 {
            Err(RepoSearchError::RepoSearch(outcome.err[0].clone()))
        } else {
            Ok(outcome.data.clone())
        }
    }

    /// Turns the parse stage of a search into the operation's result,
    /// keeping the parsed entries in tool order.
    pub fn search_repo_parsed(parsed: Result<Vec<ChartSearch>, String>) -> (r: RepoSearchResult<
        Vec<ChartSearch>,
    >)
        ensures
            r == search_parsed_classified(parsed),
    {
        match parsed {
            Ok(list) => Ok(list),
            Err(msg) => Err(RepoSearchError::DeserializeInfoError(msg)),
        }
    }

    /// The list request behind a metadata lookup: all releases, across all
    /// namespaces.
    pub fn get_metadata_request() -> (r: ListRequest)
        ensures
            r.all,
            r.all_namespaces,
    {
        ListRequest { all: true, all_namespaces: true }
    }

    /// Turns a list outcome into the next step of a metadata lookup: the
    /// tool's first error line on a reported failure; "not found" on empty
    /// output, which is never parsed; otherwise the output text to parse.
    pub fn get_metadata_outcome(outcome: &ToolOutcome) -> (r: MetadataGetResult<Option<String>>)
        ensures
            r == metadata_classified(*outcome),
    {
        if outcome.err.len() > 0 {
            Err(MetadataGetError::MetadataGet(outcome.err[0].clone()))
        } else if outcome.data.as_str().is_empty() {
            Ok(None)
        } else {
            Ok(Some(outcome.data.clone()))
        }
    }

    /// Turns the parse stage of a metadata lookup into the operation's
    /// result: the first listed entry with the requested name, or "not
    /// found" when no entry matches.
    pub fn get_metadata_parsed(chart: &String, parsed: Result<Vec<ChartInfo>, String>) -> (r:
        MetadataGetResult<Option<ChartInfo>>)
        ensures
            r == metadata_parsed_classified(*chart, parsed),
    {
        match parsed {
            Ok(list) => Ok(crate::metadata::select_named(&list, chart)),
            Err(msg) => Err(MetadataGetError::DeserializeInfoError(msg)),
        }
    }

    /// The install request for the primary release: fixed release name and
    /// chart reference, the configured flags and namespace, the resolved
    /// version, the built values payload, and no timeout.
    pub fn install_fleet_request(&self) -> (r: InstallRequest)
        ensures
            r.release_name@ == "fleet"@,
            r.chart@ == "fleet/fleet"@,
            r.create_namespace == self.create_namespace,
            r.wait == self.wait,
            r.ns == self.namespace,
            r.version@ == resolved_version(self.version),
            r.values matches Some(v) && v@ == values_payload(
                self.bootstrap_local_cluster,
                self.feature_gates.experimental_oci_storage,
                self.feature_gates.experimental_helm_ops,
            ),
            r.timeout is None,
    {
        InstallRequest {
            release_name: String::from_str("fleet"),
            chart: String::from_str("fleet/fleet"),
            create_namespace: self.create_namespace,
            wait: self.wait,
            ns: self.namespace.clone(),
            version: self.resolve_version(),
            values: Some(build_values(self.bootstrap_local_cluster, &self.feature_gates)),
            timeout: None,
        }
    }

    /// Turns a primary-install outcome into either the output text to
    /// parse or the tool's first error line.
    pub fn install_fleet_outcome(outcome: &ToolOutcome) -> (r: FleetInstallResult<String>)
        ensures
            r == install_fleet_classified(*outcome),
    {
        if outcome.err.len() > 0 {
            Err(FleetInstallError::FleetInstall(outcome.err[0].clone()))
        } else {
            Ok(outcome.data.clone())
        }
    }

    /// The upgrade request for the primary release: like the install, but
    /// reusing existing values and never creating the namespace.
    pub fn upgrade_fleet_request(&self) -> (r: UpgradeRequest)
        ensures
            r.release_name@ == "fleet"@,
            r.chart@ == "fleet/fleet"@,
            r.wait == self.wait,
            r.ns == self.namespace,
            r.reuse_values,
            r.version@ == resolved_version(self.version),
            r.values matches Some(v) && v@ == values_payload(
                self.bootstrap_local_cluster,
                self.feature_gates.experimental_oci_storage,
                self.feature_gates.experimental_helm_ops,
            ),
    {
        UpgradeRequest {
            release_name: String::from_str("fleet"),
            chart: String::from_str("fleet/fleet"),
            wait: self.wait,
            ns: self.namespace.clone(),
            reuse_values: true,
            version: self.resolve_version(),
            values: Some(build_values(self.bootstrap_local_cluster, &self.feature_gates)),
        }
    }

    /// Turns a primary-upgrade outcome into either the output text to
    /// parse or the tool's first error line.
    pub fn upgrade_fleet_outcome(outcome: &ToolOutcome) -> (r: FleetInstallResult<String>)
        ensures
            r == upgrade_fleet_classified(*outcome),
    {
        if outcome.err.len() > 0 {
            Err(FleetInstallError::FleetUpgrade(outcome.err[0].clone()))
        } else {
            Ok(outcome.data.clone())
        }
    }

    /// Turns the parse stage of a primary install or upgrade into the
    /// operation's result.
    pub fn fleet_parsed(parsed: Result<ChartInfo, String>) -> (r: FleetInstallResult<ChartInfo>)
        ensures
            r == fleet_parsed_classified(parsed),
    {
        match parsed {
            Ok(info) => Ok(info),
            Err(msg) => Err(FleetInstallError::DeserializeInstallError(msg)),
        }
    }

    /// The install request for the CRD companion release: fixed release
    /// name and chart reference, no values payload, and the fixed explicit
    /// timeout.
    pub fn install_fleet_crds_request(&self) -> (r: InstallRequest)
        ensures
            r.release_name@ == "fleet-crd"@,
            r.chart@ == "fleet/fleet-crd"@,
            r.create_namespace == self.create_namespace,
            r.wait == self.wait,
            r.ns == self.namespace,
            r.version@ == resolved_version(self.version),
            r.values is None,
            r.timeout == Some(CRD_INSTALL_TIMEOUT),
    {
        InstallRequest {
            release_name: String::from_str("fleet-crd"),
            chart: String::from_str("fleet/fleet-crd"),
            create_namespace: self.create_namespace,
            wait: self.wait,
            ns: self.namespace.clone(),
            version: self.resolve_version(),
            values: None,
            timeout: Some(CRD_INSTALL_TIMEOUT),
        }
    }

    /// Turns a CRD-install outcome into either the output text to parse or
    /// the tool's first error line.
    pub fn install_fleet_crds_outcome(outcome: &ToolOutcome) -> (r: FleetCRDInstallResult<String>)
        ensures
            r == install_crds_classified(*outcome),
    {
        if outcome.err.len() > 0 {
            Err(FleetCRDInstallError::CRDInstall(outcome.err[0].clone()))
        } else {
            Ok(outcome.data.clone())
        }
    }

    /// The upgrade request for the CRD companion release: no values
    /// payload, reusing existing values.
    pub fn upgrade_fleet_crds_request(&self) -> (r: UpgradeRequest)
        ensures
            r.release_name@ == "fleet-crd"@,
            r.chart@ == "fleet/fleet-crd"@,
            r.wait == self.wait,
            r.ns == self.namespace,
            r.reuse_values,
            r.version@ == resolved_version(self.version),
            r.values is None,
    {
        UpgradeRequest {
            release_name: String::from_str("fleet-crd"),
            chart: String::from_str("fleet/fleet-crd"),
            wait: self.wait,
            ns: self.namespace.clone(),
            reuse_values: true,
            version: self.resolve_version(),
            values: None,
        }
    }

    /// Turns a CRD-upgrade outcome into either the output text to parse or
    /// the tool's first error line.
    pub fn upgrade_fleet_crds_outcome(outcome: &ToolOutcome) -> (r: FleetCRDInstallResult<String>)
        ensures
            r == upgrade_crds_classified(*outcome),
    {
        if outcome.err.len() > 0 {
            Err(FleetCRDInstallError::CRDUpgrade(outcome.err[0].clone()))
        } else {
            Ok(outcome.data.clone())
        }
    }

    /// Turns the parse stage of a CRD install or upgrade into the
    /// operation's result.
    pub fn crds_parsed(parsed: Result<ChartInfo, String>) -> (r: FleetCRDInstallResult<ChartInfo>)
        ensures
            r == crds_parsed_classified(parsed),
    {
        match parsed {
            Ok(info) => Ok(info),
            Err(msg) => Err(FleetCRDInstallError::DeserializeInstallError(msg)),
        }
    }
}

} // verus!
