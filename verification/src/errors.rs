//! Per-operation error taxonomy. Each operation family keeps its own
//! tagged-variant error so callers can match on precisely which stage
//! failed: the external tool reporting an application-level error (the
//! tool's first error line, verbatim), or the tool's output failing to
//! deserialize into the expected structure.

use vstd::prelude::*;

verus! {

pub type FleetInstallResult<T> = Result<T, FleetInstallError>;

/// Errors of installing or upgrading the primary release.
#[derive(Debug, PartialEq, Eq)]
pub enum FleetInstallError {
    /// The tool reported an error while installing; carries its first line.
    FleetInstall(String),
    /// The tool reported an error while upgrading; carries its first line.
    FleetUpgrade(String),
    /// The tool's output did not deserialize into a release snapshot.
    DeserializeInstallError(String),
}

pub type FleetPatchResult<T> = Result<T, FleetPatchError>;

/// Errors of patching chart resources on disk, raised by the embedding
/// program's I/O layer.
#[derive(Debug, PartialEq, Eq)]
pub enum FleetPatchError {
    FleetPatch(String),
}

pub type FleetCRDInstallResult<T> = Result<T, FleetCRDInstallError>;

/// Errors of installing or upgrading the CRD companion release.
#[derive(Debug, PartialEq, Eq)]
pub enum FleetCRDInstallError {
    CRDInstall(String),
    CRDUpgrade(String),
    DeserializeInstallError(String),
}

pub type RepoAddResult<T> = Result<T, RepoAddError>;

/// Errors of registering the chart repository.
#[derive(Debug, PartialEq, Eq)]
pub enum RepoAddError {
    RepoAdd(String),
}

pub type RepoSearchResult<T> = Result<T, RepoSearchError>;

/// Errors of searching the chart repository.
#[derive(Debug, PartialEq, Eq)]
pub enum RepoSearchError {
    RepoSearch(String),
    DeserializeInfoError(String),
}

pub type MetadataGetResult<T> = Result<T, MetadataGetError>;

/// Errors of listing releases and selecting one by name.
#[derive(Debug, PartialEq, Eq)]
pub enum MetadataGetError {
    MetadataGet(String),
    DeserializeInfoError(String),
}

/// The rendered message of each error, one fixed prefix per variant.
pub open spec fn fleet_install_message(e: FleetInstallError) -> Seq<char> {
    match e {
        FleetInstallError::FleetInstall(s) => "Fleet install error: "@ + s@,
        FleetInstallError::FleetUpgrade(s) => "Fleet upgrade error: "@ + s@,
        FleetInstallError::DeserializeInstallError(s) => "Deserialize install error: "@ + s@,
    }
}

pub open spec fn fleet_crd_install_message(e: FleetCRDInstallError) -> Seq<char> {
    match e {
        FleetCRDInstallError::CRDInstall(s) => "CRD install error: "@ + s@,
        FleetCRDInstallError::CRDUpgrade(s) => "CRD upgrade error: "@ + s@,
        FleetCRDInstallError::DeserializeInstallError(s) => "Deserialize install response error: "@
            + s@,
    }
}

pub open spec fn repo_add_message(e: RepoAddError) -> Seq<char> {
    match e {
        RepoAddError::RepoAdd(s) => "Fleet repo add error: "@ + s@,
    }
}

pub open spec fn repo_search_message(e: RepoSearchError) -> Seq<char> {
    match e {
        RepoSearchError::RepoSearch(s) => "Fleet repo search error: "@ + s@,
        RepoSearchError::DeserializeInfoError(s) => "Deserialize search error: "@ + s@,
    }
}

pub open spec fn metadata_get_message(e: MetadataGetError) -> Seq<char> {
    match e {
        MetadataGetError::MetadataGet(s) => "Metadata get error: "@ + s@,
        MetadataGetError::DeserializeInfoError(s) => "Deserialize info error: "@ + s@,
    }
}

pub open spec fn fleet_patch_message(e: FleetPatchError) -> Seq<char> {
    match e {
        FleetPatchError::FleetPatch(s) => "Fleet chart patch error: "@ + s@,
    }
}

impl FleetInstallError {
    pub fn message(&self) -> (r: String)
        ensures
            r@ == fleet_install_message(*self),
    {
        match self {
            FleetInstallError::FleetInstall(s) => String::from_str("Fleet install error: ").concat(
                s.as_str(),
            ),
            FleetInstallError::FleetUpgrade(s) => String::from_str("Fleet upgrade error: ").concat(
                s.as_str(),
            ),
            FleetInstallError::DeserializeInstallError(s) => String::from_str(
                "Deserialize install error: ",
            ).concat(s.as_str()),
        }
    }
}

impl FleetCRDInstallError {
    pub fn message(&self) -> (r: String)
        ensures
            r@ == fleet_crd_install_message(*self),
    {
        match self {
            FleetCRDInstallError::CRDInstall(s) => String::from_str("CRD install error: ").concat(
                s.as_str(),
            ),
            FleetCRDInstallError::CRDUpgrade(s) => String::from_str("CRD upgrade error: ").concat(
                s.as_str(),
            ),
            FleetCRDInstallError::DeserializeInstallError(s) => String::from_str(
                "Deserialize install response error: ",
            ).concat(s.as_str()),
        }
    }
}

impl RepoAddError {
    pub fn message(&self) -> (r: String)
        ensures
            r@ == repo_add_message(*self),
    {
        match self {
            RepoAddError::RepoAdd(s) => String::from_str("Fleet repo add error: ").concat(
                s.as_str(),
            ),
        }
    }
}

impl RepoSearchError {
    pub fn message(&self) -> (r: String)
        ensures
            r@ == repo_search_message(*self),
    {
        match self {
            RepoSearchError::RepoSearch(s) => String::from_str("Fleet repo search error: ").concat(
                s.as_str(),
            ),
            RepoSearchError::DeserializeInfoError(s) => String::from_str(
                "Deserialize search error: ",
            ).concat(s.as_str()),
        }
    }
}

impl MetadataGetError {
    pub fn message(&self) -> (r: String)
        ensures
            r@ == metadata_get_message(*self),
    {
        match self {
            MetadataGetError::MetadataGet(s) => String::from_str("Metadata get error: ").concat(
                s.as_str(),
            ),
            MetadataGetError::DeserializeInfoError(s) => String::from_str(
                "Deserialize info error: ",
            ).concat(s.as_str()),
        }
    }
}

impl FleetPatchError {
    pub fn message(&self) -> (r: String)
        ensures
            r@ == fleet_patch_message(*self),
    {
        match self {
            FleetPatchError::FleetPatch(s) => String::from_str("Fleet chart patch error: ").concat(
                s.as_str(),
            ),
        }
    }
}

} // verus!
