//! Properties of the orchestrator that hold across operations, stated and
//! proved over the same spec functions the operations' contracts use.

use vstd::prelude::*;
use crate::chart::{Install, resolved_selector};
use crate::install::{
    install_crds_classified, install_fleet_classified, metadata_classified, repo_add_classified,
    search_classified, search_parsed_classified, upgrade_crds_classified, upgrade_fleet_classified,
};
use crate::errors::{
    FleetCRDInstallError, FleetInstallError, MetadataGetError, RepoAddError, RepoSearchError,
};
use crate::metadata::{ChartInfo, ChartSearch, first_named};
use crate::outcome::{ToolOutcome, first_error};

verus! {

/// Version resolution is pure and total: every follow-latest selector maps
/// to the empty version argument, and every pinned selector maps to its
/// version string verbatim.
pub proof fn lemma_resolution_total(sel: Install)
    ensures
        sel is FollowLatest ==> resolved_selector(sel) == Seq::<char>::empty(),
        forall|v: String| sel == Install::Version(v) ==> resolved_selector(sel) == v@,
{
}

/// An operation whose outcome carries a non-empty error-line list fails
/// with the operation's tool-reported error carrying the first line's text,
/// whichever operation it is; in particular no output text is handed on
/// for parsing.
pub proof fn lemma_tool_failure_surfaces_first_line(o: ToolOutcome)
    requires
        o.err@.len() > 0,
    ensures
        repo_add_classified(o) == Err::<(), RepoAddError>(RepoAddError::RepoAdd(first_error(o))),
        search_classified(o) == Err::<String, RepoSearchError>(
            RepoSearchError::RepoSearch(first_error(o)),
        ),
        metadata_classified(o) == Err::<Option<String>, MetadataGetError>(
            MetadataGetError::MetadataGet(first_error(o)),
        ),
        install_fleet_classified(o) == Err::<String, FleetInstallError>(
            FleetInstallError::FleetInstall(first_error(o)),
        ),
        upgrade_fleet_classified(o) == Err::<String, FleetInstallError>(
            FleetInstallError::FleetUpgrade(first_error(o)),
        ),
        install_crds_classified(o) == Err::<String, FleetCRDInstallError>(
            FleetCRDInstallError::CRDInstall(first_error(o)),
        ),
        upgrade_crds_classified(o) == Err::<String, FleetCRDInstallError>(
            FleetCRDInstallError::CRDUpgrade(first_error(o)),
        ),
{
}

/// A metadata lookup over a clean outcome with empty output text is "not
/// found" and is never handed on for parsing: the classification is
/// `Ok(None)`, not an error and not a parse step.
pub proof fn lemma_empty_output_is_not_found(o: ToolOutcome)
    requires
        o.err@.len() == 0,
        o.data@.len() == 0,
    ensures
        metadata_classified(o) == Ok::<Option<String>, MetadataGetError>(None),
{
}

/// A list in which no entry carries the requested name selects nothing.
pub proof fn lemma_first_named_absent(infos: Seq<ChartInfo>, name: Seq<char>)
    requires
        forall|j: int| 0 <= j < infos.len() ==> infos[j].name@ != name,
    ensures
        first_named(infos, name) is None,
    decreases infos.len(),
{
    if infos.len() > 0 {
        lemma_first_named_absent(infos.drop_first(), name);
    }
}

/// A list in which exactly one entry carries the requested name selects
/// that entry unchanged: name, namespace, chart metadata and status are the
/// listed ones.
pub proof fn lemma_first_named_unique(infos: Seq<ChartInfo>, name: Seq<char>, i: int)
    requires
        0 <= i < infos.len(),
        infos[i].name@ == name,
        forall|j: int| 0 <= j < infos.len() && j != i ==> infos[j].name@ != name,
    ensures
        first_named(infos, name) == Some(infos[i]),
    decreases infos.len(),
{
    if i > 0 {
        assert(infos[0].name@ != name);
        assert(forall|j: int|
            0 <= j < infos.drop_first().len() && j != i - 1 ==> infos.drop_first()[j].name@
                != name);
        lemma_first_named_unique(infos.drop_first(), name, i - 1);
    }
}

/// Searching twice over identical tool output yields identical ordered
/// result sequences: classification and parsing are functions of the
/// outcome alone.
pub proof fn lemma_search_idempotent(
    o1: ToolOutcome,
    o2: ToolOutcome,
    p1: Result<Vec<ChartSearch>, String>,
    p2: Result<Vec<ChartSearch>, String>,
)
    requires
        o1 == o2,
        p1 == p2,
    ensures
        search_classified(o1) == search_classified(o2),
        search_parsed_classified(p1) == search_parsed_classified(p2),
{
}

} // verus!
