//! Tests of the release orchestrator: version resolution, the values
//! payload, request building and outcome classification.

use fleet_chart::chart::{FeatureGates, FleetChart, Install};
use fleet_chart::errors::{
    FleetCRDInstallError, FleetInstallError, FleetPatchError, MetadataGetError, RepoAddError,
    RepoSearchError,
};
use fleet_chart::install::CRD_INSTALL_TIMEOUT;
use fleet_chart::metadata::{Chart, ChartInfo, ChartSearch, EmbeddedChart, Info, Metadata};
use fleet_chart::outcome::ToolOutcome;
use fleet_chart::values::build_values;

fn chart_config() -> FleetChart {
    FleetChart {
        repo: "https://rancher.github.io/fleet-helm-charts/".to_string(),
        version: Some(Install::Version("0.12.0".to_string())),
        namespace: "cattle-fleet-system".to_string(),
        wait: true,
        update_dependency: false,
        create_namespace: true,
        bootstrap_local_cluster: true,
        feature_gates: FeatureGates {
            experimental_oci_storage: true,
            experimental_helm_ops: false,
        },
    }
}

fn entry(name: &str, namespace: &str, app_version: &str, status: &str) -> ChartInfo {
    ChartInfo {
        name: name.to_string(),
        namespace: namespace.to_string(),
        chart: Chart {
            metadata: Metadata {
                app_version: app_version.to_string(),
                name: name.to_string(),
            },
        },
        info: Info { status: status.to_string() },
    }
}

fn failed_outcome() -> ToolOutcome {
    ToolOutcome {
        data: "ignored".to_string(),
        err: vec!["first line".to_string(), "second line".to_string()],
    }
}

#[test]
fn resolve_follow_latest_is_empty() {
    assert_eq!(Install::FollowLatest(true).resolve(), "");
    assert_eq!(Install::FollowLatest(false).resolve(), "");
}

#[test]
fn resolve_pinned_is_verbatim() {
    assert_eq!(Install::Version("0.12.0".to_string()).resolve(), "0.12.0");
    assert_eq!(Install::Version("not-even-semver".to_string()).resolve(), "not-even-semver");
}

#[test]
fn resolve_version_of_absent_selector_is_empty() {
    let mut config = chart_config();
    config.version = None;
    assert_eq!(config.resolve_version(), "");
}

#[test]
fn values_payload_exact_shape() {
    let gates = FeatureGates { experimental_oci_storage: true, experimental_helm_ops: false };
    assert_eq!(
        build_values(true, &gates),
        "{\"bootstrap\":{\"enabled\":\"true\"},\"extraEnv\":[{\"name\":\"EXPERIMENTAL_OCI_STORAGE\",\"value\":\"true\"},{\"name\":\"EXPERIMENTAL_HELM_OPS\",\"value\":\"false\"}]}"
    );
}

#[test]
fn values_payload_all_flags_off() {
    let gates = FeatureGates { experimental_oci_storage: false, experimental_helm_ops: true };
    assert_eq!(
        build_values(false, &gates),
        "{\"bootstrap\":{\"enabled\":\"false\"},\"extraEnv\":[{\"name\":\"EXPERIMENTAL_OCI_STORAGE\",\"value\":\"false\"},{\"name\":\"EXPERIMENTAL_HELM_OPS\",\"value\":\"true\"}]}"
    );
}

#[test]
fn add_repo_request_uses_fixed_name_and_configured_url() {
    let req = chart_config().add_repo_request();
    assert_eq!(req.name, "fleet");
    assert_eq!(req.url, "https://rancher.github.io/fleet-helm-charts/");
}

#[test]
fn add_repo_succeeds_on_clean_outcome() {
    let outcome = ToolOutcome::succeeded(String::new());
    assert_eq!(FleetChart::add_repo_outcome(&outcome), Ok(()));
}

#[test]
fn add_repo_surfaces_first_error_line() {
    assert_eq!(
        FleetChart::add_repo_outcome(&failed_outcome()),
        Err(RepoAddError::RepoAdd("first line".to_string()))
    );
}

#[test]
fn search_repo_request_uses_fixed_term() {
    let req = FleetChart::search_repo_request();
    assert_eq!(req.terms, vec!["fleet".to_string()]);
}

#[test]
fn search_repo_surfaces_first_error_line() {
    assert_eq!(
        FleetChart::search_repo_outcome(&failed_outcome()),
        Err(RepoSearchError::RepoSearch("first line".to_string()))
    );
}

#[test]
fn search_repo_hands_output_on_for_parsing() {
    let outcome = ToolOutcome::succeeded("[{\"Name\":\"fleet/fleet\"}]".to_string());
    assert_eq!(
        FleetChart::search_repo_outcome(&outcome),
        Ok("[{\"Name\":\"fleet/fleet\"}]".to_string())
    );
}

#[test]
fn search_repo_parse_failure_is_deserialize_error() {
    assert_eq!(
        FleetChart::search_repo_parsed(Err("expected value at line 1".to_string())),
        Err(RepoSearchError::DeserializeInfoError("expected value at line 1".to_string()))
    );
}

#[test]
fn search_repo_is_idempotent_on_identical_output() {
    let one = ToolOutcome::succeeded("[]".to_string());
    let two = ToolOutcome::succeeded("[]".to_string());
    assert_eq!(
        FleetChart::search_repo_outcome(&one),
        FleetChart::search_repo_outcome(&two)
    );
    let parsed = vec![ChartSearch {
        name: "fleet/fleet".to_string(),
        chart: EmbeddedChart {
            metadata: Metadata {
                app_version: "0.12.0".to_string(),
                name: "fleet".to_string(),
            },
        },
    }];
    assert_eq!(
        FleetChart::search_repo_parsed(Ok(parsed.clone())),
        FleetChart::search_repo_parsed(Ok(parsed))
    );
}

#[test]
fn get_metadata_request_lists_all_namespaces() {
    let req = FleetChart::get_metadata_request();
    assert!(req.all);
    assert!(req.all_namespaces);
}

#[test]
fn get_metadata_empty_output_is_not_found() {
    let outcome = ToolOutcome::succeeded(String::new());
    assert_eq!(FleetChart::get_metadata_outcome(&outcome), Ok(None));
}

#[test]
fn get_metadata_surfaces_first_error_line() {
    assert_eq!(
        FleetChart::get_metadata_outcome(&failed_outcome()),
        Err(MetadataGetError::MetadataGet("first line".to_string()))
    );
}

#[test]
fn get_metadata_nonempty_output_is_handed_on() {
    let outcome = ToolOutcome::succeeded("[]".to_string());
    assert_eq!(FleetChart::get_metadata_outcome(&outcome), Ok(Some("[]".to_string())));
}

#[test]
fn get_metadata_no_match_is_not_found() {
    let list = vec![entry("other", "ns1", "1.0.0", "deployed")];
    assert_eq!(
        FleetChart::get_metadata_parsed(&"x".to_string(), Ok(list)),
        Ok(None)
    );
}

#[test]
fn get_metadata_single_match_round_trips() {
    let wanted = entry("x", "cattle-fleet-system", "0.12.0", "deployed");
    let list = vec![entry("other", "ns1", "1.0.0", "failed"), wanted.clone()];
    let found = FleetChart::get_metadata_parsed(&"x".to_string(), Ok(list))
        .unwrap()
        .unwrap();
    assert_eq!(found.name, "x");
    assert_eq!(found.namespace, "cattle-fleet-system");
    assert_eq!(found.chart.metadata.app_version, "0.12.0");
    assert_eq!(found.chart.metadata.name, "x");
    assert_eq!(found.info.status, "deployed");
    assert_eq!(found, wanted);
}

#[test]
fn get_metadata_duplicate_names_first_match_wins() {
    let list = vec![
        entry("x", "ns1", "1.0.0", "deployed"),
        entry("x", "ns2", "2.0.0", "failed"),
    ];
    let found = FleetChart::get_metadata_parsed(&"x".to_string(), Ok(list))
        .unwrap()
        .unwrap();
    assert_eq!(found.namespace, "ns1");
}

#[test]
fn get_metadata_parse_failure_is_deserialize_error() {
    assert_eq!(
        FleetChart::get_metadata_parsed(&"x".to_string(), Err("bad json".to_string())),
        Err(MetadataGetError::DeserializeInfoError("bad json".to_string()))
    );
}

#[test]
fn install_fleet_request_shape() {
    let req = chart_config().install_fleet_request();
    assert_eq!(req.release_name, "fleet");
    assert_eq!(req.chart, "fleet/fleet");
    assert!(req.create_namespace);
    assert!(req.wait);
    assert_eq!(req.ns, "cattle-fleet-system");
    assert_eq!(req.version, "0.12.0");
    assert_eq!(
        req.values.as_deref(),
        Some("{\"bootstrap\":{\"enabled\":\"true\"},\"extraEnv\":[{\"name\":\"EXPERIMENTAL_OCI_STORAGE\",\"value\":\"true\"},{\"name\":\"EXPERIMENTAL_HELM_OPS\",\"value\":\"false\"}]}")
    );
    assert_eq!(req.timeout, None);
}

#[test]
fn install_fleet_surfaces_first_error_line() {
    assert_eq!(
        FleetChart::install_fleet_outcome(&failed_outcome()),
        Err(FleetInstallError::FleetInstall("first line".to_string()))
    );
}

#[test]
fn install_fleet_parse_failure_is_deserialize_error() {
    assert_eq!(
        FleetChart::fleet_parsed(Err("unexpected end of input".to_string())),
        Err(FleetInstallError::DeserializeInstallError("unexpected end of input".to_string()))
    );
}

#[test]
fn install_fleet_parsed_entry_passes_through() {
    let info = entry("fleet", "cattle-fleet-system", "0.12.0", "deployed");
    assert_eq!(FleetChart::fleet_parsed(Ok(info.clone())), Ok(info));
}

#[test]
fn upgrade_fleet_request_reuses_values() {
    let req = chart_config().upgrade_fleet_request();
    assert_eq!(req.release_name, "fleet");
    assert_eq!(req.chart, "fleet/fleet");
    assert!(req.reuse_values);
    assert_eq!(req.version, "0.12.0");
    assert!(req.values.is_some());
}

#[test]
fn upgrade_fleet_surfaces_first_error_line() {
    assert_eq!(
        FleetChart::upgrade_fleet_outcome(&failed_outcome()),
        Err(FleetInstallError::FleetUpgrade("first line".to_string()))
    );
}

#[test]
fn install_fleet_crds_request_carries_fixed_timeout() {
    let mut config = chart_config();
    let req = config.install_fleet_crds_request();
    assert_eq!(req.timeout, Some(300));
    assert_eq!(req.timeout, Some(CRD_INSTALL_TIMEOUT));

    config.wait = false;
    config.create_namespace = false;
    config.version = None;
    let req = config.install_fleet_crds_request();
    assert_eq!(req.timeout, Some(300));
    assert_eq!(req.release_name, "fleet-crd");
    assert_eq!(req.chart, "fleet/fleet-crd");
    assert_eq!(req.version, "");
    assert_eq!(req.values, None);
}

#[test]
fn install_fleet_crds_surfaces_first_error_line() {
    assert_eq!(
        FleetChart::install_fleet_crds_outcome(&failed_outcome()),
        Err(FleetCRDInstallError::CRDInstall("first line".to_string()))
    );
}

#[test]
fn crds_parse_failure_is_deserialize_error() {
    assert_eq!(
        FleetChart::crds_parsed(Err("trailing characters".to_string())),
        Err(FleetCRDInstallError::DeserializeInstallError("trailing characters".to_string()))
    );
}

#[test]
fn upgrade_fleet_crds_request_reuses_values_and_has_no_payload() {
    let req = chart_config().upgrade_fleet_crds_request();
    assert_eq!(req.release_name, "fleet-crd");
    assert_eq!(req.chart, "fleet/fleet-crd");
    assert!(req.reuse_values);
    assert_eq!(req.values, None);
}

#[test]
fn upgrade_fleet_crds_surfaces_first_error_line() {
    assert_eq!(
        FleetChart::upgrade_fleet_crds_outcome(&failed_outcome()),
        Err(FleetCRDInstallError::CRDUpgrade("first line".to_string()))
    );
}

#[test]
fn error_messages_render_with_fixed_prefixes() {
    assert_eq!(
        FleetInstallError::FleetInstall("boom".to_string()).message(),
        "Fleet install error: boom"
    );
    assert_eq!(
        FleetInstallError::FleetUpgrade("boom".to_string()).message(),
        "Fleet upgrade error: boom"
    );
    assert_eq!(
        FleetInstallError::DeserializeInstallError("boom".to_string()).message(),
        "Deserialize install error: boom"
    );
    assert_eq!(
        FleetCRDInstallError::CRDInstall("boom".to_string()).message(),
        "CRD install error: boom"
    );
    assert_eq!(
        FleetCRDInstallError::CRDUpgrade("boom".to_string()).message(),
        "CRD upgrade error: boom"
    );
    assert_eq!(
        FleetCRDInstallError::DeserializeInstallError("boom".to_string()).message(),
        "Deserialize install response error: boom"
    );
    assert_eq!(
        RepoAddError::RepoAdd("boom".to_string()).message(),
        "Fleet repo add error: boom"
    );
    assert_eq!(
        RepoSearchError::RepoSearch("boom".to_string()).message(),
        "Fleet repo search error: boom"
    );
    assert_eq!(
        RepoSearchError::DeserializeInfoError("boom".to_string()).message(),
        "Deserialize search error: boom"
    );
    assert_eq!(
        MetadataGetError::MetadataGet("boom".to_string()).message(),
        "Metadata get error: boom"
    );
    assert_eq!(
        MetadataGetError::DeserializeInfoError("boom".to_string()).message(),
        "Deserialize info error: boom"
    );
    assert_eq!(
        FleetPatchError::FleetPatch("boom".to_string()).message(),
        "Fleet chart patch error: boom"
    );
}

#[test]
fn default_selector_follows_latest() {
    let selector = Install::default();
    assert_eq!(selector.resolve(), "");
}

#[test]
fn outcome_success_means_empty_error_list() {
    let clean = ToolOutcome::succeeded("data".to_string());
    assert!(clean.is_success());
    assert_eq!(clean.data, "data");
    assert!(!failed_outcome().is_success());
}

#[test]
fn chart_config_clone_preserves_fields() {
    let config = chart_config();
    let copy = config.clone();
    assert_eq!(copy.repo, config.repo);
    assert_eq!(copy.version, config.version);
    assert_eq!(copy.namespace, config.namespace);
    assert_eq!(copy.wait, config.wait);
    assert_eq!(copy.create_namespace, config.create_namespace);
    assert_eq!(copy.bootstrap_local_cluster, config.bootstrap_local_cluster);
    assert_eq!(copy.feature_gates, config.feature_gates);
}

#[test]
fn default_chart_config_is_empty() {
    let config = FleetChart::default();
    assert_eq!(config.repo, "");
    assert_eq!(config.version, None);
    assert_eq!(config.namespace, "");
    assert!(!config.wait);
    assert!(!config.update_dependency);
    assert!(!config.create_namespace);
    assert!(!config.bootstrap_local_cluster);
    assert!(!config.feature_gates.experimental_oci_storage);
    assert!(!config.feature_gates.experimental_helm_ops);
}
