//! Whole scans, driven the way a front end drives them: with a cluster
//! that answers from memory.

use sunset::error::ScanError;
use sunset::extract::LAST_APPLIED_ANNOTATION;
use sunset::instance::ResourceInstance;
use sunset::model::{DeprecationEntry, Finding, ResourceDescriptor};
use sunset::scan::{Scan, ScanAction, ScanEvent};
use sunset::unit::{after_list, after_resolve, resolve_request, ResolveRequest, UnitStep};

/// What the cluster answers for one kind.
struct Served {
    kind: &'static str,
    resolved: Result<(), ScanError>,
    listed: Result<Vec<ResourceInstance>, ScanError>,
}

fn entry(group: &str, version: &str, kind: &str, removed: bool) -> DeprecationEntry {
    DeprecationEntry {
        group: group.to_string(),
        version: version.to_string(),
        kind: kind.to_string(),
        removed,
    }
}

fn instance(name: &str, namespace: &str, last_applied: Option<&str>) -> ResourceInstance {
    let mut instance = ResourceInstance::new(name.to_string(), namespace.to_string());
    if let Some(configuration) = last_applied {
        instance.annotate(LAST_APPLIED_ANNOTATION.to_string(), configuration.to_string());
    }
    instance
}

fn finding(kind: &str, namespace: &str, name: &str, supported: &str, deprecated: &str) -> Finding {
    Finding {
        kind: kind.to_string(),
        namespace: namespace.to_string(),
        name: name.to_string(),
        supported_api_version: supported.to_string(),
        deprecated_api_version: deprecated.to_string(),
    }
}

fn resolve(cluster: &[Served], request: &ResolveRequest) -> Result<ResourceDescriptor, ScanError> {
    for served in cluster {
        if served.kind == request.kind {
            return served.resolved.map(|()| ResourceDescriptor {
                group: request.group.clone(),
                version: request.version.clone(),
                api_version: format!("{}/{}", request.group, request.version),
                kind: request.kind.clone(),
                plural: format!("{}s", request.kind.to_lowercase()),
            });
        }
    }
    Err(ScanError::KindNotFound)
}

fn list(cluster: &[Served], descriptor: &ResourceDescriptor) -> Result<Vec<ResourceInstance>, ScanError> {
    for served in cluster {
        if served.kind == descriptor.kind {
            return served.listed.clone();
        }
    }
    Err(ScanError::ListFailure)
}

fn run_unit(cluster: &[Served], entry: &DeprecationEntry) -> Result<Vec<Finding>, ScanError> {
    let request = resolve_request(entry);
    match after_resolve(resolve(cluster, &request)) {
        UnitStep::List(descriptor) => after_list(entry, list(cluster, &descriptor)),
        UnitStep::Finish(outcome) => outcome,
    }
}

fn run_scan(table: Option<Vec<DeprecationEntry>>, cluster: &[Served]) -> Result<Vec<Finding>, ScanError> {
    let event = match table {
        Some(entries) => ScanEvent::TableLoaded(entries),
        None => ScanEvent::TableUnavailable,
    };
    let (mut scan, action) = Scan::new().step(event);
    if let ScanAction::Launch(entries) = action {
        for entry in &entries {
            let (next, action) = scan.step(ScanEvent::UnitFinished(run_unit(cluster, entry)));
            scan = next;
            if action == ScanAction::Stop {
                break;
            }
        }
    }
    assert!(scan.is_over());
    scan.into_outcome().unwrap()
}

#[test]
fn removed_kind_is_reported_as_removed() {
    let cluster = [Served {
        kind: "Ingress",
        resolved: Ok(()),
        listed: Ok(vec![instance("web", "default", None)]),
    }];
    let report = run_scan(Some(vec![entry("extensions", "v1beta1", "Ingress", true)]), &cluster);
    assert_eq!(report, Ok(vec![finding("Ingress", "default", "web", "REMOVED", "REMOVED")]));
}

#[test]
fn outdated_declared_version_is_reported() {
    let cluster = [Served {
        kind: "Deployment",
        resolved: Ok(()),
        listed: Ok(vec![instance(
            "api",
            "prod",
            Some(r#"{"apiVersion":"apps/v1beta1","kind":"Deployment","metadata":{"name":"api"}}"#),
        )]),
    }];
    let report = run_scan(Some(vec![entry("apps", "v1", "Deployment", false)]), &cluster);
    assert_eq!(report, Ok(vec![finding("Deployment", "prod", "api", "apps/v1", "apps/v1beta1")]));
}

#[test]
fn supported_declared_version_is_not_reported() {
    let cluster = [Served {
        kind: "Deployment",
        resolved: Ok(()),
        listed: Ok(vec![instance("api", "prod", Some(r#"{"apiVersion":"apps/v1"}"#))]),
    }];
    let report = run_scan(Some(vec![entry("apps", "v1", "Deployment", false)]), &cluster);
    assert_eq!(report, Ok(vec![]));
}

#[test]
fn instance_without_annotation_is_not_reported() {
    let cluster = [Served {
        kind: "Deployment",
        resolved: Ok(()),
        listed: Ok(vec![instance("api", "prod", None)]),
    }];
    let report = run_scan(Some(vec![entry("apps", "v1", "Deployment", false)]), &cluster);
    assert_eq!(report, Ok(vec![]));
}

#[test]
fn list_failure_of_one_entry_leaves_the_other_alone() {
    let cluster = [
        Served { kind: "Ingress", resolved: Ok(()), listed: Err(ScanError::ListFailure) },
        Served {
            kind: "Deployment",
            resolved: Ok(()),
            listed: Ok(vec![instance("api", "prod", Some(r#"{"apiVersion":"apps/v1beta1"}"#))]),
        },
    ];
    let table = vec![
        entry("extensions", "v1beta1", "Ingress", false),
        entry("apps", "v1", "Deployment", false),
    ];
    let report = run_scan(Some(table), &cluster);
    assert_eq!(report, Ok(vec![finding("Deployment", "prod", "api", "apps/v1", "apps/v1beta1")]));
}

#[test]
fn list_failure_after_findings_keeps_them() {
    let cluster = [
        Served {
            kind: "Deployment",
            resolved: Ok(()),
            listed: Ok(vec![instance("api", "prod", Some(r#"{"apiVersion":"apps/v1beta1"}"#))]),
        },
        Served { kind: "Ingress", resolved: Ok(()), listed: Err(ScanError::ListFailure) },
    ];
    let table = vec![
        entry("apps", "v1", "Deployment", false),
        entry("extensions", "v1beta1", "Ingress", true),
    ];
    let report = run_scan(Some(table), &cluster);
    assert_eq!(report, Ok(vec![finding("Deployment", "prod", "api", "apps/v1", "apps/v1beta1")]));
}

#[test]
fn unknown_kind_counts_as_nothing_found() {
    let cluster = [
        Served { kind: "PodSecurityPolicy", resolved: Err(ScanError::KindNotFound), listed: Ok(vec![]) },
        Served {
            kind: "Ingress",
            resolved: Ok(()),
            listed: Ok(vec![instance("web", "default", None)]),
        },
    ];
    let table = vec![
        entry("policy", "v1beta1", "PodSecurityPolicy", true),
        entry("extensions", "v1beta1", "Ingress", true),
    ];
    let report = run_scan(Some(table), &cluster);
    assert_eq!(report, Ok(vec![finding("Ingress", "default", "web", "REMOVED", "REMOVED")]));
}

#[test]
fn connection_error_fails_the_scan() {
    let cluster = [
        Served {
            kind: "Ingress",
            resolved: Ok(()),
            listed: Ok(vec![instance("web", "default", None)]),
        },
        Served { kind: "Deployment", resolved: Err(ScanError::ConnectionError), listed: Ok(vec![]) },
    ];
    let table = vec![
        entry("extensions", "v1beta1", "Ingress", true),
        entry("apps", "v1", "Deployment", false),
    ];
    assert_eq!(run_scan(Some(table), &cluster), Err(ScanError::ConnectionError));
}

#[test]
fn malformed_annotation_fails_the_scan() {
    let cluster = [
        Served {
            kind: "Ingress",
            resolved: Ok(()),
            listed: Ok(vec![instance("web", "default", None)]),
        },
        Served {
            kind: "Deployment",
            resolved: Ok(()),
            listed: Ok(vec![
                instance("api", "prod", Some(r#"{"apiVersion":"apps/v1beta1"}"#)),
                instance("worker", "prod", Some("{not json")),
            ]),
        },
    ];
    let table = vec![
        entry("extensions", "v1beta1", "Ingress", true),
        entry("apps", "v1", "Deployment", false),
    ];
    assert_eq!(run_scan(Some(table), &cluster), Err(ScanError::MalformedAnnotation));
}

#[test]
fn first_fatal_error_is_the_one_returned() {
    let cluster = [
        Served {
            kind: "Deployment",
            resolved: Ok(()),
            listed: Ok(vec![instance("worker", "prod", Some("[]"))]),
        },
        Served { kind: "Ingress", resolved: Err(ScanError::ConnectionError), listed: Ok(vec![]) },
    ];
    let table = vec![
        entry("apps", "v1", "Deployment", false),
        entry("extensions", "v1beta1", "Ingress", true),
    ];
    assert_eq!(run_scan(Some(table), &cluster), Err(ScanError::MalformedAnnotation));
}

#[test]
fn unavailable_table_fails_the_scan() {
    assert_eq!(run_scan(None, &[]), Err(ScanError::SourceUnavailable));
}

#[test]
fn empty_table_gives_an_empty_report() {
    assert_eq!(run_scan(Some(vec![]), &[]), Ok(vec![]));
}

#[test]
fn fully_upgraded_cluster_gives_an_empty_report_again_and_again() {
    let cluster = [
        Served {
            kind: "Deployment",
            resolved: Ok(()),
            listed: Ok(vec![
                instance("api", "prod", Some(r#"{"apiVersion":"apps/v1"}"#)),
                instance("worker", "prod", Some(r#"{"apiVersion":"apps/v1"}"#)),
            ]),
        },
        Served {
            kind: "CronJob",
            resolved: Ok(()),
            listed: Ok(vec![instance("nightly", "ops", Some(r#"{"apiVersion":"batch/v1"}"#))]),
        },
    ];
    let table = vec![entry("apps", "v1", "Deployment", false), entry("batch", "v1", "CronJob", false)];
    assert_eq!(run_scan(Some(table.clone()), &cluster), Ok(vec![]));
    assert_eq!(run_scan(Some(table), &cluster), Ok(vec![]));
}

#[test]
fn findings_keep_the_order_of_the_listing() {
    let cluster = [Served {
        kind: "Deployment",
        resolved: Ok(()),
        listed: Ok(vec![
            instance("c", "prod", Some(r#"{"apiVersion":"apps/v1beta2"}"#)),
            instance("a", "prod", Some(r#"{"apiVersion":"apps/v1"}"#)),
            instance("b", "test", Some(r#"{"apiVersion":"extensions/v1beta1"}"#)),
        ]),
    }];
    let report = run_scan(Some(vec![entry("apps", "v1", "Deployment", false)]), &cluster);
    assert_eq!(
        report,
        Ok(vec![
            finding("Deployment", "prod", "c", "apps/v1", "apps/v1beta2"),
            finding("Deployment", "test", "b", "apps/v1", "extensions/v1beta1"),
        ])
    );
}
