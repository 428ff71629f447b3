//! The decision about one instance.

use sunset::error::ScanError;
use sunset::evaluate::{evaluate, inspect, supported_api_version, REMOVED};
use sunset::extract::LAST_APPLIED_ANNOTATION;
use sunset::instance::ResourceInstance;
use sunset::model::{DeprecationEntry, Finding};

fn entry(group: &str, version: &str, kind: &str, removed: bool) -> DeprecationEntry {
    DeprecationEntry {
        group: group.to_string(),
        version: version.to_string(),
        kind: kind.to_string(),
        removed,
    }
}

fn applied(name: &str, namespace: &str, configuration: &str) -> ResourceInstance {
    let mut instance = ResourceInstance::new(name.to_string(), namespace.to_string());
    instance.annotate(LAST_APPLIED_ANNOTATION.to_string(), configuration.to_string());
    instance
}

fn removed_finding(kind: &str, namespace: &str, name: &str) -> Finding {
    Finding {
        kind: kind.to_string(),
        namespace: namespace.to_string(),
        name: name.to_string(),
        supported_api_version: "REMOVED".to_string(),
        deprecated_api_version: "REMOVED".to_string(),
    }
}

#[test]
fn removed_sentinel_reads_removed() {
    assert_eq!(REMOVED, "REMOVED");
}

#[test]
fn supported_version_joins_group_and_version() {
    assert_eq!(supported_api_version(&entry("apps", "v1", "Deployment", false)), "apps/v1");
    assert_eq!(
        supported_api_version(&entry("networking.k8s.io", "v1", "Ingress", false)),
        "networking.k8s.io/v1"
    );
}

#[test]
fn supported_version_of_the_core_group_keeps_the_slash() {
    assert_eq!(supported_api_version(&entry("", "v1", "Pod", false)), "/v1");
}

#[test]
fn removed_kind_is_reported_whatever_is_declared() {
    let ingress = entry("extensions", "v1beta1", "Ingress", true);
    let web = ResourceInstance::new("web".to_string(), "default".to_string());
    let expected = Some(removed_finding("Ingress", "default", "web"));
    assert_eq!(evaluate(&ingress, &web, None), expected);
    assert_eq!(evaluate(&ingress, &web, Some("extensions/v1beta1".to_string())), expected);
    assert_eq!(evaluate(&ingress, &web, Some("networking.k8s.io/v1".to_string())), expected);
    assert_eq!(evaluate(&ingress, &web, Some(String::new())), expected);
}

#[test]
fn undeclared_version_is_not_reported() {
    let deployment = entry("apps", "v1", "Deployment", false);
    let api = ResourceInstance::new("api".to_string(), "prod".to_string());
    assert_eq!(evaluate(&deployment, &api, None), None);
}

#[test]
fn supported_version_is_not_reported() {
    let deployment = entry("apps", "v1", "Deployment", false);
    let api = ResourceInstance::new("api".to_string(), "prod".to_string());
    assert_eq!(evaluate(&deployment, &api, Some("apps/v1".to_string())), None);
}

#[test]
fn other_version_is_reported_with_both_versions() {
    let deployment = entry("apps", "v1", "Deployment", false);
    let api = ResourceInstance::new("api".to_string(), "prod".to_string());
    assert_eq!(
        evaluate(&deployment, &api, Some("apps/v1beta1".to_string())),
        Some(Finding {
            kind: "Deployment".to_string(),
            namespace: "prod".to_string(),
            name: "api".to_string(),
            supported_api_version: "apps/v1".to_string(),
            deprecated_api_version: "apps/v1beta1".to_string(),
        })
    );
}

#[test]
fn versions_are_compared_letter_for_letter() {
    let deployment = entry("apps", "v1", "Deployment", false);
    let api = ResourceInstance::new("api".to_string(), "".to_string());
    for declared in ["apps/V1", "apps/v1 ", "v1", "apps/v", "apps/v11", ""] {
        let finding = evaluate(&deployment, &api, Some(declared.to_string())).unwrap();
        assert_eq!(finding.deprecated_api_version, declared);
        assert_eq!(finding.supported_api_version, "apps/v1");
        assert_eq!(finding.namespace, "");
    }
}

#[test]
fn core_group_instance_declared_without_slash_is_reported() {
    let pod = entry("", "v1", "Pod", false);
    let shell = ResourceInstance::new("shell".to_string(), "default".to_string());
    let finding = evaluate(&pod, &shell, Some("v1".to_string())).unwrap();
    assert_eq!(finding.supported_api_version, "/v1");
    assert_eq!(finding.deprecated_api_version, "v1");
}

#[test]
fn inspect_reads_the_annotation() {
    let deployment = entry("apps", "v1", "Deployment", false);
    let old = applied("api", "prod", r#"{"apiVersion":"apps/v1beta1"}"#);
    let new = applied("api", "prod", r#"{"apiVersion":"apps/v1"}"#);
    let bare = ResourceInstance::new("api".to_string(), "prod".to_string());
    let found = inspect(&deployment, &old).unwrap().unwrap();
    assert_eq!(found.deprecated_api_version, "apps/v1beta1");
    assert_eq!(found.supported_api_version, "apps/v1");
    assert_eq!(inspect(&deployment, &new), Ok(None));
    assert_eq!(inspect(&deployment, &bare), Ok(None));
}

#[test]
fn inspect_fails_on_a_malformed_annotation() {
    let deployment = entry("apps", "v1", "Deployment", false);
    let broken = applied("api", "prod", "apiVersion: apps/v1");
    assert_eq!(inspect(&deployment, &broken), Err(ScanError::MalformedAnnotation));
}

#[test]
fn inspect_does_not_read_the_annotation_of_a_removed_kind() {
    let ingress = entry("extensions", "v1beta1", "Ingress", true);
    let broken = applied("web", "default", "{not json");
    assert_eq!(inspect(&ingress, &broken), Ok(Some(removed_finding("Ingress", "default", "web"))));
}
