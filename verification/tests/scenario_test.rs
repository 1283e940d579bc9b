use loadtest_core::scenario::{Loader, Scenario, urn_uuid_all};
use loadtest_core::utils::DisplayVec;

#[test]
fn loader_keeps_the_connection_string() {
    let l = Loader::new("postgres://localhost/trustify".to_string());
    assert_eq!(l.db, "postgres://localhost/trustify");
}

#[test]
fn urn_prefixing_maps_every_identifier() {
    let ids: Vec<String> = vec!["a".to_string(), "b".to_string()];
    let urns = urn_uuid_all(&ids);
    assert_eq!(urns, vec!["urn:uuid:a".to_string(), "urn:uuid:b".to_string()]);
    let none: Vec<String> = vec![];
    assert!(urn_uuid_all(&none).is_empty());
}

#[test]
fn assemble_wires_the_loaded_values() {
    let s = Scenario::assemble(
        "sbom-id".to_string(),
        "sha256:abc".to_string(),
        "CVE-2024-1".to_string(),
        "pkg:rpm/curl".to_string(),
        "pkg:rpm/affected".to_string(),
        "purl-id".to_string(),
        DisplayVec(vec!["pkg:rpm/rec-redhat-1".to_string()]),
        &vec!["d1".to_string(), "d2".to_string()],
        "adv-1".to_string(),
        "adv-1".to_string(),
        &vec!["p1".to_string()],
        &vec!["q1".to_string()],
    );
    assert_eq!(s.get_sbom.as_deref(), Some("sha256:abc"));
    assert_eq!(s.get_sbom_advisories.as_deref(), Some("sha256:abc"));
    assert_eq!(s.get_sbom_packages.as_deref(), Some("sbom-id"));
    assert_eq!(s.get_sbom_related.as_deref(), Some("sbom-id"));
    assert_eq!(s.get_vulnerability.as_deref(), Some("CVE-2024-1"));
    assert_eq!(s.sbom_by_package.as_deref(), Some("pkg:rpm/curl"));
    assert_eq!(s.sbom_license_ids.as_deref(), Some("urn:uuid:sbom-id"));
    assert_eq!(s.analyze_purl.as_deref(), Some("pkg:rpm/affected"));
    assert_eq!(s.get_purl_details.as_deref(), Some("purl-id"));
    assert_eq!(
        s.get_recommendations.map(|v| v.0),
        Some(vec!["pkg:rpm/rec-redhat-1".to_string()])
    );
    assert_eq!(
        s.delete_sbom_pool,
        Some(vec!["urn:uuid:d1".to_string(), "urn:uuid:d2".to_string()])
    );
    assert_eq!(s.download_advisory.as_deref(), Some("adv-1"));
    assert_eq!(s.get_advisory.as_deref(), Some("adv-1"));
    assert_eq!(s.put_advisory_lables, Some(vec!["urn:uuid:p1".to_string()]));
    assert_eq!(s.patch_advisory_lables, Some(vec!["urn:uuid:q1".to_string()]));
}
