use loadtest_core::restapi::{
    advisory_label_path, advisory_labels_query, advisory_path, advisory_total_url,
    delete_advisory_path, download_advisory_path, purl_path, random_advisory_request,
    sbom_advisories_path, sbom_by_package_query, sbom_delete_path_at, sbom_license_ids_path,
    sbom_packages_path, sbom_path, sbom_related_path, vulnerability_path,
};

#[test]
fn advisory_paths_encode_the_urn() {
    assert_eq!(advisory_path("abc-123"), "/api/v2/advisory/urn%3Auuid%3Aabc-123");
    assert_eq!(
        download_advisory_path("abc-123"),
        "/api/v2/advisory/urn%3Auuid%3Aabc-123/download"
    );
}

#[test]
fn advisory_labels_query_is_fixed() {
    assert_eq!(advisory_labels_query(), "/api/v2/advisory-labels?filter_text=type&limit=1000");
}

#[test]
fn raw_identifier_paths() {
    assert_eq!(delete_advisory_path("id9"), "/api/v2/advisory/id9");
    assert_eq!(advisory_label_path("id9"), "/api/v2/advisory/id9/label");
    assert_eq!(purl_path("p1"), "/api/v2/purl/p1");
    assert_eq!(sbom_path("s1"), "/api/v2/sbom/s1");
    assert_eq!(sbom_advisories_path("s1"), "/api/v2/sbom/s1/advisory");
    assert_eq!(sbom_packages_path("s1"), "/api/v2/sbom/s1/packages");
    assert_eq!(sbom_related_path("s1"), "/api/v2/sbom/s1/related");
    assert_eq!(vulnerability_path("CVE-2022-0981"), "/api/v2/vulnerability/CVE-2022-0981");
}

#[test]
fn host_url_drops_trailing_slashes() {
    assert_eq!(advisory_total_url("http://host:8080/"), "http://host:8080/api/v2/advisory");
    assert_eq!(advisory_total_url("http://host:8080///"), "http://host:8080/api/v2/advisory");
    assert_eq!(advisory_total_url("http://host:8080"), "http://host:8080/api/v2/advisory");
}

#[test]
fn random_request_stays_in_range() {
    let (offset, query) = random_advisory_request(0);
    assert_eq!(offset, 0);
    assert_eq!(query, "/api/v2/advisory?offset=0&limit=1");

    for _ in 0..20 {
        let (offset, query) = random_advisory_request(5);
        assert!(offset <= 5);
        assert_eq!(query, format!("/api/v2/advisory?offset={}&limit=1", offset));
    }
}

#[test]
fn package_queries_encode_the_purl() {
    assert_eq!(
        sbom_by_package_query("pkg:rpm/redhat/curl@7.76.1"),
        "/api/v2/sbom/by-package?purl=pkg%3Arpm%2Fredhat%2Fcurl%407.76.1"
    );
    assert_eq!(
        sbom_license_ids_path("urn:uuid:s1"),
        "/api/v2/sbom/urn%3Auuid%3As1/all-license-ids"
    );
}

#[test]
fn deletion_pool_is_walked_by_index() {
    let pool: Vec<String> = vec!["s1".to_string(), "s2".to_string()];
    assert_eq!(sbom_delete_path_at(&pool, 0), Some("/api/v2/sbom/s1".to_string()));
    assert_eq!(sbom_delete_path_at(&pool, 1), Some("/api/v2/sbom/s2".to_string()));
    assert_eq!(sbom_delete_path_at(&pool, 2), None);
}
