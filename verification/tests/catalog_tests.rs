use vuln_feed::catalog::decode_catalog;
use vuln_feed::model::FeedError;

fn full_catalog_json() -> Vec<u8> {
    br#"{
        "title": "CISA Catalog of Known Exploited Vulnerabilities",
        "catalogVersion": "2024.01.01",
        "dateReleased": "2024-01-01",
        "count": 2,
        "vulnerabilities": [
            {
                "cveID": "CVE-2024-0001",
                "vendorProject": "VendorA",
                "product": "ProductA",
                "vulnerabilityName": "X",
                "dateAdded": "2024-01-01",
                "shortDescription": "d1",
                "requiredAction": "Apply updates",
                "dueDate": "2024-01-22",
                "notes": "n1"
            },
            {
                "vendorProject": "VendorB",
                "product": "ProductB",
                "vulnerabilityName": "Y",
                "dateAdded": "2024-01-05",
                "shortDescription": "d2",
                "requiredAction": "Apply updates",
                "dueDate": "2024-01-26",
                "notes": ""
            }
        ]
    }"#
    .to_vec()
}

#[test]
fn decodes_a_full_snapshot() {
    let rec = decode_catalog(&full_catalog_json()).unwrap();
    assert_eq!(rec.catalog_version, "2024.01.01");
    assert_eq!(rec.date_released, "2024-01-01");
    assert_eq!(rec.count, 2);
    assert_eq!(rec.vulnerabilities.len(), 2);
    let a = &rec.vulnerabilities[0];
    assert_eq!(a.cve_id.as_deref(), Some("CVE-2024-0001"));
    assert_eq!(a.vendor_project, "VendorA");
    assert_eq!(a.product, "ProductA");
    assert_eq!(a.vulnerability_name, "X");
    assert_eq!(a.date_added, "2024-01-01");
    assert_eq!(a.short_description, "d1");
    assert_eq!(a.required_action, "Apply updates");
    assert_eq!(a.due_date, "2024-01-22");
    assert_eq!(a.notes, "n1");
    let b = &rec.vulnerabilities[1];
    assert_eq!(b.cve_id, None);
    assert_eq!(b.vulnerability_name, "Y");
}

#[test]
fn null_cve_id_decodes_as_absent() {
    let body = br#"{"catalogVersion":"1","dateReleased":"2024-01-01","count":1,
        "vulnerabilities":[{"cveID":null,"vendorProject":"V","product":"P",
        "vulnerabilityName":"N","dateAdded":"2024-01-01","shortDescription":"d",
        "requiredAction":"a","dueDate":"2024-01-22","notes":""}]}"#;
    let rec = decode_catalog(body).unwrap();
    assert_eq!(rec.vulnerabilities[0].cve_id, None);
}

#[test]
fn missing_vulnerabilities_is_a_decode_error() {
    let body = br#"{"catalogVersion":"1","dateReleased":"2024-01-01","count":0}"#;
    let err = decode_catalog(body).unwrap_err();
    assert!(matches!(err, FeedError::Decode(_)));
}

#[test]
fn non_array_vulnerabilities_is_a_decode_error() {
    let body = br#"{"catalogVersion":"1","dateReleased":"2024-01-01","count":0,
        "vulnerabilities":"none"}"#;
    assert!(matches!(
        decode_catalog(body),
        Err(FeedError::Decode(_))
    ));
}

#[test]
fn malformed_json_is_a_decode_error() {
    assert!(matches!(
        decode_catalog(b"{not json"),
        Err(FeedError::Decode(_))
    ));
}

#[test]
fn missing_row_field_is_a_decode_error() {
    let body = br#"{"catalogVersion":"1","dateReleased":"2024-01-01","count":1,
        "vulnerabilities":[{"cveID":"CVE-2024-0001","vendorProject":"V",
        "product":"P","vulnerabilityName":"N","dateAdded":"2024-01-01",
        "shortDescription":"d","requiredAction":"a","dueDate":"2024-01-22"}]}"#;
    assert!(matches!(
        decode_catalog(body),
        Err(FeedError::Decode(_))
    ));
}

#[test]
fn non_string_row_field_is_a_decode_error() {
    let body = br#"{"catalogVersion":"1","dateReleased":"2024-01-01","count":1,
        "vulnerabilities":[{"cveID":7,"vendorProject":"V","product":"P",
        "vulnerabilityName":"N","dateAdded":"2024-01-01","shortDescription":"d",
        "requiredAction":"a","dueDate":"2024-01-22","notes":""}]}"#;
    assert!(matches!(
        decode_catalog(body),
        Err(FeedError::Decode(_))
    ));
}

#[test]
fn count_out_of_range_is_a_decode_error() {
    let body = br#"{"catalogVersion":"1","dateReleased":"2024-01-01","count":70000,
        "vulnerabilities":[]}"#;
    assert!(matches!(
        decode_catalog(body),
        Err(FeedError::Decode(_))
    ));
}

#[test]
fn negative_count_is_a_decode_error() {
    let body = br#"{"catalogVersion":"1","dateReleased":"2024-01-01","count":-1,
        "vulnerabilities":[]}"#;
    assert!(matches!(
        decode_catalog(body),
        Err(FeedError::Decode(_))
    ));
}

#[test]
fn unknown_members_are_ignored() {
    let body = br#"{"catalogVersion":"1","dateReleased":"2024-01-01","count":0,
        "vulnerabilities":[],"extra":{"nested":true}}"#;
    let rec = decode_catalog(body).unwrap();
    assert_eq!(rec.vulnerabilities.len(), 0);
}
