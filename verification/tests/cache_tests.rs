use vuln_feed::cache_aside::{on_cache_read, on_fetch_reply, CacheDecision, RefreshOutcome};
use vuln_feed::catalog::decode_catalog;
use vuln_feed::model::{response_status, FeedError};

fn snapshot_json() -> Vec<u8> {
    br#"{"catalogVersion":"2024.01.01","dateReleased":"2024-01-01","count":1,
        "vulnerabilities":[{"cveID":"CVE-2024-0001","vendorProject":"V",
        "product":"P","vulnerabilityName":"N","dateAdded":"2024-01-01",
        "shortDescription":"d","requiredAction":"a","dueDate":"2024-01-22",
        "notes":""}]}"#
    .to_vec()
}

// A driver for the cache-aside protocol over an in-memory cache slot and a
// canned upstream reply, counting the upstream calls it makes.
fn drive(
    cache: &mut Option<Vec<u8>>,
    upstream: Result<Vec<u8>, String>,
) -> (Result<vuln_feed::model::CatalogResponse, FeedError>, u32) {
    let mut fetch_calls = 0;
    match on_cache_read(cache.clone()) {
        CacheDecision::Hit(rec) => (Ok(rec), fetch_calls),
        CacheDecision::Refresh => {
            fetch_calls += 1;
            let body = upstream.clone();
            match on_fetch_reply(upstream) {
                RefreshOutcome::Store(rec) => {
                    // The driver writes the fetched body back under the key;
                    // a failed write would be logged and swallowed.
                    *cache = Some(body.unwrap());
                    (Ok(rec), fetch_calls)
                }
                RefreshOutcome::Fail(e) => (Err(e), fetch_calls),
            }
        }
    }
}

#[test]
fn empty_cache_fetches_once_and_stores_the_record() {
    let mut cache: Option<Vec<u8>> = None;
    let (got, fetch_calls) = drive(&mut cache, Ok(snapshot_json()));
    let got = got.unwrap();
    assert_eq!(fetch_calls, 1);
    let cached = decode_catalog(cache.as_deref().unwrap()).unwrap();
    assert_eq!(cached, got);
    assert_eq!(got.catalog_version, "2024.01.01");
}

#[test]
fn populated_cache_serves_without_fetching() {
    let mut cache: Option<Vec<u8>> = Some(snapshot_json());
    let (got, fetch_calls) = drive(&mut cache, Err("unreachable".to_string()));
    let got = got.unwrap();
    assert_eq!(fetch_calls, 0);
    assert_eq!(got, decode_catalog(&snapshot_json()).unwrap());
}

#[test]
fn undecodable_cache_entry_falls_back_to_a_fetch() {
    let mut cache: Option<Vec<u8>> = Some(b"garbage".to_vec());
    let (got, fetch_calls) = drive(&mut cache, Ok(snapshot_json()));
    assert!(got.is_ok());
    assert_eq!(fetch_calls, 1);
}

#[test]
fn transport_failure_on_a_miss_propagates() {
    let mut cache: Option<Vec<u8>> = None;
    let (got, fetch_calls) = drive(&mut cache, Err("HTTP 503".to_string()));
    assert_eq!(fetch_calls, 1);
    let err = got.unwrap_err();
    assert_eq!(response_status(&err), 500);
    match err {
        FeedError::Transport(m) => assert_eq!(m, "HTTP 503"),
        other => panic!("expected a transport error, got {:?}", other),
    }
    assert_eq!(cache, None);
}

#[test]
fn fetched_body_that_does_not_decode_fails_with_a_decode_error() {
    let reply: Result<Vec<u8>, String> = Ok(b"{}".to_vec());
    match on_fetch_reply(reply) {
        RefreshOutcome::Fail(FeedError::Decode(_)) => {}
        other => panic!("expected a decode failure, got {:?}", other),
    }
}
