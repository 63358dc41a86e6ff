//! The cache-aside protocol, as decisions over plain values.
//!
//! The driver owns the key-value store and the upstream connection. It reads
//! the single cache key and hands the bytes (or the miss) to `on_cache_read`;
//! on a `Refresh` decision it performs one upstream fetch and hands the reply
//! to `on_fetch_reply`; on a `Store` outcome it returns the record and writes
//! it back under the same key, swallowing a failed write. A cache read
//! failure is handed in as a miss. The scheduled refresh path skips the read
//! and starts at `on_fetch_reply` with overwrite semantics.

use crate::catalog::{decode_catalog, decoded_catalog};
use crate::model::{CatalogResponse, FeedError};
use vstd::prelude::*;

verus! {

/// What a cache read leads to: serve the cached snapshot, or refresh.
#[derive(Debug, PartialEq)]
pub enum CacheDecision {
    Hit(CatalogResponse),
    Refresh,
}

/// What a refresh leads to: store and serve the fetched snapshot, or fail.
#[derive(Debug, PartialEq)]
pub enum RefreshOutcome {
    Store(CatalogResponse),
    Fail(FeedError),
}

/// The decision for a cache read: only a present, decodable entry is served;
/// everything else falls back to one refresh.
pub open spec fn cache_step_spec(read: Option<Result<CatalogResponse, FeedError>>) -> CacheDecision {
    match read {
        Some(Ok(rec)) => CacheDecision::Hit(rec),
        _ => CacheDecision::Refresh,
    }
}

/// The outcome of a refresh: a decoded snapshot is stored and served; a
/// failure propagates, with no stale-data fallback.
pub open spec fn refresh_step_spec(fetched: Result<CatalogResponse, FeedError>) -> RefreshOutcome {
    match fetched {
        Ok(rec) => RefreshOutcome::Store(rec),
        Err(e) => RefreshOutcome::Fail(e),
    }
}

/// Decides a cache read that the driver has already decoded.
pub fn cache_step(read: Option<Result<CatalogResponse, FeedError>>) -> (r: CacheDecision)
    ensures
        r == cache_step_spec(read),
{
    match read {
        Some(Ok(rec)) => CacheDecision::Hit(rec),
        _ => CacheDecision::Refresh,
    }
}

/// Decides a refresh whose reply the driver has already decoded.
pub fn refresh_step(fetched: Result<CatalogResponse, FeedError>) -> (r: RefreshOutcome)
    ensures
        r == refresh_step_spec(fetched),
{
    match fetched {
        Ok(rec) => RefreshOutcome::Store(rec),
        Err(e) => RefreshOutcome::Fail(e),
    }
}

/// Decides a raw cache read: a miss refreshes, and so does an entry that
/// does not decode as a catalog snapshot; a decodable entry is served as it
/// is stored.
pub fn on_cache_read(read: Option<Vec<u8>>) -> (r: CacheDecision)
    ensures
        read is None ==> r is Refresh,
        read matches Some(b) ==> (r is Hit <==> decoded_catalog(b@) is Some),
        r matches CacheDecision::Hit(rec) ==> read matches Some(b) && decoded_catalog(b@)
            == Some(rec@),
{
    match read {
        None => CacheDecision::Refresh,
        Some(bytes) => cache_step(Some(decode_catalog(bytes.as_slice()))),
    }
}

/// Decides a raw upstream reply: a transport failure propagates as such; a
/// body that arrives is stored and served exactly when it decodes as a
/// catalog snapshot, and only a decode failure is reported on it.
pub fn on_fetch_reply(reply: Result<Vec<u8>, String>) -> (r: RefreshOutcome)
    ensures
        reply matches Err(m) ==> r == RefreshOutcome::Fail(FeedError::Transport(m)),
        reply matches Ok(b) ==> (r is Store <==> decoded_catalog(b@) is Some),
        r matches RefreshOutcome::Store(rec) ==> reply matches Ok(b) && decoded_catalog(b@)
            == Some(rec@),
        reply is Ok ==> (r matches RefreshOutcome::Fail(e) ==> e is Decode),
{
    match reply {
        Err(m) => RefreshOutcome::Fail(FeedError::Transport(m)),
        Ok(bytes) => refresh_step(decode_catalog(bytes.as_slice())),
    }
}

/// Cache-aside on a hit: the cached snapshot is served as it is, and no
/// refresh is directed.
pub proof fn lemma_cache_hit(rec: CatalogResponse)
    ensures
        cache_step_spec(Some(Ok(rec))) == CacheDecision::Hit(rec),
{
}

/// Cache-aside on a miss: one refresh is directed, and a snapshot that the
/// refresh decodes is both stored and served unchanged.
pub proof fn lemma_cache_miss(read: Option<Result<CatalogResponse, FeedError>>, rec: CatalogResponse)
    requires
        !(read matches Some(entry) && entry is Ok),
    ensures
        cache_step_spec(read) is Refresh,
        refresh_step_spec(Ok(rec)) == RefreshOutcome::Store(rec),
{
}

/// A failed refresh propagates the failure: nothing is stored and nothing
/// stale is served.
pub proof fn lemma_refresh_failure(e: FeedError)
    ensures
        refresh_step_spec(Err(e)) == RefreshOutcome::Fail(e),
{
}

/// A stored body is served unchanged: the snapshot one refresh stores and
/// the snapshot a later read serves from the same bytes have equal views,
/// since decoding is a function of the bytes — so both requests publish the
/// same feed.
pub proof fn lemma_store_then_hit(b: Vec<u8>, stored: CatalogResponse, served: CatalogResponse)
    requires
        decoded_catalog(b@) == Some(stored@),
        decoded_catalog(b@) == Some(served@),
    ensures
        stored@ == served@,
{
}

} // verus!
