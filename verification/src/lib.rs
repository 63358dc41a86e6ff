//! A verified core for a feed of known-exploited vulnerabilities.
//!
//! The library decodes an upstream JSON catalog snapshot, maps it to an RSS
//! channel document ordered by publication date, and decides the cache-aside
//! protocol. Network and key-value access stay with the embedding program;
//! the library works on plain values handed in and out.

pub mod cache_aside;
pub mod catalog;
pub mod feed;
pub mod model;
pub mod order;
pub mod render;
