//! Verified core of a media ingestion service: a deduplicating
//! content-addressed blob store with an atomic save protocol, an ingestion
//! pipeline that sequences storage, thumbnail extraction and HLS transcoding
//! while streaming monotone progress events, and the value types those
//! components exchange.

pub mod auth;
pub mod decimal;
pub mod error;
pub mod event;
pub mod id;
pub mod json;
pub mod material;
pub mod page;
pub mod pipeline;
pub mod storage;
pub mod tags;
pub mod transcode;
