//! Verified core of an image ingestion pipeline.
//!
//! Files dropped into an import directory are deduplicated by a perceptual
//! content fingerprint, classified by an external tagging service, persisted
//! with their tags, and relocated into content-addressed storage with
//! generated thumbnails.  This crate holds the decision logic of that
//! pipeline — triage, hashing, failure routing, the persistence-gateway
//! model, path resolution and the query-side pagination — with contracts
//! proved by Verus.  The surrounding process (file and network I/O, the real
//! SQL gateway) drives these functions from outside.

pub mod cycle;
pub mod endpoints;
pub mod errors;
pub mod image_path;
pub mod picture;
pub mod pool;
pub mod pipeline;
pub mod rating;
pub mod requests;
pub mod response;
pub mod store;
pub mod tags;
pub mod text;
pub mod triage;
