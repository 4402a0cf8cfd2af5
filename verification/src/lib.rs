//! Verified core of the depth-map service: request validation, cache keys,
//! model metadata checks, image sizing and the request flow.

pub mod error;
pub mod text;
pub mod config;
pub mod cache;
pub mod inference;
pub mod download;
pub mod routes;
pub mod imaging;
pub mod preprocess;
pub mod postprocess;
