//! A document store for a small HTTP service that publishes its OpenAPI
//! description. The description is encoded eagerly, as JSON and as YAML,
//! before any request is served; the two texts are published together or not
//! at all, never change afterwards, and every request reads the same text.

pub mod cache;
mod cell;
pub mod encode;
