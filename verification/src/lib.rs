//! Media ingestion pipeline: decode an uploaded image, normalize it to a
//! fixed display width while preserving aspect ratio, re-encode it with a
//! codec chosen by the pixel format, and hand the result to an object store.

pub mod codec;
pub mod configuration;
pub mod geometry;
pub mod ingest;
pub mod imageio;
pub mod processor;
pub mod upload;
pub mod uploader;
