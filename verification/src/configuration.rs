//! Values resolved once at startup and injected into the pipeline.

use vstd::prelude::*;

verus! {

/// Startup configuration: the target bucket, the region used when deriving
/// public URLs, and the maximum number of body bytes accepted per part.
#[derive(Clone, Debug)]
pub struct Config {
    pub bucket_name: String,
    pub region: String,
    pub max_payload_bytes: usize,
}

} // verus!
