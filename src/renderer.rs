//! What every renderer shares: its configuration, its profiler and the
//! lifecycle of a progressively accumulated frame.

pub mod progress;
pub mod timing;

use vstd::prelude::*;

verus! {

/// The number of samples per pixel that a renderer takes by default.
pub const DEFAULT_MAX_SAMPLE_COUNT: u32 = 1024;

/// The number of light bounces that a renderer follows by default.
pub const DEFAULT_MAX_BOUNCES: u32 = 12;

/// How much work a renderer spends on a frame.
pub struct RendererConfig {
    /// The number of samples accumulated per pixel before a frame is done.
    pub max_sample_count: u32,
    /// The number of surface interactions followed along one path.
    pub max_bounces: u32,
}

impl Default for RendererConfig {
    fn default() -> (r: Self)
        ensures
            r.max_sample_count == DEFAULT_MAX_SAMPLE_COUNT,
            r.max_bounces == DEFAULT_MAX_BOUNCES,
    {
        RendererConfig { max_sample_count: DEFAULT_MAX_SAMPLE_COUNT, max_bounces: DEFAULT_MAX_BOUNCES }
    }
}

} // verus!
