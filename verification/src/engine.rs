//! The orchestration engine: for now it only carries its configuration.

use vstd::prelude::*;

verus! {

/// Pause durations of the orchestration engine.
pub struct EngineConfig {
    pub short_pause_ms: u64,
    pub long_pause_ms: u64,
}

/// Schedules refinements and pause sweeps.
pub struct Engine {
    config: EngineConfig,
}

impl Engine {
    /// The configuration the engine was built with.
    pub closed spec fn config(&self) -> EngineConfig {
        self.config
    }

    /// An engine with the given configuration.
    pub fn new(config: EngineConfig) -> (r: Self)
        ensures
            r.config() == config,
    {
        Engine { config }
    }

    /// One scheduling step on `text` with the caret at `caret`. No pass is
    /// scheduled yet: the engine is left as it was.
    pub fn tick(&mut self, text: &str, caret: usize)
        ensures
            *final(self) == *old(self),
    {
    }
}

} // verus!
