//! Controller for streamed corrections: the region it works on and whether
//! it is at work.

use vstd::prelude::*;

verus! {

/// Diffusion controller for managing streaming text transformations.
pub struct DiffusionController {
    /// Current active region boundaries, start and end.
    pub active_region: (usize, usize),
    /// Whether a diffusion is in progress.
    pub is_processing: bool,
}

impl DiffusionController {
    /// A controller with an empty region at 0 that is not processing.
    pub fn new() -> (r: Self)
        ensures
            r.active_region == (0usize, 0usize),
            !r.is_processing,
    {
        DiffusionController { active_region: (0, 0), is_processing: false }
    }

    /// Replaces the region boundaries; processing is as it was.
    pub fn update_region(&mut self, start: usize, end: usize)
        ensures
            final(self).active_region == (start, end),
            final(self).is_processing == old(self).is_processing,
    {
        self.active_region = (start, end);
    }

    /// Marks the controller as processing; the region is as it was.
    pub fn start_processing(&mut self)
        ensures
            final(self).is_processing,
            final(self).active_region == old(self).active_region,
    {
        self.is_processing = true;
    }

    /// Marks the controller as not processing; the region is as it was.
    pub fn stop_processing(&mut self)
        ensures
            !final(self).is_processing,
            final(self).active_region == old(self).active_region,
    {
        self.is_processing = false;
    }
}

impl Default for DiffusionController {
    fn default() -> (r: Self)
        ensures
            r.active_region == (0usize, 0usize),
            !r.is_processing,
    {
        DiffusionController::new()
    }
}

} // verus!
