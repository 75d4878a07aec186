//! Frame evaluator settings.

use vstd::prelude::*;

verus! {

/// Evaluates timeline state at a point in time; in window mode the
/// transform anchor moves in screen space.
pub struct FrameEvaluator {
    pub window_mode: bool,
}

impl FrameEvaluator {
    pub fn new(window_mode: bool) -> (r: Self)
        ensures
            r.window_mode == window_mode,
    {
        FrameEvaluator { window_mode }
    }
}

} // verus!
