//! A character's progress through the campaign walkthrough.

use vstd::prelude::*;
use crate::time::{Timestamp, now};

verus! {

/// How far a character has come through the campaign walkthrough: the step
/// reached, if any, whether the walkthrough is complete, and when this last
/// changed.
#[derive(Debug, Clone)]
pub struct WalkthroughProgress {
    pub current_step_id: Option<String>,
    pub is_completed: bool,
    pub last_updated: Timestamp,
}

impl WalkthroughProgress {
    /// The progress of a character that has not started the walkthrough,
    /// stamped now.
    pub fn new() -> (res: WalkthroughProgress)
        ensures
            res.current_step_id is None,
            !res.is_completed,
    {
        WalkthroughProgress { current_step_id: None, is_completed: false, last_updated: now() }
    }
}

impl Default for WalkthroughProgress {
    fn default() -> (res: WalkthroughProgress)
        ensures
            res.current_step_id is None,
            !res.is_completed,
    {
        WalkthroughProgress::new()
    }
}

} // verus!
