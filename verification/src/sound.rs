//! The switch for sound effects.

use vstd::prelude::*;

verus! {

/// Whether sound effects are played.
#[derive(Debug)]
pub struct SoundEffects {
    pub enabled: bool,
}

impl SoundEffects {
    /// Sound effects, switched on.
    pub fn new() -> (sound: SoundEffects)
        ensures
            sound.enabled,
    {
        SoundEffects { enabled: true }
    }

    /// Switches sound effects on if they were off, and off if they were on.
    pub fn toggle(&mut self)
        ensures
            final(self).enabled == !old(self).enabled,
    {
        self.enabled = !self.enabled;
    }

    /// Whether sound effects are switched on.
    pub fn is_enabled(&self) -> (enabled: bool)
        ensures
            enabled == self.enabled,
    {
        self.enabled
    }
}

} // verus!
