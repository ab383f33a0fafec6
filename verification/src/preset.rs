//! The arenas a session can be loaded with.

use vstd::prelude::*;

verus! {

/// A named arena and ruleset, loaded as a whole.
#[derive(Clone, Copy, Debug, PartialEq, Eq, Structural)]
pub enum Preset {
    Standard,
    Dropshot,
    Hoops,
    StandardThrowback,
    StandardHeatseeker,
}

impl Preset {
    /// Whether the preset plays by the rules under which the ball homes in on a goal.
    pub open spec fn heatseeker(self) -> bool {
        self == Preset::StandardHeatseeker
    }

    /// Tells whether the ball homes in on a goal under this preset.
    pub fn is_heatseeker(&self) -> (r: bool)
        ensures
            r == self.heatseeker(),
    {
        matches!(self, Preset::StandardHeatseeker)
    }
}

} // verus!
