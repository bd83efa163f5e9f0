use vstd::prelude::*;

verus! {

/// An inclusive range `[min, max]` from which the hidden count is drawn.
#[derive(Clone, Copy, Debug, PartialEq, Eq, Structural)]
pub struct SecretRange {
    pub min: u32,
    pub max: u32,
}

impl SecretRange {
    /// A range is well formed when it is non-empty.
    pub open spec fn wf(self) -> bool {
        self.min <= self.max
    }

    /// An empty range is a configuration error, ruled out at construction.
    pub fn new(min: u32, max: u32) -> (r: SecretRange)
        requires
            min <= max,
        ensures
            r.min == min,
            r.max == max,
            r.wf(),
    {
        SecretRange { min, max }
    }
}

/// Draws the hidden target count for one game.
pub struct SecretGenerator;

impl SecretGenerator {
    /// Draws a target within `[range.min, range.max]` inclusive.
    pub fn generate(range: SecretRange) -> (r: u32)
        requires
            range.wf(),
        ensures
            range.min <= r <= range.max,
    {
        random_in_range(range.min, range.max)
    }
}

/// Relies on `rand::thread_rng` and `rand::Rng::gen_range`: a sample drawn
/// from the inclusive range `min..=max` lies within it. `gen_range` panics
/// only on an empty range, which `min <= max` rules out.
#[verifier::external_body]
fn random_in_range(min: u32, max: u32) -> (r: u32)
    requires
        min <= max,
    ensures
        min <= r <= max,
{
    rand::Rng::gen_range(&mut rand::thread_rng(), min..=max)
}

} // verus!
