//! Plain data records describing a round's configuration and its outcome.

use vstd::prelude::*;

verus! {

/// Configuration of a single round, supplied once at construction and never
/// mutated afterwards.
#[derive(Clone, Copy, Debug, PartialEq, Eq, Structural)]
pub struct RoundParams {
    /// Number of tape cells; must be at least 2 so that both flag cells exist.
    pub tape_length: usize,
    /// Maximum number of ticks before the round is cut off.
    pub max_steps: u32,
    /// Whether the second contestant plays with inverted polarity.
    pub invert_polarity: bool,
}

/// The verdict of a finished round: whether each contestant is considered to
/// have lost. Both `false` means a draw in which neither lost; both `true`
/// means a mutual loss.
#[derive(Clone, Copy, Debug, PartialEq, Eq, Structural)]
pub struct RoundResult {
    pub contestant_a_lost: bool,
    pub contestant_b_lost: bool,
}

impl RoundResult {
    pub fn new(contestant_a_lost: bool, contestant_b_lost: bool) -> (result: RoundResult)
        ensures
            result == (RoundResult { contestant_a_lost, contestant_b_lost }),
    {
        RoundResult { contestant_a_lost, contestant_b_lost }
    }
}

} // verus!
