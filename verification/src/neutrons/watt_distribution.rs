use vstd::prelude::*;
use crate::utils::reals::Real;

verus! {

/// The number of trials after which the sampling of a birth energy gives up.
pub const MAXIMUM_TRIALS: i64 = 1000;

/// The key of the greatest energy that is tried: 15 MeV, in eV.
pub const MAXIMUM_ENERGY_KEY: i64 = 0x416C_9C38_0000_0000;

/// How a trial of the rejection sampling ends.
#[derive(Clone, Copy, Debug, PartialEq, Eq, Structural)]
pub enum WattTrial {
    /// The energy that was tried is the birth energy.
    Accepted { energy: Real },
    /// The energy is rejected, and another is to be tried.
    Rejected,
    /// Too many energies were rejected; the sampling has failed.
    Exhausted,
}

/// How the trial number `iteration`, counted from zero, ends: an energy drawn
/// evenly up to the greatest energy is accepted where a draw from `[0, 1)`
/// does not exceed the density of the Watt spectrum at that energy.
pub open spec fn trial_outcome(
    iteration: i64,
    random_energy: Real,
    watt_probability: Real,
    rejection_criterion: Real,
) -> WattTrial {
    if iteration >= MAXIMUM_TRIALS {
        WattTrial::Exhausted
    } else if rejection_criterion.le(watt_probability) {
        WattTrial::Accepted { energy: random_energy }
    } else {
        WattTrial::Rejected
    }
}

/// Rejection sampling for the Watt distribution, one trial at a time.
pub fn rejection_sample_watt(
    iteration: i64,
    random_energy: Real,
    watt_probability: Real,
    rejection_criterion: Real,
) -> (outcome: WattTrial)
    ensures
        outcome == trial_outcome(
            iteration,
            random_energy,
            watt_probability,
            rejection_criterion,
        ),
{
    if iteration >= MAXIMUM_TRIALS {
        WattTrial::Exhausted
    } else if rejection_criterion.le(watt_probability) {
        WattTrial::Accepted { energy: random_energy }
    } else {
        WattTrial::Rejected
    }
}

} // verus!
