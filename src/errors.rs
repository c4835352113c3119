use crate::spice::SpiceAmount;
use vstd::prelude::*;

verus! {

/// Every way in which a rule of the game can refuse an operation.
#[derive(Debug, Clone, Copy, PartialEq, Eq, Structural)]
pub enum GameErrors {
    /// An upgrade of zero steps was asked for.
    CannotUpgradeToSelf,
    /// The upgrade would go past Cinnamon, the highest spice.
    CannotUpgradePastCinnamon,
    /// The caravan would hold more cubes than it has spaces.
    MaxSpiceCapacityReached,
    /// A subtraction asked for more than was there: holds the amount that was
    /// there and, per spice, how much was missing.
    CannotSubtractSpiceAmount(SpiceAmount, SpiceAmount),
    /// A representation invariant was found broken.
    InternalLogicError,
}

} // verus!
