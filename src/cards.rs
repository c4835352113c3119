use crate::errors::GameErrors;
use crate::spice::SpiceAmount;
use vstd::prelude::*;

verus! {

/// A card played for its effect.
///
/// `R` is the type of the exchange rule that an `Exchange` card carries: a
/// side-effect-free conversion from an amount of spices and a number of
/// steps to a new amount or an error, which the rules of a particular game
/// supply.
#[derive(Debug, PartialEq)]
pub enum ActionCard<R> {
    /// Adds a fixed amount of spices to the caravan.
    Gain(SpiceAmount),
    /// Converts spices by the rule it carries.
    Exchange(R),
    /// Allows upgrading cubes by up to this many steps.
    Upgrade(u8),
}

/// A card bought with spices for its points.
#[derive(Debug, Clone, Copy, PartialEq, Eq, Structural)]
pub struct PointsCard {
    pub points: u8,
    pub cost: SpiceAmount,
}

impl PointsCard {
    /// A card worth `points` that costs `cost`.
    pub fn new(points: u8, cost: SpiceAmount) -> (r: PointsCard)
        ensures
            r.points == points,
            r.cost == cost,
    {
        PointsCard { points, cost }
    }

    /// Buys the card with `spice_amount`: the card's points and what is left
    /// after paying its cost. All or nothing: where the cost is not contained
    /// in `spice_amount`, the subtraction's error comes back unchanged.
    pub fn purchase(&self, spice_amount: &SpiceAmount) -> (r: Result<(u8, SpiceAmount), GameErrors>)
        ensures
            r == match spice_amount.subtracted(self.cost) {
                Ok(rest) => Ok::<(u8, SpiceAmount), GameErrors>((self.points, rest)),
                Err(e) => Err(e),
            },
    {
        match spice_amount.subtract(&self.cost) {
            Ok(subtracted_amount) => Ok((self.points, subtracted_amount)),
            Err(e) => Err(e),
        }
    }
}

} // verus!
