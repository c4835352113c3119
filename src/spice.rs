use crate::errors::GameErrors;
use vstd::math::max;
use vstd::prelude::*;

verus! {

/// A single spice cube. From lowest to highest:
///
/// * Turmeric: level 1 (yellow)
/// * Saffron: level 2 (red)
/// * Cardamon: level 3 (green)
/// * Cinnamon: level 4 (brown)
#[derive(Debug, Clone, Copy, PartialEq, Eq, Structural)]
pub enum SpiceCube {
    Turmeric,
    Saffron,
    Cardamon,
    Cinnamon,
}

/// The level of the highest spice.
pub const TOP_LEVEL: u8 = 4;

/// The cube at a given place in the ladder; ranks above 4 give Cinnamon.
pub open spec fn cube_of_rank(rank: int) -> SpiceCube {
    if rank <= 1 {
        SpiceCube::Turmeric
    } else if rank == 2 {
        SpiceCube::Saffron
    } else if rank == 3 {
        SpiceCube::Cardamon
    } else {
        SpiceCube::Cinnamon
    }
}

impl SpiceCube {
    /// The cube's place in the ladder, from 1 (Turmeric) to 4 (Cinnamon).
    pub open spec fn rank(self) -> int {
        match self {
            SpiceCube::Turmeric => 1,
            SpiceCube::Saffron => 2,
            SpiceCube::Cardamon => 3,
            SpiceCube::Cinnamon => 4,
        }
    }

    /// The cube's level as a number.
    pub fn level(&self) -> (r: u8)
        ensures
            r == self.rank(),
            1 <= r <= TOP_LEVEL,
    {
        match self {
            SpiceCube::Turmeric => 1,
            SpiceCube::Saffron => 2,
            SpiceCube::Cardamon => 3,
            SpiceCube::Cinnamon => 4,
        }
    }

    /// Upgrades a single cube by `steps` levels along
    /// `Turmeric -> Saffron -> Cardamon -> Cinnamon`.
    ///
    /// Zero steps is refused with `CannotUpgradeToSelf`; a target above
    /// Cinnamon with `CannotUpgradePastCinnamon`.
    pub fn upgrade(&self, steps: u8) -> (r: Result<Self, GameErrors>)
        ensures
            steps == 0 ==> r == Err::<Self, GameErrors>(GameErrors::CannotUpgradeToSelf),
            steps > 0 && self.rank() + steps > TOP_LEVEL ==> r == Err::<Self, GameErrors>(
                GameErrors::CannotUpgradePastCinnamon,
            ),
            steps > 0 && self.rank() + steps <= TOP_LEVEL ==> r == Ok::<Self, GameErrors>(
                cube_of_rank(self.rank() + steps),
            ),
    {
        if steps == 0 {
            return Err(GameErrors::CannotUpgradeToSelf);
        }
        let current_level = self.level();
        if steps > TOP_LEVEL - current_level {
            return Err(GameErrors::CannotUpgradePastCinnamon);
        }
        match current_level + steps {
            2 => Ok(SpiceCube::Saffron),
            3 => Ok(SpiceCube::Cardamon),
            _ => Ok(SpiceCube::Cinnamon),
        }
    }
}

/// An amount of spices: one count per kind of cube.
#[derive(Debug, Clone, Copy, PartialEq, Eq, Structural)]
pub struct SpiceAmount {
    pub turmeric: u8,
    pub saffron: u8,
    pub cardamon: u8,
    pub cinnamon: u8,
}

impl SpiceAmount {
    /// The amount with the given counts, in ladder order.
    #[verifier::when_used_as_spec(spec_new)]
    pub fn new(turmeric: u8, saffron: u8, cardamon: u8, cinnamon: u8) -> (r: SpiceAmount)
        ensures
            r == Self::spec_new(turmeric, saffron, cardamon, cinnamon),
    {
        SpiceAmount { turmeric, saffron, cardamon, cinnamon }
    }

    /// The amount with the given counts, in ladder order.
    pub open spec fn spec_new(turmeric: u8, saffron: u8, cardamon: u8, cinnamon: u8) -> SpiceAmount {
        SpiceAmount { turmeric, saffron, cardamon, cinnamon }
    }

    /// How many cubes of the given kind the amount holds.
    pub open spec fn count(self, cube: SpiceCube) -> u8 {
        match cube {
            SpiceCube::Turmeric => self.turmeric,
            SpiceCube::Saffron => self.saffron,
            SpiceCube::Cardamon => self.cardamon,
            SpiceCube::Cinnamon => self.cinnamon,
        }
    }

    /// The number of cubes of all kinds together.
    pub open spec fn total(self) -> int {
        self.turmeric + self.saffron + self.cardamon + self.cinnamon
    }

    /// Every count of `self` is at least the matching count of `other`.
    pub open spec fn covers(self, other: SpiceAmount) -> bool {
        forall|c: SpiceCube| #[trigger] self.count(c) >= other.count(c)
    }

    /// The sum of two amounts fits in the counts' width.
    pub open spec fn can_add(self, other: SpiceAmount) -> bool {
        forall|c: SpiceCube| #[trigger] self.count(c) + other.count(c) <= u8::MAX
    }

    /// The amount whose every count is the one given.
    pub open spec fn from_counts(f: spec_fn(SpiceCube) -> int) -> SpiceAmount {
        SpiceAmount {
            turmeric: f(SpiceCube::Turmeric) as u8,
            saffron: f(SpiceCube::Saffron) as u8,
            cardamon: f(SpiceCube::Cardamon) as u8,
            cinnamon: f(SpiceCube::Cinnamon) as u8,
        }
    }

    /// The count-wise sum.
    pub open spec fn plus(self, other: SpiceAmount) -> SpiceAmount {
        Self::from_counts(|c: SpiceCube| self.count(c) + other.count(c))
    }

    /// The count-wise difference, for `self` covering `other`.
    pub open spec fn minus(self, other: SpiceAmount) -> SpiceAmount {
        Self::from_counts(|c: SpiceCube| self.count(c) - other.count(c))
    }

    /// Per kind, how much of `other` is missing from `self` (zero where
    /// nothing is).
    pub open spec fn shortfall(self, other: SpiceAmount) -> SpiceAmount {
        Self::from_counts(
            |c: SpiceCube|
                if other.count(c) > self.count(c) {
                    other.count(c) - self.count(c)
                } else {
                    0
                },
        )
    }

    /// What subtracting `other` from `self` gives: the difference where
    /// `self` covers `other`, else the error that names `self` and the
    /// shortfall.
    pub open spec fn subtracted(self, other: SpiceAmount) -> Result<SpiceAmount, GameErrors> {
        if self.covers(other) {
            Ok(self.minus(other))
        } else {
            Err(GameErrors::CannotSubtractSpiceAmount(self, self.shortfall(other)))
        }
    }

    /// Whether another amount is contained in this one: no count of `other`
    /// exceeds the matching count of `self`.
    pub fn contains(&self, other: &SpiceAmount) -> (r: bool)
        ensures
            r == self.covers(*other),
    {
        let r = self.turmeric >= other.turmeric && self.saffron >= other.saffron
            && self.cardamon >= other.cardamon && self.cinnamon >= other.cinnamon;
        proof {
            if !r {
                if self.turmeric < other.turmeric {
                    assert(self.count(SpiceCube::Turmeric) < other.count(SpiceCube::Turmeric));
                } else if self.saffron < other.saffron {
                    assert(self.count(SpiceCube::Saffron) < other.count(SpiceCube::Saffron));
                } else if self.cardamon < other.cardamon {
                    assert(self.count(SpiceCube::Cardamon) < other.count(SpiceCube::Cardamon));
                } else {
                    assert(self.count(SpiceCube::Cinnamon) < other.count(SpiceCube::Cinnamon));
                }
            }
        }
        r
    }

    /// Adds another amount to this one, count by count.
    pub fn add(&self, other: &SpiceAmount) -> (r: SpiceAmount)
        requires
            self.can_add(*other),
        ensures
            r == self.plus(*other),
    {
        assert(self.count(SpiceCube::Turmeric) + other.count(SpiceCube::Turmeric) <= u8::MAX);
        assert(self.count(SpiceCube::Saffron) + other.count(SpiceCube::Saffron) <= u8::MAX);
        assert(self.count(SpiceCube::Cardamon) + other.count(SpiceCube::Cardamon) <= u8::MAX);
        assert(self.count(SpiceCube::Cinnamon) + other.count(SpiceCube::Cinnamon) <= u8::MAX);
        SpiceAmount {
            turmeric: self.turmeric + other.turmeric,
            saffron: self.saffron + other.saffron,
            cardamon: self.cardamon + other.cardamon,
            cinnamon: self.cinnamon + other.cinnamon,
        }
    }

    /// Subtracts another amount from this one, count by count.
    ///
    /// Where `other` is not contained in `self`, fails with
    /// `CannotSubtractSpiceAmount`, which holds `self` and, per kind, how
    /// much was missing.
    pub fn subtract(self, other: &SpiceAmount) -> (r: Result<Self, GameErrors>)
        ensures
            r == self.subtracted(*other),
            r is Ok <==> self.covers(*other),
    {
        if !self.contains(other) {
            let missing = SpiceAmount {
                turmeric: other.turmeric.saturating_sub(self.turmeric),
                saffron: other.saffron.saturating_sub(self.saffron),
                cardamon: other.cardamon.saturating_sub(self.cardamon),
                cinnamon: other.cinnamon.saturating_sub(self.cinnamon),
            };
            return Err(GameErrors::CannotSubtractSpiceAmount(self, missing));
        }
        assert(self.count(SpiceCube::Turmeric) >= other.count(SpiceCube::Turmeric));
        assert(self.count(SpiceCube::Saffron) >= other.count(SpiceCube::Saffron));
        assert(self.count(SpiceCube::Cardamon) >= other.count(SpiceCube::Cardamon));
        assert(self.count(SpiceCube::Cinnamon) >= other.count(SpiceCube::Cinnamon));
        Ok(
            SpiceAmount {
                turmeric: self.turmeric - other.turmeric,
                saffron: self.saffron - other.saffron,
                cardamon: self.cardamon - other.cardamon,
                cinnamon: self.cinnamon - other.cinnamon,
            },
        )
    }
}

impl Default for SpiceAmount {
    /// The empty amount.
    fn default() -> (r: SpiceAmount)
        ensures
            r == SpiceAmount::new(0, 0, 0, 0),
    {
        SpiceAmount::new(0, 0, 0, 0)
    }
}

/// An amount of spices read from its counts in ladder order:
/// `[turmeric, saffron, cardamon, cinnamon]`.
impl From<[u8; 4]> for SpiceAmount {
    fn from(spice_array: [u8; 4]) -> (r: SpiceAmount) {
        SpiceAmount {
            turmeric: spice_array[0],
            saffron: spice_array[1],
            cardamon: spice_array[2],
            cinnamon: spice_array[3],
        }
    }
}

impl vstd::std_specs::convert::FromSpecImpl<[u8; 4]> for SpiceAmount {
    open spec fn obeys_from_spec() -> bool {
        true
    }

    open spec fn from_spec(v: [u8; 4]) -> SpiceAmount {
        SpiceAmount { turmeric: v[0], saffron: v[1], cardamon: v[2], cinnamon: v[3] }
    }
}

/// The counts of an amount of spices in ladder order:
/// `[turmeric, saffron, cardamon, cinnamon]`.
impl From<SpiceAmount> for [u8; 4] {
    fn from(spice_amount: SpiceAmount) -> (r: [u8; 4]) {
        [spice_amount.turmeric, spice_amount.saffron, spice_amount.cardamon, spice_amount.cinnamon]
    }
}

impl vstd::std_specs::convert::FromSpecImpl<SpiceAmount> for [u8; 4] {
    open spec fn obeys_from_spec() -> bool {
        true
    }

    open spec fn from_spec(v: SpiceAmount) -> [u8; 4] {
        [v.turmeric, v.saffron, v.cardamon, v.cinnamon]
    }
}

/// Builds an amount of spices one kind at a time; kinds not set stay at
/// zero.
pub struct SpiceAmountBuilder {
    spice_amount: SpiceAmount,
}

impl View for SpiceAmountBuilder {
    type V = SpiceAmount;

    /// The amount built so far.
    closed spec fn view(&self) -> SpiceAmount {
        self.spice_amount
    }
}

impl Default for SpiceAmountBuilder {
    /// A builder of the empty amount.
    fn default() -> (r: SpiceAmountBuilder)
        ensures
            r@ == SpiceAmount::new(0, 0, 0, 0),
    {
        SpiceAmountBuilder::new()
    }
}

impl SpiceAmountBuilder {
    /// A builder of the empty amount.
    pub fn new() -> (r: Self)
        ensures
            r@ == SpiceAmount::new(0, 0, 0, 0),
    {
        SpiceAmountBuilder { spice_amount: SpiceAmount::new(0, 0, 0, 0) }
    }

    /// Sets the Turmeric count.
    pub fn turmeric(self, turmeric: u8) -> (r: Self)
        ensures
            r@ == SpiceAmount::new(turmeric, self@.saffron, self@.cardamon, self@.cinnamon),
    {
        let mut b = self;
        b.spice_amount.turmeric = turmeric;
        b
    }

    /// Sets the Saffron count.
    pub fn saffron(self, saffron: u8) -> (r: Self)
        ensures
            r@ == SpiceAmount::new(self@.turmeric, saffron, self@.cardamon, self@.cinnamon),
    {
        let mut b = self;
        b.spice_amount.saffron = saffron;
        b
    }

    /// Sets the Cardamon count.
    pub fn cardamon(self, cardamon: u8) -> (r: Self)
        ensures
            r@ == SpiceAmount::new(self@.turmeric, self@.saffron, cardamon, self@.cinnamon),
    {
        let mut b = self;
        b.spice_amount.cardamon = cardamon;
        b
    }

    /// Sets the Cinnamon count.
    pub fn cinnamon(self, cinnamon: u8) -> (r: Self)
        ensures
            r@ == SpiceAmount::new(self@.turmeric, self@.saffron, self@.cardamon, cinnamon),
    {
        let mut b = self;
        b.spice_amount.cinnamon = cinnamon;
        b
    }

    /// The amount built.
    pub fn build(self) -> (r: SpiceAmount)
        ensures
            r == self@,
    {
        self.spice_amount
    }
}

/// A subtraction succeeds exactly when the amount subtracted is contained
/// in the amount subtracted from.
pub proof fn lemma_subtract_ok_iff_contains(a: SpiceAmount, b: SpiceAmount)
    ensures
        a.subtracted(b) is Ok <==> a.covers(b),
{
}

/// Adding back what was subtracted restores the original amount, and that
/// addition never overflows.
pub proof fn lemma_subtract_then_add(a: SpiceAmount, b: SpiceAmount, c: SpiceAmount)
    requires
        a.subtracted(b) == Ok::<SpiceAmount, GameErrors>(c),
    ensures
        c.can_add(b),
        c.plus(b) == a,
{
    assert(c.can_add(b)) by {
        assert forall|k: SpiceCube| #[trigger] c.count(k) + b.count(k) <= u8::MAX by {
            assert(a.count(k) >= b.count(k));
        }
    }
}

/// A failed subtraction reports the amount subtracted from and, for each
/// kind of spice, the deficit `max(0, b - a)`.
pub proof fn lemma_subtract_deficit(a: SpiceAmount, b: SpiceAmount)
    requires
        a.subtracted(b) is Err,
    ensures
        a.subtracted(b) matches Err(GameErrors::CannotSubtractSpiceAmount(x, d)) && x == a
            && forall|k: SpiceCube| #[trigger] d.count(k) == max(0, b.count(k) - a.count(k)),
{
}

} // verus!
