use crate::errors::GameErrors;
use crate::spice::{SpiceAmount, SpiceCube};
use vstd::prelude::*;

verus! {

/// Maximum number of spice cubes a caravan can hold.
pub const MAX_CARAVAN_SIZE: usize = 10;

/// How many slots of `slots` hold a cube of the given kind.
pub open spec fn count_of(slots: Seq<Option<SpiceCube>>, cube: SpiceCube) -> nat
    decreases slots.len(),
{
    if slots.len() == 0 {
        0
    } else {
        count_of(slots.drop_last(), cube) + if slots.last() == Some(cube) {
            1nat
        } else {
            0nat
        }
    }
}

/// How many slots of `slots` hold a cube.
pub open spec fn occupied(slots: Seq<Option<SpiceCube>>) -> nat
    decreases slots.len(),
{
    if slots.len() == 0 {
        0
    } else {
        occupied(slots.drop_last()) + if slots.last() is Some {
            1nat
        } else {
            0nat
        }
    }
}

/// The amount of spices that the slots hold together.
pub open spec fn tally(slots: Seq<Option<SpiceCube>>) -> SpiceAmount {
    SpiceAmount {
        turmeric: count_of(slots, SpiceCube::Turmeric) as u8,
        saffron: count_of(slots, SpiceCube::Saffron) as u8,
        cardamon: count_of(slots, SpiceCube::Cardamon) as u8,
        cinnamon: count_of(slots, SpiceCube::Cinnamon) as u8,
    }
}

/// How many cubes of `amount` rank below the given kind: the first slot of
/// that kind in the canonical filling.
pub open spec fn first_slot(amount: SpiceAmount, cube: SpiceCube) -> int {
    match cube {
        SpiceCube::Turmeric => 0,
        SpiceCube::Saffron => amount.turmeric as int,
        SpiceCube::Cardamon => amount.turmeric + amount.saffron,
        SpiceCube::Cinnamon => amount.turmeric + amount.saffron + amount.cardamon,
    }
}

/// What slot `i` holds when `amount` is laid out in ascending order of rank
/// from slot 0: all Turmeric, then Saffron, Cardamon and Cinnamon, then
/// empty slots.
pub open spec fn slot_in_filling(amount: SpiceAmount, i: int) -> Option<SpiceCube> {
    if i < first_slot(amount, SpiceCube::Saffron) {
        Some(SpiceCube::Turmeric)
    } else if i < first_slot(amount, SpiceCube::Cardamon) {
        Some(SpiceCube::Saffron)
    } else if i < first_slot(amount, SpiceCube::Cinnamon) {
        Some(SpiceCube::Cardamon)
    } else if i < amount.total() {
        Some(SpiceCube::Cinnamon)
    } else {
        None
    }
}

/// The canonical slots of a caravan that holds `amount`.
pub open spec fn filling(amount: SpiceAmount) -> Seq<Option<SpiceCube>> {
    Seq::new(MAX_CARAVAN_SIZE as nat, |i: int| slot_in_filling(amount, i))
}

/// The part of a run of `len` slots starting at `lo` that lies before `k`.
pub open spec fn run_before(lo: int, len: int, k: int) -> int {
    if k <= lo {
        0
    } else if k >= lo + len {
        len
    } else {
        k - lo
    }
}

/// Among the first `k` slots of a canonical filling, those of one kind are
/// the part of that kind's run that lies before `k`.
proof fn lemma_count_of_filling_prefix(amount: SpiceAmount, cube: SpiceCube, k: int)
    requires
        amount.total() <= MAX_CARAVAN_SIZE,
        0 <= k <= MAX_CARAVAN_SIZE,
    ensures
        count_of(filling(amount).take(k), cube) == run_before(
            first_slot(amount, cube),
            amount.count(cube) as int,
            k,
        ),
    decreases k,
{
    if k > 0 {
        lemma_count_of_filling_prefix(amount, cube, k - 1);
        assert(filling(amount).take(k).drop_last() =~= filling(amount).take(k - 1));
    }
}

/// The first `k` slots of a canonical filling hold `min(k, total)` cubes.
proof fn lemma_occupied_filling_prefix(amount: SpiceAmount, k: int)
    requires
        amount.total() <= MAX_CARAVAN_SIZE,
        0 <= k <= MAX_CARAVAN_SIZE,
    ensures
        occupied(filling(amount).take(k)) == run_before(0, amount.total(), k),
    decreases k,
{
    if k > 0 {
        lemma_occupied_filling_prefix(amount, k - 1);
        assert(filling(amount).take(k).drop_last() =~= filling(amount).take(k - 1));
    }
}

/// Laying an amount out in a caravan and counting the caravan's spaces
/// gives the amount back, for every amount that fits.
pub proof fn lemma_round_trip(amount: SpiceAmount)
    requires
        amount.total() <= MAX_CARAVAN_SIZE,
    ensures
        tally(filling(amount)) == amount,
{
    let k = MAX_CARAVAN_SIZE as int;
    assert(filling(amount).take(k) =~= filling(amount));
    lemma_count_of_filling_prefix(amount, SpiceCube::Turmeric, k);
    lemma_count_of_filling_prefix(amount, SpiceCube::Saffron, k);
    lemma_count_of_filling_prefix(amount, SpiceCube::Cardamon, k);
    lemma_count_of_filling_prefix(amount, SpiceCube::Cinnamon, k);
}

/// A caravan made from an amount that fits has exactly as many occupied
/// spaces as the amount has cubes.
pub proof fn lemma_capacity_of_filling(amount: SpiceAmount)
    requires
        amount.total() <= MAX_CARAVAN_SIZE,
    ensures
        occupied(filling(amount)) == amount.total(),
{
    let k = MAX_CARAVAN_SIZE as int;
    assert(filling(amount).take(k) =~= filling(amount));
    lemma_occupied_filling_prefix(amount, k);
}

/// A player's caravan, their inventory: up to [`MAX_CARAVAN_SIZE`] spice
/// cubes, one per space.
#[derive(Debug, PartialEq, Eq)]
pub struct Caravan {
    spaces: [Option<SpiceCube>; MAX_CARAVAN_SIZE],
}

impl View for Caravan {
    type V = Seq<Option<SpiceCube>>;

    /// The spaces, in order.
    closed spec fn view(&self) -> Seq<Option<SpiceCube>> {
        self.spaces@
    }
}

/// Puts `count` cubes of kind `cube` into the spaces from `from` on, and
/// leaves the other spaces as they were.
fn fill_run(
    spaces: &mut [Option<SpiceCube>; MAX_CARAVAN_SIZE],
    from: usize,
    count: u8,
    cube: SpiceCube,
)
    requires
        from + count <= MAX_CARAVAN_SIZE,
    ensures
        forall|j: int|
            0 <= j < MAX_CARAVAN_SIZE ==> #[trigger] final(spaces)@[j] == if from <= j < from
                + count {
                Some(cube)
            } else {
                old(spaces)@[j]
            },
{
    let end: usize = from + count as usize;
    let mut idx: usize = from;
    while idx < end
        invariant
            from <= idx <= end <= MAX_CARAVAN_SIZE,
            end == from + count,
            forall|j: int|
                0 <= j < MAX_CARAVAN_SIZE ==> #[trigger] spaces@[j] == if from <= j < idx {
                    Some(cube)
                } else {
                    old(spaces)@[j]
                },
        decreases end - idx,
    {
        spaces[idx] = Some(cube);
        idx += 1;
    }
}

impl Caravan {
    /// The spaces are always laid out canonically: they are the filling of
    /// the amount they hold, and that amount fits.
    #[verifier::type_invariant]
    spec fn canonical(self) -> bool {
        &&& tally(self.spaces@).total() <= MAX_CARAVAN_SIZE
        &&& filling(tally(self.spaces@)) == self.spaces@
    }

    /// The spaces of the caravan, in order.
    pub fn get_spaces(&self) -> (r: &[Option<SpiceCube>; MAX_CARAVAN_SIZE])
        ensures
            r@ == self@,
    {
        &self.spaces
    }

    /// Creates a caravan that holds `spice_amount`, its cubes laid out in
    /// ascending order of rank from the first space on and the remaining
    /// spaces empty.
    ///
    /// Fails with `MaxSpiceCapacityReached` where the amount has more cubes
    /// than [`MAX_CARAVAN_SIZE`].
    pub fn from_spice_amount(spice_amount: SpiceAmount) -> (r: Result<Self, GameErrors>)
        ensures
            spice_amount.total() > MAX_CARAVAN_SIZE ==> r == Err::<Self, GameErrors>(
                GameErrors::MaxSpiceCapacityReached,
            ),
            spice_amount.total() <= MAX_CARAVAN_SIZE ==> (r matches Ok(c) && c@ == filling(
                spice_amount,
            )),
    {
        let turmeric = spice_amount.turmeric as usize;
        let saffron = spice_amount.saffron as usize;
        let cardamon = spice_amount.cardamon as usize;
        let cinnamon = spice_amount.cinnamon as usize;
        let total: usize = turmeric + saffron + cardamon + cinnamon;
        if total > MAX_CARAVAN_SIZE {
            return Err(GameErrors::MaxSpiceCapacityReached);
        }
        let mut spaces: [Option<SpiceCube>; MAX_CARAVAN_SIZE] = [None; MAX_CARAVAN_SIZE];
        fill_run(&mut spaces, 0, spice_amount.turmeric, SpiceCube::Turmeric);
        fill_run(&mut spaces, turmeric, spice_amount.saffron, SpiceCube::Saffron);
        fill_run(&mut spaces, turmeric + saffron, spice_amount.cardamon, SpiceCube::Cardamon);
        fill_run(
            &mut spaces,
            turmeric + saffron + cardamon,
            spice_amount.cinnamon,
            SpiceCube::Cinnamon,
        );
        assert(spaces@ =~= filling(spice_amount));
        proof {
            lemma_round_trip(spice_amount);
        }
        Ok(Caravan { spaces })
    }

    /// The number of spaces that hold a cube.
    pub fn current_capacity(&self) -> (r: u8)
        ensures
            r == occupied(self@),
            r <= MAX_CARAVAN_SIZE,
    {
        let mut n: u8 = 0;
        let mut i: usize = 0;
        while i < MAX_CARAVAN_SIZE
            invariant
                i <= MAX_CARAVAN_SIZE,
                n == occupied(self.spaces@.take(i as int)),
                n <= i,
            decreases MAX_CARAVAN_SIZE - i,
        {
            assert(self.spaces@.take(i + 1).drop_last() =~= self.spaces@.take(i as int));
            if self.spaces[i].is_some() {
                n += 1;
            }
            i += 1;
        }
        assert(self.spaces@.take(MAX_CARAVAN_SIZE as int) =~= self.spaces@);
        n
    }

    /// The amount of spices in the caravan: per kind, the number of spaces
    /// that hold a cube of that kind.
    pub fn get_spice_amount(&self) -> (r: SpiceAmount)
        ensures
            r == tally(self@),
            r.total() == occupied(self@),
            r.total() <= MAX_CARAVAN_SIZE,
            filling(r) == self@,
    {
        proof {
            use_type_invariant(self);
        }
        let mut turmeric: u8 = 0;
        let mut saffron: u8 = 0;
        let mut cardamon: u8 = 0;
        let mut cinnamon: u8 = 0;
        let mut i: usize = 0;
        while i < MAX_CARAVAN_SIZE
            invariant
                i <= MAX_CARAVAN_SIZE,
                turmeric == count_of(self.spaces@.take(i as int), SpiceCube::Turmeric),
                saffron == count_of(self.spaces@.take(i as int), SpiceCube::Saffron),
                cardamon == count_of(self.spaces@.take(i as int), SpiceCube::Cardamon),
                cinnamon == count_of(self.spaces@.take(i as int), SpiceCube::Cinnamon),
                turmeric + saffron + cardamon + cinnamon == occupied(self.spaces@.take(i as int)),
                turmeric + saffron + cardamon + cinnamon <= i,
            decreases MAX_CARAVAN_SIZE - i,
        {
            assert(self.spaces@.take(i + 1).drop_last() =~= self.spaces@.take(i as int));
            match self.spaces[i] {
                Some(SpiceCube::Turmeric) => turmeric += 1,
                Some(SpiceCube::Saffron) => saffron += 1,
                Some(SpiceCube::Cardamon) => cardamon += 1,
                Some(SpiceCube::Cinnamon) => cinnamon += 1,
                None => {},
            }
            i += 1;
        }
        assert(self.spaces@.take(MAX_CARAVAN_SIZE as int) =~= self.spaces@);
        SpiceAmount { turmeric, saffron, cardamon, cinnamon }
    }
}

} // verus!
