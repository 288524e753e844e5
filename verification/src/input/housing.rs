use vstd::prelude::*;

verus! {

/// The number of housing options.
pub const HOUSING_SIZE: usize = 5;

/// The housing options, from the poorest to the best.
#[derive(Clone, Copy, Debug, PartialEq, Eq, Structural, Hash)]
pub enum HousingTypes {
    StoneFloor,
    StrawBed,
    Tent,
    WoodenHut,
    TownHouse,
}

impl HousingTypes {
    /// The position of the housing option in declaration order.
    pub open spec fn rank(self) -> nat {
        match self {
            HousingTypes::StoneFloor => 0,
            HousingTypes::StrawBed => 1,
            HousingTypes::Tent => 2,
            HousingTypes::WoodenHut => 3,
            HousingTypes::TownHouse => 4,
        }
    }

    /// The housing option at a position of the declaration order.
    pub open spec fn of_rank(rank: int) -> HousingTypes {
        if rank == 0 {
            HousingTypes::StoneFloor
        } else if rank == 1 {
            HousingTypes::StrawBed
        } else if rank == 2 {
            HousingTypes::Tent
        } else if rank == 3 {
            HousingTypes::WoodenHut
        } else {
            HousingTypes::TownHouse
        }
    }

    /// `of_rank` and `rank` undo each other.
    pub proof fn lemma_of_rank()
        ensures
            forall|name: HousingTypes| HousingTypes::of_rank(#[trigger] name.rank() as int) == name,
            forall|rank: int|
                0 <= rank < HOUSING_SIZE ==> (#[trigger] HousingTypes::of_rank(rank)).rank() == rank,
    {
    }

    /// The slot of the housing option in a table indexed by housing option.
    pub fn index(self) -> (i: usize)
        ensures
            i == self.rank(),
            i < HOUSING_SIZE,
    {
        match self {
            HousingTypes::StoneFloor => 0,
            HousingTypes::StrawBed => 1,
            HousingTypes::Tent => 2,
            HousingTypes::WoodenHut => 3,
            HousingTypes::TownHouse => 4,
        }
    }

    /// Every housing option exactly once, in declaration order.
    pub fn all() -> (v: Vec<HousingTypes>)
        ensures
            v@.len() == HOUSING_SIZE,
            forall|i: int| 0 <= i < v@.len() ==> #[trigger] v@[i] == HousingTypes::of_rank(i),
            forall|i: int| 0 <= i < v@.len() ==> (#[trigger] v@[i]).rank() == i,
    {
        vec![
            HousingTypes::StoneFloor,
            HousingTypes::StrawBed,
            HousingTypes::Tent,
            HousingTypes::WoodenHut,
            HousingTypes::TownHouse,
        ]
    }
}

} // verus!
