use vstd::prelude::*;

verus! {

/// The number of purchasable items.
pub const BOOST_ITEM_SIZE: usize = 14;

/// The purchasable items, in the order in which a buying pass visits them.
#[derive(Clone, Copy, Debug, PartialEq, Eq, Structural, Hash)]
pub enum BoostItemTypes {
    Book,
    Dumbell,
    RaggedClothes,
    IronPickAxe,
    Book2,
    Dumbell2,
    FarmersClothes,
    Book3,
    Dumbell3,
    FishingGear,
    CityClothes,
    Leach,
    PitchFork,
    HealthKit,
}

impl BoostItemTypes {
    /// The position of the item in declaration order.
    pub open spec fn rank(self) -> nat {
        match self {
            BoostItemTypes::Book => 0,
            BoostItemTypes::Dumbell => 1,
            BoostItemTypes::RaggedClothes => 2,
            BoostItemTypes::IronPickAxe => 3,
            BoostItemTypes::Book2 => 4,
            BoostItemTypes::Dumbell2 => 5,
            BoostItemTypes::FarmersClothes => 6,
            BoostItemTypes::Book3 => 7,
            BoostItemTypes::Dumbell3 => 8,
            BoostItemTypes::FishingGear => 9,
            BoostItemTypes::CityClothes => 10,
            BoostItemTypes::Leach => 11,
            BoostItemTypes::PitchFork => 12,
            BoostItemTypes::HealthKit => 13,
        }
    }

    /// The item at a position of the declaration order.
    pub open spec fn of_rank(rank: int) -> BoostItemTypes {
        if rank == 0 {
            BoostItemTypes::Book
        } else if rank == 1 {
            BoostItemTypes::Dumbell
        } else if rank == 2 {
            BoostItemTypes::RaggedClothes
        } else if rank == 3 {
            BoostItemTypes::IronPickAxe
        } else if rank == 4 {
            BoostItemTypes::Book2
        } else if rank == 5 {
            BoostItemTypes::Dumbell2
        } else if rank == 6 {
            BoostItemTypes::FarmersClothes
        } else if rank == 7 {
            BoostItemTypes::Book3
        } else if rank == 8 {
            BoostItemTypes::Dumbell3
        } else if rank == 9 {
            BoostItemTypes::FishingGear
        } else if rank == 10 {
            BoostItemTypes::CityClothes
        } else if rank == 11 {
            BoostItemTypes::Leach
        } else if rank == 12 {
            BoostItemTypes::PitchFork
        } else {
            BoostItemTypes::HealthKit
        }
    }

    /// `of_rank` and `rank` undo each other.
    pub proof fn lemma_of_rank()
        ensures
            forall|name: BoostItemTypes| BoostItemTypes::of_rank(#[trigger] name.rank() as int) == name,
            forall|rank: int|
                0 <= rank < BOOST_ITEM_SIZE ==> (#[trigger] BoostItemTypes::of_rank(rank)).rank() == rank,
    {
    }

    /// The slot of the item in a table indexed by item.
    pub fn index(self) -> (i: usize)
        ensures
            i == self.rank(),
            i < BOOST_ITEM_SIZE,
    {
        match self {
            BoostItemTypes::Book => 0,
            BoostItemTypes::Dumbell => 1,
            BoostItemTypes::RaggedClothes => 2,
            BoostItemTypes::IronPickAxe => 3,
            BoostItemTypes::Book2 => 4,
            BoostItemTypes::Dumbell2 => 5,
            BoostItemTypes::FarmersClothes => 6,
            BoostItemTypes::Book3 => 7,
            BoostItemTypes::Dumbell3 => 8,
            BoostItemTypes::FishingGear => 9,
            BoostItemTypes::CityClothes => 10,
            BoostItemTypes::Leach => 11,
            BoostItemTypes::PitchFork => 12,
            BoostItemTypes::HealthKit => 13,
        }
    }

    /// Every item exactly once, in declaration order.
    pub fn all() -> (v: Vec<BoostItemTypes>)
        ensures
            v@.len() == BOOST_ITEM_SIZE,
            forall|i: int| 0 <= i < v@.len() ==> #[trigger] v@[i] == BoostItemTypes::of_rank(i),
            forall|i: int| 0 <= i < v@.len() ==> (#[trigger] v@[i]).rank() == i,
    {
        vec![
            BoostItemTypes::Book,
            BoostItemTypes::Dumbell,
            BoostItemTypes::RaggedClothes,
            BoostItemTypes::IronPickAxe,
            BoostItemTypes::Book2,
            BoostItemTypes::Dumbell2,
            BoostItemTypes::FarmersClothes,
            BoostItemTypes::Book3,
            BoostItemTypes::Dumbell3,
            BoostItemTypes::FishingGear,
            BoostItemTypes::CityClothes,
            BoostItemTypes::Leach,
            BoostItemTypes::PitchFork,
            BoostItemTypes::HealthKit,
        ]
    }
}

} // verus!
