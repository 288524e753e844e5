use vstd::prelude::*;

verus! {

/// The number of tombs.
pub const TOMB_SIZE: usize = 4;

/// The tombs a character can buy, in the order in which a buying pass visits them.
#[derive(Clone, Copy, Debug, PartialEq, Eq, Structural, Hash)]
pub enum TombTypes {
    ShallowGrave,
    Coffin,
    Tombstone,
    Crypt,
}

impl TombTypes {
    /// The position of the tomb in declaration order.
    pub open spec fn rank(self) -> nat {
        match self {
            TombTypes::ShallowGrave => 0,
            TombTypes::Coffin => 1,
            TombTypes::Tombstone => 2,
            TombTypes::Crypt => 3,
        }
    }

    /// The tomb at a position of the declaration order.
    pub open spec fn of_rank(rank: int) -> TombTypes {
        if rank == 0 {
            TombTypes::ShallowGrave
        } else if rank == 1 {
            TombTypes::Coffin
        } else if rank == 2 {
            TombTypes::Tombstone
        } else {
            TombTypes::Crypt
        }
    }

    /// `of_rank` and `rank` undo each other.
    pub proof fn lemma_of_rank()
        ensures
            forall|name: TombTypes| TombTypes::of_rank(#[trigger] name.rank() as int) == name,
            forall|rank: int|
                0 <= rank < TOMB_SIZE ==> (#[trigger] TombTypes::of_rank(rank)).rank() == rank,
    {
    }

    /// The slot of the tomb in a table indexed by tomb.
    pub fn index(self) -> (i: usize)
        ensures
            i == self.rank(),
            i < TOMB_SIZE,
    {
        match self {
            TombTypes::ShallowGrave => 0,
            TombTypes::Coffin => 1,
            TombTypes::Tombstone => 2,
            TombTypes::Crypt => 3,
        }
    }

    /// Every tomb exactly once, in declaration order.
    pub fn all() -> (v: Vec<TombTypes>)
        ensures
            v@.len() == TOMB_SIZE,
            forall|i: int| 0 <= i < v@.len() ==> #[trigger] v@[i] == TombTypes::of_rank(i),
            forall|i: int| 0 <= i < v@.len() ==> (#[trigger] v@[i]).rank() == i,
    {
        vec![
            TombTypes::ShallowGrave,
            TombTypes::Coffin,
            TombTypes::Tombstone,
            TombTypes::Crypt,
        ]
    }
}

} // verus!
