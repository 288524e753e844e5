use vstd::prelude::*;

verus! {

/// The number of character stats.
pub const STAT_SIZE: usize = 6;

/// The character stats, in the order in which every stat table is laid out.
#[derive(Clone, Copy, Debug, PartialEq, Eq, Structural, Hash)]
pub enum StatTypes {
    Str,
    Int,
    Cha,
    Con,
    Dex,
    Faith,
}

impl StatTypes {
    /// The position of the stat in declaration order.
    pub open spec fn rank(self) -> nat {
        match self {
            StatTypes::Str => 0,
            StatTypes::Int => 1,
            StatTypes::Cha => 2,
            StatTypes::Con => 3,
            StatTypes::Dex => 4,
            StatTypes::Faith => 5,
        }
    }

    /// The stat at a position of the declaration order.
    pub open spec fn of_rank(rank: int) -> StatTypes {
        if rank == 0 {
            StatTypes::Str
        } else if rank == 1 {
            StatTypes::Int
        } else if rank == 2 {
            StatTypes::Cha
        } else if rank == 3 {
            StatTypes::Con
        } else if rank == 4 {
            StatTypes::Dex
        } else {
            StatTypes::Faith
        }
    }

    /// `of_rank` and `rank` undo each other.
    pub proof fn lemma_of_rank()
        ensures
            forall|name: StatTypes| StatTypes::of_rank(#[trigger] name.rank() as int) == name,
            forall|rank: int|
                0 <= rank < STAT_SIZE ==> (#[trigger] StatTypes::of_rank(rank)).rank() == rank,
    {
    }

    /// The slot of the stat in a table indexed by stat.
    pub fn index(self) -> (i: usize)
        ensures
            i == self.rank(),
            i < STAT_SIZE,
    {
        match self {
            StatTypes::Str => 0,
            StatTypes::Int => 1,
            StatTypes::Cha => 2,
            StatTypes::Con => 3,
            StatTypes::Dex => 4,
            StatTypes::Faith => 5,
        }
    }

    /// Every stat exactly once, in declaration order.
    pub fn all() -> (v: Vec<StatTypes>)
        ensures
            v@.len() == STAT_SIZE,
            forall|i: int| 0 <= i < v@.len() ==> #[trigger] v@[i] == StatTypes::of_rank(i),
            forall|i: int| 0 <= i < v@.len() ==> (#[trigger] v@[i]).rank() == i,
    {
        vec![
            StatTypes::Str,
            StatTypes::Int,
            StatTypes::Cha,
            StatTypes::Con,
            StatTypes::Dex,
            StatTypes::Faith,
        ]
    }
}

} // verus!
