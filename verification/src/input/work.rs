use vstd::prelude::*;

verus! {

/// The number of jobs.
pub const WORK_SIZE: usize = 15;

/// The jobs a character can hold: the labour jobs first, then the soldier ranks.
#[derive(Clone, Copy, Debug, PartialEq, Eq, Structural, Hash)]
pub enum WorkTypes {
    Mines,
    Latrine,
    GalleyRower,
    Fields,
    Mill,
    Weaver,
    Fisherman,
    Farmer,
    BagageBoy,
    Slinger,
    Peltasts,
    Pikeman,
    FootCompanion,
    Hypaspists,
    LightCavalery,
}

impl WorkTypes {
    /// The position of the job in declaration order.
    pub open spec fn rank(self) -> nat {
        match self {
            WorkTypes::Mines => 0,
            WorkTypes::Latrine => 1,
            WorkTypes::GalleyRower => 2,
            WorkTypes::Fields => 3,
            WorkTypes::Mill => 4,
            WorkTypes::Weaver => 5,
            WorkTypes::Fisherman => 6,
            WorkTypes::Farmer => 7,
            WorkTypes::BagageBoy => 8,
            WorkTypes::Slinger => 9,
            WorkTypes::Peltasts => 10,
            WorkTypes::Pikeman => 11,
            WorkTypes::FootCompanion => 12,
            WorkTypes::Hypaspists => 13,
            WorkTypes::LightCavalery => 14,
        }
    }

    /// The job at a position of the declaration order.
    pub open spec fn of_rank(rank: int) -> WorkTypes {
        if rank == 0 {
            WorkTypes::Mines
        } else if rank == 1 {
            WorkTypes::Latrine
        } else if rank == 2 {
            WorkTypes::GalleyRower
        } else if rank == 3 {
            WorkTypes::Fields
        } else if rank == 4 {
            WorkTypes::Mill
        } else if rank == 5 {
            WorkTypes::Weaver
        } else if rank == 6 {
            WorkTypes::Fisherman
        } else if rank == 7 {
            WorkTypes::Farmer
        } else if rank == 8 {
            WorkTypes::BagageBoy
        } else if rank == 9 {
            WorkTypes::Slinger
        } else if rank == 10 {
            WorkTypes::Peltasts
        } else if rank == 11 {
            WorkTypes::Pikeman
        } else if rank == 12 {
            WorkTypes::FootCompanion
        } else if rank == 13 {
            WorkTypes::Hypaspists
        } else {
            WorkTypes::LightCavalery
        }
    }

    /// `of_rank` and `rank` undo each other.
    pub proof fn lemma_of_rank()
        ensures
            forall|name: WorkTypes| WorkTypes::of_rank(#[trigger] name.rank() as int) == name,
            forall|rank: int|
                0 <= rank < WORK_SIZE ==> (#[trigger] WorkTypes::of_rank(rank)).rank() == rank,
    {
    }

    /// The slot of the job in a table indexed by job.
    pub fn index(self) -> (i: usize)
        ensures
            i == self.rank(),
            i < WORK_SIZE,
    {
        match self {
            WorkTypes::Mines => 0,
            WorkTypes::Latrine => 1,
            WorkTypes::GalleyRower => 2,
            WorkTypes::Fields => 3,
            WorkTypes::Mill => 4,
            WorkTypes::Weaver => 5,
            WorkTypes::Fisherman => 6,
            WorkTypes::Farmer => 7,
            WorkTypes::BagageBoy => 8,
            WorkTypes::Slinger => 9,
            WorkTypes::Peltasts => 10,
            WorkTypes::Pikeman => 11,
            WorkTypes::FootCompanion => 12,
            WorkTypes::Hypaspists => 13,
            WorkTypes::LightCavalery => 14,
        }
    }

    /// Every job exactly once, in declaration order.
    pub fn all() -> (v: Vec<WorkTypes>)
        ensures
            v@.len() == WORK_SIZE,
            forall|i: int| 0 <= i < v@.len() ==> #[trigger] v@[i] == WorkTypes::of_rank(i),
            forall|i: int| 0 <= i < v@.len() ==> (#[trigger] v@[i]).rank() == i,
    {
        vec![
            WorkTypes::Mines,
            WorkTypes::Latrine,
            WorkTypes::GalleyRower,
            WorkTypes::Fields,
            WorkTypes::Mill,
            WorkTypes::Weaver,
            WorkTypes::Fisherman,
            WorkTypes::Farmer,
            WorkTypes::BagageBoy,
            WorkTypes::Slinger,
            WorkTypes::Peltasts,
            WorkTypes::Pikeman,
            WorkTypes::FootCompanion,
            WorkTypes::Hypaspists,
            WorkTypes::LightCavalery,
        ]
    }
}

} // verus!
