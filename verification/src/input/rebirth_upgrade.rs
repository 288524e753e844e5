use vstd::prelude::*;

verus! {

/// The number of permanent upgrades.
pub const REBIRTH_UPGRADE_SIZE: usize = 5;

/// The permanent upgrades, which stay purchased across rebirths.
#[derive(Clone, Copy, Debug, PartialEq, Eq, Structural, Hash)]
pub enum RebirthUpgradeTypes {
    AcceptingDeath,
    QuickLearner,
    Meditation,
    Inheritance,
    MilitaryTactics,
}

impl RebirthUpgradeTypes {
    /// The position of the upgrade in declaration order.
    pub open spec fn rank(self) -> nat {
        match self {
            RebirthUpgradeTypes::AcceptingDeath => 0,
            RebirthUpgradeTypes::QuickLearner => 1,
            RebirthUpgradeTypes::Meditation => 2,
            RebirthUpgradeTypes::Inheritance => 3,
            RebirthUpgradeTypes::MilitaryTactics => 4,
        }
    }

    /// The upgrade at a position of the declaration order.
    pub open spec fn of_rank(rank: int) -> RebirthUpgradeTypes {
        if rank == 0 {
            RebirthUpgradeTypes::AcceptingDeath
        } else if rank == 1 {
            RebirthUpgradeTypes::QuickLearner
        } else if rank == 2 {
            RebirthUpgradeTypes::Meditation
        } else if rank == 3 {
            RebirthUpgradeTypes::Inheritance
        } else {
            RebirthUpgradeTypes::MilitaryTactics
        }
    }

    /// `of_rank` and `rank` undo each other.
    pub proof fn lemma_of_rank()
        ensures
            forall|name: RebirthUpgradeTypes|
                RebirthUpgradeTypes::of_rank(#[trigger] name.rank() as int) == name,
            forall|rank: int|
                0 <= rank < REBIRTH_UPGRADE_SIZE ==> (#[trigger] RebirthUpgradeTypes::of_rank(rank)).rank() == rank,
    {
    }

    /// The slot of the upgrade in a table indexed by upgrade.
    pub fn index(self) -> (i: usize)
        ensures
            i == self.rank(),
            i < REBIRTH_UPGRADE_SIZE,
    {
        match self {
            RebirthUpgradeTypes::AcceptingDeath => 0,
            RebirthUpgradeTypes::QuickLearner => 1,
            RebirthUpgradeTypes::Meditation => 2,
            RebirthUpgradeTypes::Inheritance => 3,
            RebirthUpgradeTypes::MilitaryTactics => 4,
        }
    }

    /// Every upgrade exactly once, in declaration order.
    pub fn all() -> (v: Vec<RebirthUpgradeTypes>)
        ensures
            v@.len() == REBIRTH_UPGRADE_SIZE,
            forall|i: int| 0 <= i < v@.len() ==> #[trigger] v@[i] == RebirthUpgradeTypes::of_rank(i),
            forall|i: int| 0 <= i < v@.len() ==> (#[trigger] v@[i]).rank() == i,
    {
        vec![
            RebirthUpgradeTypes::AcceptingDeath,
            RebirthUpgradeTypes::QuickLearner,
            RebirthUpgradeTypes::Meditation,
            RebirthUpgradeTypes::Inheritance,
            RebirthUpgradeTypes::MilitaryTactics,
        ]
    }
}

} // verus!
