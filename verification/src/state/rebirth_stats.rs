use crate::input::rebirth_upgrade::{RebirthUpgradeTypes, REBIRTH_UPGRADE_SIZE};
use crate::input::work::WORK_SIZE;
use crate::table::{is_table, Slotted};
use vstd::prelude::*;

verus! {

/// Whether a permanent upgrade has been purchased.
#[derive(Clone, Copy, Debug)]
pub struct RebirthUpgradeState {
    pub name: RebirthUpgradeTypes,
    pub is_purchased: bool,
}

impl Slotted for RebirthUpgradeState {
    open spec fn slot(&self) -> nat {
        self.name.rank()
    }

    fn slot_index(&self) -> (i: usize) {
        self.name.index()
    }
}

impl RebirthUpgradeState {
    /// The record of an upgrade that was never purchased.
    pub open spec fn fresh(name: RebirthUpgradeTypes) -> RebirthUpgradeState {
        RebirthUpgradeState { name, is_purchased: false }
    }

    /// The record of an upgrade that was never purchased.
    pub fn new(name: RebirthUpgradeTypes) -> (record: RebirthUpgradeState)
        ensures
            record == RebirthUpgradeState::fresh(name),
    {
        RebirthUpgradeState { name, is_purchased: false }
    }
}

/// What the purchased upgrades open up.
#[derive(Clone, Copy, Debug, PartialEq, Eq, Structural)]
pub struct Unlocks {
    pub has_military_tactics: bool,
    pub has_meditation: bool,
}

/// What a character keeps from one life to the next.
pub struct RebirthStats {
    pub class_tier: u32,
    /// The prestige currency, in thousandths of a coin.
    pub coins: i64,
    pub rebirth_count: u32,
    /// The best level ever reached in each job.
    pub max_job_levels: Vec<u32>,
    pub rebirth_upgrades: Vec<RebirthUpgradeState>,
    pub unlocks: Unlocks,
}

/// What a character keeps from one life to the next, as contracts see it:
/// each table as a sequence.
pub struct RebirthStatsView {
    pub class_tier: u32,
    pub coins: i64,
    pub rebirth_count: u32,
    pub max_job_levels: Seq<u32>,
    pub rebirth_upgrades: Seq<RebirthUpgradeState>,
    pub unlocks: Unlocks,
}

impl View for RebirthStats {
    type V = RebirthStatsView;

    open spec fn view(&self) -> RebirthStatsView {
        RebirthStatsView {
            class_tier: self.class_tier,
            coins: self.coins,
            rebirth_count: self.rebirth_count,
            max_job_levels: self.max_job_levels@,
            rebirth_upgrades: self.rebirth_upgrades@,
            unlocks: self.unlocks,
        }
    }
}

impl RebirthStatsView {
    /// What a character has before the first life.
    pub open spec fn fresh() -> RebirthStatsView {
        RebirthStatsView {
            class_tier: 0,
            coins: 0,
            rebirth_count: 0,
            max_job_levels: Seq::new(WORK_SIZE as nat, |i: int| 0u32),
            rebirth_upgrades: Seq::new(
                REBIRTH_UPGRADE_SIZE as nat,
                |i: int| RebirthUpgradeState::fresh(RebirthUpgradeTypes::of_rank(i)),
            ),
            unlocks: Unlocks { has_military_tactics: false, has_meditation: false },
        }
    }

    /// One best level for each job, one record for each upgrade.
    pub open spec fn wf(self) -> bool {
        &&& self.max_job_levels.len() == WORK_SIZE
        &&& is_table(self.rebirth_upgrades, REBIRTH_UPGRADE_SIZE as nat)
    }

    /// Whether the upgrade has been purchased.
    pub open spec fn has(self, upgrade: RebirthUpgradeTypes) -> bool {
        self.rebirth_upgrades[upgrade.rank() as int].is_purchased
    }

    /// What the purchased upgrades open up.
    pub open spec fn unlocked(self) -> Unlocks {
        Unlocks {
            has_military_tactics: self.has(RebirthUpgradeTypes::MilitaryTactics),
            has_meditation: self.has(RebirthUpgradeTypes::Meditation),
        }
    }

    /// Whether nothing that `self` has achieved is missing from `later`: the
    /// tier and the count of rebirths are no lower, and every upgrade that
    /// was purchased still is.
    pub open spec fn kept_by(self, later: RebirthStatsView) -> bool {
        &&& self.class_tier <= later.class_tier
        &&& self.rebirth_count <= later.rebirth_count
        &&& self.rebirth_upgrades.len() == later.rebirth_upgrades.len()
        &&& forall|i: int|
            0 <= i < self.rebirth_upgrades.len() && (#[trigger] self.rebirth_upgrades[i]).is_purchased
                ==> later.rebirth_upgrades[i].is_purchased
    }
}

impl RebirthStats {
    /// What a character has before the first life.
    pub fn new() -> (stats: RebirthStats)
        ensures
            stats@ == RebirthStatsView::fresh(),
            stats@.wf(),
    {
        let names = RebirthUpgradeTypes::all();
        let mut rebirth_upgrades: Vec<RebirthUpgradeState> = Vec::new();
        let mut i: usize = 0;
        while i < names.len()
            invariant
                i <= names@.len(),
                names@.len() == REBIRTH_UPGRADE_SIZE,
                forall|j: int|
                    0 <= j < names@.len() ==> #[trigger] names@[j] == RebirthUpgradeTypes::of_rank(j),
                rebirth_upgrades@.len() == i,
                forall|j: int|
                    0 <= j < i ==> #[trigger] rebirth_upgrades@[j] == RebirthUpgradeState::fresh(
                        RebirthUpgradeTypes::of_rank(j),
                    ),
            decreases names@.len() - i,
        {
            rebirth_upgrades.push(RebirthUpgradeState::new(names[i]));
            i = i + 1;
        }
        let mut max_job_levels: Vec<u32> = Vec::new();
        let mut j: usize = 0;
        while j < WORK_SIZE
            invariant
                j <= WORK_SIZE,
                max_job_levels@.len() == j,
                forall|k: int| 0 <= k < j ==> #[trigger] max_job_levels@[k] == 0,
            decreases WORK_SIZE - j,
        {
            max_job_levels.push(0);
            j = j + 1;
        }
        proof {
            RebirthUpgradeTypes::lemma_of_rank();
            assert(rebirth_upgrades@ =~= RebirthStatsView::fresh().rebirth_upgrades);
            assert(max_job_levels@ =~= RebirthStatsView::fresh().max_job_levels);
        }
        RebirthStats {
            class_tier: 0,
            coins: 0,
            rebirth_count: 0,
            max_job_levels,
            rebirth_upgrades,
            unlocks: Unlocks { has_military_tactics: false, has_meditation: false },
        }
    }

    /// Sets the unlock flags to what the purchased upgrades open up.
    pub fn refresh_unlocks(&mut self)
        requires
            old(self)@.wf(),
        ensures
            final(self)@ == (RebirthStatsView { unlocks: old(self)@.unlocked(), ..old(self)@ }),
    {
        self.unlocks = Unlocks {
            has_military_tactics:
                self.rebirth_upgrades[RebirthUpgradeTypes::MilitaryTactics.index()].is_purchased,
            has_meditation:
                self.rebirth_upgrades[RebirthUpgradeTypes::Meditation.index()].is_purchased,
        };
    }
}

} // verus!
