use crate::input::boost_item::BOOST_ITEM_SIZE;
use crate::input::housing::HOUSING_SIZE;
use crate::input::rebirth_upgrade::{RebirthUpgradeTypes, REBIRTH_UPGRADE_SIZE};
use crate::input::skill::SKILL_SIZE;
use crate::input::tomb::TOMB_SIZE;
use crate::input::work::WORK_SIZE;
use crate::table::{check_table, is_table};
use crate::world_content::boost_item::{boost_item_record, get_boost_items, BoostItem};
use crate::world_content::housing::{get_housing, housing_record, Housing};
use crate::world_content::rebirth_upgrade::{
    get_rebirth_upgrades,
    rebirth_upgrade_record,
    RebirthUpgrade,
};
use crate::world_content::skill::{get_skills, skill_record, Skill};
use crate::world_content::tomb::{get_tombs, tomb_record, Tomb};
use crate::world_content::work::{get_works, work_record, Work};
use vstd::prelude::*;

verus! {

/// The static content of the game: one table for each family of entities.
/// It is built once and only read afterwards.
pub struct World {
    pub works: Vec<Work>,
    pub housing: Vec<Housing>,
    pub boost_items: Vec<BoostItem>,
    pub skills: Vec<Skill>,
    pub tombs: Vec<Tomb>,
    pub rebirth_upgrades: Vec<RebirthUpgrade>,
}

impl World {
    /// Every table holds one record for each name, in the name's slot, and
    /// nothing has a price or an upkeep below zero.
    pub open spec fn wf(&self) -> bool {
        &&& is_table(self.works@, WORK_SIZE as nat)
        &&& is_table(self.housing@, HOUSING_SIZE as nat)
        &&& is_table(self.boost_items@, BOOST_ITEM_SIZE as nat)
        &&& is_table(self.skills@, SKILL_SIZE as nat)
        &&& is_table(self.tombs@, TOMB_SIZE as nat)
        &&& is_table(self.rebirth_upgrades@, REBIRTH_UPGRADE_SIZE as nat)
        &&& forall|i: int|
            0 <= i < self.housing@.len() ==> (#[trigger] self.housing@[i]).upkeep >= 0
        &&& forall|i: int|
            0 <= i < self.boost_items@.len() ==> (#[trigger] self.boost_items@[i]).purchasing_cost
                >= 0
        &&& forall|i: int|
            0 <= i < self.tombs@.len() ==> (#[trigger] self.tombs@[i]).purchasing_cost >= 0
    }

    /// Whether every record is the one that the content of this library
    /// gives its name.
    pub open spec fn is_standard(&self) -> bool {
        &&& forall|i: int|
            0 <= i < self.works@.len() ==> #[trigger] self.works@[i] == work_record(
                self.works@[i].name,
            )
        &&& forall|i: int|
            0 <= i < self.housing@.len() ==> #[trigger] self.housing@[i] == housing_record(
                self.housing@[i].name,
            )
        &&& forall|i: int|
            0 <= i < self.boost_items@.len() ==> #[trigger] self.boost_items@[i]
                == boost_item_record(self.boost_items@[i].name)
        &&& forall|i: int|
            0 <= i < self.skills@.len() ==> #[trigger] self.skills@[i] == skill_record(
                self.skills@[i].name,
            )
        &&& forall|i: int|
            0 <= i < self.tombs@.len() ==> #[trigger] self.tombs@[i] == tomb_record(
                self.tombs@[i].name,
            )
        &&& forall|i: int|
            0 <= i < self.rebirth_upgrades@.len() ==> #[trigger] self.rebirth_upgrades@[i]
                == rebirth_upgrade_record(self.rebirth_upgrades@[i].name)
    }

    /// Whether the world is well formed, for a world that was not built by
    /// `new`.
    pub fn check(&self) -> (ok: bool)
        ensures
            ok == self.wf(),
    {
        if !(check_table(&self.works, WORK_SIZE) && check_table(&self.housing, HOUSING_SIZE)
            && check_table(&self.boost_items, BOOST_ITEM_SIZE) && check_table(
            &self.skills,
            SKILL_SIZE,
        ) && check_table(&self.tombs, TOMB_SIZE) && check_table(
            &self.rebirth_upgrades,
            REBIRTH_UPGRADE_SIZE,
        )) {
            return false;
        }
        let mut i: usize = 0;
        while i < self.housing.len()
            invariant
                i <= self.housing@.len(),
                forall|j: int| 0 <= j < i ==> (#[trigger] self.housing@[j]).upkeep >= 0,
            decreases self.housing@.len() - i,
        {
            if self.housing[i].upkeep < 0 {
                return false;
            }
            i = i + 1;
        }
        let mut i: usize = 0;
        while i < self.boost_items.len()
            invariant
                i <= self.boost_items@.len(),
                forall|j: int|
                    0 <= j < i ==> (#[trigger] self.boost_items@[j]).purchasing_cost >= 0,
            decreases self.boost_items@.len() - i,
        {
            if self.boost_items[i].purchasing_cost < 0 {
                return false;
            }
            i = i + 1;
        }
        let mut i: usize = 0;
        while i < self.tombs.len()
            invariant
                i <= self.tombs@.len(),
                forall|j: int| 0 <= j < i ==> (#[trigger] self.tombs@[j]).purchasing_cost >= 0,
            decreases self.tombs@.len() - i,
        {
            if self.tombs[i].purchasing_cost < 0 {
                return false;
            }
            i = i + 1;
        }
        true
    }

    /// The world with the content of this library.
    pub fn new() -> (world: World)
        ensures
            world.wf(),
            world.is_standard(),
    {
        World {
            works: get_works(),
            housing: get_housing(),
            boost_items: get_boost_items(),
            skills: get_skills(),
            tombs: get_tombs(),
            rebirth_upgrades: get_rebirth_upgrades(),
        }
    }

    /// The world's record of a permanent upgrade.
    pub fn get_rebirth_upgrade(&self, upgrade: RebirthUpgradeTypes) -> (record: &RebirthUpgrade)
        requires
            self.wf(),
        ensures
            *record == self.rebirth_upgrades@[upgrade.rank() as int],
            record.name == upgrade,
    {
        &self.rebirth_upgrades[upgrade.index()]
    }
}

} // verus!
