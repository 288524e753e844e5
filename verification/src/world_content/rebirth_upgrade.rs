use crate::engine::intermediate_state::{Contribution, Factor, Gain, IntermediateState};
use crate::engine::value_keys::KeyValues;
use crate::input::rebirth_upgrade::{RebirthUpgradeTypes, REBIRTH_UPGRADE_SIZE};
use crate::table::{is_table, Slotted};
use vstd::prelude::*;

verus! {

/// What the world says of a permanent upgrade. The cost is in thousandths of
/// a coin.
#[derive(Clone, Copy, Debug)]
pub struct RebirthUpgrade {
    pub name: RebirthUpgradeTypes,
    pub purchasing_cost: i64,
    pub description: &'static str,
    pub display_name: &'static str,
    pub required_tier: u32,
}

impl Slotted for RebirthUpgrade {
    open spec fn slot(&self) -> nat {
        self.name.rank()
    }

    fn slot_index(&self) -> (i: usize) {
        self.name.index()
    }
}

/// What each upgrade does in every tick of every life after its purchase.
/// Two of them only open a skill and have no effect of their own.
pub open spec fn rebirth_upgrade_effects(upgrade: RebirthUpgradeTypes) -> Seq<Contribution> {
    match upgrade {
        RebirthUpgradeTypes::AcceptingDeath => seq![
            Contribution::Multiplier {
                key: KeyValues::Coins,
                factor: Factor::ratio(2, 1),
                label: "Accepting Death",
            },
        ],
        RebirthUpgradeTypes::QuickLearner => seq![
            Contribution::Multiplier {
                key: KeyValues::Int,
                factor: Factor::ratio(3, 2),
                label: "Quick Learner",
            },
        ],
        RebirthUpgradeTypes::Inheritance => seq![
            Contribution::Base { key: KeyValues::Money, amount: 1_000 },
        ],
        RebirthUpgradeTypes::Meditation | RebirthUpgradeTypes::MilitaryTactics => Seq::empty(),
    }
}

impl Gain for RebirthUpgrade {
    open spec fn gains(&self) -> Seq<Contribution> {
        rebirth_upgrade_effects(self.name)
    }

    fn gain(&self, intermediate: &mut IntermediateState) {
        match self.name {
            RebirthUpgradeTypes::AcceptingDeath => {
                intermediate.add_multiplier(KeyValues::Coins, Factor::new(2, 1), "Accepting Death");
            },
            RebirthUpgradeTypes::QuickLearner => {
                intermediate.add_multiplier(KeyValues::Int, Factor::new(3, 2), "Quick Learner");
            },
            RebirthUpgradeTypes::Inheritance => {
                intermediate.add_base(KeyValues::Money, 1_000);
            },
            RebirthUpgradeTypes::Meditation | RebirthUpgradeTypes::MilitaryTactics => (),
        }
    }
}

/// The world's record of each upgrade.
pub open spec fn rebirth_upgrade_record(upgrade: RebirthUpgradeTypes) -> RebirthUpgrade {
    match upgrade {
        RebirthUpgradeTypes::AcceptingDeath => RebirthUpgrade {
            name: upgrade,
            purchasing_cost: 1_000,
            description: "Death is only a door",
            display_name: "Accepting Death",
            required_tier: 0,
        },
        RebirthUpgradeTypes::QuickLearner => RebirthUpgrade {
            name: upgrade,
            purchasing_cost: 4_000,
            description: "You have read this book before",
            display_name: "Quick Learner",
            required_tier: 1,
        },
        RebirthUpgradeTypes::Meditation => RebirthUpgrade {
            name: upgrade,
            purchasing_cost: 8_000,
            description: "Sit still, for once",
            display_name: "Meditation",
            required_tier: 1,
        },
        RebirthUpgradeTypes::Inheritance => RebirthUpgrade {
            name: upgrade,
            purchasing_cost: 20_000,
            description: "Someone left you a little something",
            display_name: "Inheritance",
            required_tier: 2,
        },
        RebirthUpgradeTypes::MilitaryTactics => RebirthUpgrade {
            name: upgrade,
            purchasing_cost: 40_000,
            description: "You remember how the last battle went",
            display_name: "Military Tactics",
            required_tier: 3,
        },
    }
}

/// Looks an upgrade up in the world's content.
pub fn translate_rebirth_upgrade(upgrade: RebirthUpgradeTypes) -> (record: RebirthUpgrade)
    ensures
        record == rebirth_upgrade_record(upgrade),
        record.name == upgrade,
        record.purchasing_cost > 0,
        record.required_tier < 99,
{
    match upgrade {
        RebirthUpgradeTypes::AcceptingDeath => RebirthUpgrade {
            name: upgrade,
            purchasing_cost: 1_000,
            description: "Death is only a door",
            display_name: "Accepting Death",
            required_tier: 0,
        },
        RebirthUpgradeTypes::QuickLearner => RebirthUpgrade {
            name: upgrade,
            purchasing_cost: 4_000,
            description: "You have read this book before",
            display_name: "Quick Learner",
            required_tier: 1,
        },
        RebirthUpgradeTypes::Meditation => RebirthUpgrade {
            name: upgrade,
            purchasing_cost: 8_000,
            description: "Sit still, for once",
            display_name: "Meditation",
            required_tier: 1,
        },
        RebirthUpgradeTypes::Inheritance => RebirthUpgrade {
            name: upgrade,
            purchasing_cost: 20_000,
            description: "Someone left you a little something",
            display_name: "Inheritance",
            required_tier: 2,
        },
        RebirthUpgradeTypes::MilitaryTactics => RebirthUpgrade {
            name: upgrade,
            purchasing_cost: 40_000,
            description: "You remember how the last battle went",
            display_name: "Military Tactics",
            required_tier: 3,
        },
    }
}

/// The world's table of upgrades, one slot for each upgrade in declaration order.
pub fn get_rebirth_upgrades() -> (upgrades: Vec<RebirthUpgrade>)
    ensures
        is_table(upgrades@, REBIRTH_UPGRADE_SIZE as nat),
        forall|i: int|
            0 <= i < upgrades@.len() ==> #[trigger] upgrades@[i] == rebirth_upgrade_record(upgrades@[i].name),
{
    let names = RebirthUpgradeTypes::all();
    let mut upgrades: Vec<RebirthUpgrade> = Vec::new();
    let mut i: usize = 0;
    while i < names.len()
        invariant
            i <= names@.len(),
            names@.len() == REBIRTH_UPGRADE_SIZE,
            forall|j: int| 0 <= j < names@.len() ==> (#[trigger] names@[j]).rank() == j,
            upgrades@.len() == i,
            forall|j: int| 0 <= j < i ==> (#[trigger] upgrades@[j]).name == names@[j],
            forall|j: int| 0 <= j < i ==> #[trigger] upgrades@[j] == rebirth_upgrade_record(upgrades@[j].name),
        decreases names@.len() - i,
    {
        upgrades.push(translate_rebirth_upgrade(names[i]));
        i = i + 1;
    }
    upgrades
}

} // verus!
