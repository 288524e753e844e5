use crate::engine::intermediate_state::{Contribution, Factor, Gain, IntermediateState};
use crate::engine::value_keys::KeyValues;
use crate::game::Game;
use crate::input::boost_item::{BoostItemTypes, BOOST_ITEM_SIZE};
use crate::input::work::WorkTypes;
use crate::state::state_container::StateView;
use crate::table::{is_table, Slotted};
use crate::world_content::world::World;
use vstd::prelude::*;

verus! {

/// What the world says of a purchasable item. Amounts are in thousandths of
/// a unit.
#[derive(Clone, Copy, Debug)]
pub struct BoostItem {
    pub name: BoostItemTypes,
    pub purchasing_cost: i64,
    pub description: &'static str,
    pub display_name: &'static str,
    pub required_tier: u32,
}

impl Slotted for BoostItem {
    open spec fn slot(&self) -> nat {
        self.name.rank()
    }

    fn slot_index(&self) -> (i: usize) {
        self.name.index()
    }
}

/// The one effect that each item has while it is owned.
pub open spec fn boost_item_effect(item_type: BoostItemTypes) -> Contribution {
    match item_type {
        BoostItemTypes::Book => Contribution::Multiplier {
            key: KeyValues::Int,
            factor: Factor::ratio(3, 2),
            label: "Book",
        },
        BoostItemTypes::Dumbell => Contribution::Multiplier {
            key: KeyValues::Str,
            factor: Factor::ratio(3, 2),
            label: "Dumbell",
        },
        BoostItemTypes::RaggedClothes => Contribution::Multiplier {
            key: KeyValues::Happiness,
            factor: Factor::ratio(3, 2),
            label: "Ragged Clothes",
        },
        BoostItemTypes::IronPickAxe => Contribution::Multiplier {
            key: KeyValues::Mines,
            factor: Factor::ratio(2, 1),
            label: "Mines",
        },
        BoostItemTypes::Book2 => Contribution::Multiplier {
            key: KeyValues::Int,
            factor: Factor::ratio(2, 1),
            label: "Book",
        },
        BoostItemTypes::Dumbell2 => Contribution::Multiplier {
            key: KeyValues::Str,
            factor: Factor::ratio(2, 1),
            label: "Dumbell",
        },
        BoostItemTypes::FarmersClothes => Contribution::Multiplier {
            key: KeyValues::Happiness,
            factor: Factor::ratio(3, 2),
            label: "Farmers Clothes",
        },
        BoostItemTypes::Book3 => Contribution::Multiplier {
            key: KeyValues::Int,
            factor: Factor::ratio(2, 1),
            label: "Book",
        },
        BoostItemTypes::Dumbell3 => Contribution::Multiplier {
            key: KeyValues::Str,
            factor: Factor::ratio(2, 1),
            label: "Dumbell",
        },
        BoostItemTypes::FishingGear => Contribution::Multiplier {
            key: KeyValues::Fisherman,
            factor: Factor::ratio(2, 1),
            label: "Fishing Gear",
        },
        BoostItemTypes::CityClothes => Contribution::Multiplier {
            key: KeyValues::Happiness,
            factor: Factor::ratio(3, 2),
            label: "City Clothes",
        },
        BoostItemTypes::Leach => Contribution::Base { key: KeyValues::Health, amount: 1_000 },
        BoostItemTypes::PitchFork => Contribution::Multiplier {
            key: KeyValues::Farmer,
            factor: Factor::ratio(2, 1),
            label: "PitchFork",
        },
        BoostItemTypes::HealthKit => Contribution::Base { key: KeyValues::Health, amount: 2_000 },
    }
}

impl Gain for BoostItem {
    open spec fn gains(&self) -> Seq<Contribution> {
        seq![boost_item_effect(self.name)]
    }

    fn gain(&self, intermediate: &mut IntermediateState) {
        match self.name {
            BoostItemTypes::Book => {
                intermediate.add_multiplier(KeyValues::Int, Factor::new(3, 2), "Book");
            },
            BoostItemTypes::Dumbell => {
                intermediate.add_multiplier(KeyValues::Str, Factor::new(3, 2), "Dumbell");
            },
            BoostItemTypes::RaggedClothes => {
                intermediate.add_multiplier(KeyValues::Happiness, Factor::new(3, 2), "Ragged Clothes");
            },
            BoostItemTypes::IronPickAxe => {
                intermediate.add_multiplier(KeyValues::Mines, Factor::new(2, 1), "Mines");
            },
            BoostItemTypes::Book2 => {
                intermediate.add_multiplier(KeyValues::Int, Factor::new(2, 1), "Book");
            },
            BoostItemTypes::Dumbell2 => {
                intermediate.add_multiplier(KeyValues::Str, Factor::new(2, 1), "Dumbell");
            },
            BoostItemTypes::FarmersClothes => {
                intermediate.add_multiplier(KeyValues::Happiness, Factor::new(3, 2), "Farmers Clothes");
            },
            BoostItemTypes::Book3 => {
                intermediate.add_multiplier(KeyValues::Int, Factor::new(2, 1), "Book");
            },
            BoostItemTypes::Dumbell3 => {
                intermediate.add_multiplier(KeyValues::Str, Factor::new(2, 1), "Dumbell");
            },
            BoostItemTypes::FishingGear => {
                intermediate.add_multiplier(KeyValues::Fisherman, Factor::new(2, 1), "Fishing Gear");
            },
            BoostItemTypes::CityClothes => {
                intermediate.add_multiplier(KeyValues::Happiness, Factor::new(3, 2), "City Clothes");
            },
            BoostItemTypes::Leach => {
                intermediate.add_base(KeyValues::Health, 1_000);
            },
            BoostItemTypes::PitchFork => {
                intermediate.add_multiplier(KeyValues::Farmer, Factor::new(2, 1), "PitchFork");
            },
            BoostItemTypes::HealthKit => {
                intermediate.add_base(KeyValues::Health, 2_000);
            },
        }
    }
}

/// The world's record of each item.
pub open spec fn boost_item_record(item_type: BoostItemTypes) -> BoostItem {
    match item_type {
        BoostItemTypes::Book => BoostItem {
            name: item_type,
            purchasing_cost: 100_000,
            description: "Me dumb? That's unpossible",
            display_name: "Learning to read",
            required_tier: 0,
        },
        BoostItemTypes::Dumbell => BoostItem {
            name: item_type,
            purchasing_cost: 1_000_000,
            description: "It's just a stick",
            display_name: "Wooden Dumbell",
            required_tier: 0,
        },
        BoostItemTypes::RaggedClothes => BoostItem {
            name: item_type,
            purchasing_cost: 1_000_000,
            description: "You now actually have something to wear",
            display_name: "Ragged Clothes",
            required_tier: 0,
        },
        BoostItemTypes::IronPickAxe => BoostItem {
            name: item_type,
            purchasing_cost: 1_000_000,
            description: "Mining now goes faster",
            display_name: "Iron Pickaxe",
            required_tier: 0,
        },
        BoostItemTypes::Book2 => BoostItem {
            name: item_type,
            purchasing_cost: 4_000_000,
            description: "Very expensive for a childrens book",
            display_name: "Reading for children",
            required_tier: 0,
        },
        BoostItemTypes::Dumbell2 => BoostItem {
            name: item_type,
            purchasing_cost: 6_000_000,
            description: "Couldn't I just use a normal stone?",
            display_name: "Stone dumbell",
            required_tier: 0,
        },
        BoostItemTypes::FarmersClothes => BoostItem {
            name: item_type,
            purchasing_cost: 15_000_000,
            description: "Ragged but sturdy",
            display_name: "Farmers Clothes",
            required_tier: 0,
        },
        BoostItemTypes::Book3 => BoostItem {
            name: item_type,
            purchasing_cost: 16_000_000,
            description: "The book makes you feel really really smart",
            display_name: "Dunner Kruger's peak",
            required_tier: 1,
        },
        BoostItemTypes::Dumbell3 => BoostItem {
            name: item_type,
            purchasing_cost: 16_000_000,
            description: "Cowbell, Kettlebell, what's the difference anyway",
            display_name: "Kettlebell",
            required_tier: 1,
        },
        BoostItemTypes::FishingGear => BoostItem {
            name: item_type,
            purchasing_cost: 16_000_000,
            description: "The salesman for this got you hook, line and sinker",
            display_name: "Fishing Gear",
            required_tier: 1,
        },
        BoostItemTypes::CityClothes => BoostItem {
            name: item_type,
            purchasing_cost: 40_000_000,
            description: "You fit into the city the less nice parts that is",
            display_name: "City Clothes",
            required_tier: 1,
        },
        BoostItemTypes::Leach => BoostItem {
            name: item_type,
            purchasing_cost: 400_000_000,
            description: "Blood sucking bug, how is this healthy?",
            display_name: "Blood Leach",
            required_tier: 2,
        },
        BoostItemTypes::PitchFork => BoostItem {
            name: item_type,
            purchasing_cost: 800_000_000,
            description: "Blood sucking bug, how is this healthy?",
            display_name: "Pitchfork",
            required_tier: 2,
        },
        BoostItemTypes::HealthKit => BoostItem {
            name: item_type,
            purchasing_cost: 4_000_000_000,
            description: "What is this fancy box of cloth",
            display_name: "Healthkit",
            required_tier: 3,
        },
    }
}

/// Looks an item up in the world's content.
pub fn translate_boost_item(item_type: BoostItemTypes) -> (record: BoostItem)
    ensures
        record == boost_item_record(item_type),
        record.name == item_type,
        record.purchasing_cost > 0,
{
    match item_type {
        BoostItemTypes::Book => BoostItem {
            name: item_type,
            purchasing_cost: 100_000,
            description: "Me dumb? That's unpossible",
            display_name: "Learning to read",
            required_tier: 0,
        },
        BoostItemTypes::Dumbell => BoostItem {
            name: item_type,
            purchasing_cost: 1_000_000,
            description: "It's just a stick",
            display_name: "Wooden Dumbell",
            required_tier: 0,
        },
        BoostItemTypes::RaggedClothes => BoostItem {
            name: item_type,
            purchasing_cost: 1_000_000,
            description: "You now actually have something to wear",
            display_name: "Ragged Clothes",
            required_tier: 0,
        },
        BoostItemTypes::IronPickAxe => BoostItem {
            name: item_type,
            purchasing_cost: 1_000_000,
            description: "Mining now goes faster",
            display_name: "Iron Pickaxe",
            required_tier: 0,
        },
        BoostItemTypes::Book2 => BoostItem {
            name: item_type,
            purchasing_cost: 4_000_000,
            description: "Very expensive for a childrens book",
            display_name: "Reading for children",
            required_tier: 0,
        },
        BoostItemTypes::Dumbell2 => BoostItem {
            name: item_type,
            purchasing_cost: 6_000_000,
            description: "Couldn't I just use a normal stone?",
            display_name: "Stone dumbell",
            required_tier: 0,
        },
        BoostItemTypes::FarmersClothes => BoostItem {
            name: item_type,
            purchasing_cost: 15_000_000,
            description: "Ragged but sturdy",
            display_name: "Farmers Clothes",
            required_tier: 0,
        },
        BoostItemTypes::Book3 => BoostItem {
            name: item_type,
            purchasing_cost: 16_000_000,
            description: "The book makes you feel really really smart",
            display_name: "Dunner Kruger's peak",
            required_tier: 1,
        },
        BoostItemTypes::Dumbell3 => BoostItem {
            name: item_type,
            purchasing_cost: 16_000_000,
            description: "Cowbell, Kettlebell, what's the difference anyway",
            display_name: "Kettlebell",
            required_tier: 1,
        },
        BoostItemTypes::FishingGear => BoostItem {
            name: item_type,
            purchasing_cost: 16_000_000,
            description: "The salesman for this got you hook, line and sinker",
            display_name: "Fishing Gear",
            required_tier: 1,
        },
        BoostItemTypes::CityClothes => BoostItem {
            name: item_type,
            purchasing_cost: 40_000_000,
            description: "You fit into the city the less nice parts that is",
            display_name: "City Clothes",
            required_tier: 1,
        },
        BoostItemTypes::Leach => BoostItem {
            name: item_type,
            purchasing_cost: 400_000_000,
            description: "Blood sucking bug, how is this healthy?",
            display_name: "Blood Leach",
            required_tier: 2,
        },
        BoostItemTypes::PitchFork => BoostItem {
            name: item_type,
            purchasing_cost: 800_000_000,
            description: "Blood sucking bug, how is this healthy?",
            display_name: "Pitchfork",
            required_tier: 2,
        },
        BoostItemTypes::HealthKit => BoostItem {
            name: item_type,
            purchasing_cost: 4_000_000_000,
            description: "What is this fancy box of cloth",
            display_name: "Healthkit",
            required_tier: 3,
        },
    }
}

/// The world's table of items, one slot for each item in declaration order.
pub fn get_boost_items() -> (items: Vec<BoostItem>)
    ensures
        is_table(items@, BOOST_ITEM_SIZE as nat),
        forall|i: int|
            0 <= i < items@.len() ==> #[trigger] items@[i] == boost_item_record(items@[i].name),
{
    let names = BoostItemTypes::all();
    let mut items: Vec<BoostItem> = Vec::new();
    let mut i: usize = 0;
    while i < names.len()
        invariant
            i <= names@.len(),
            names@.len() == BOOST_ITEM_SIZE,
            forall|j: int| 0 <= j < names@.len() ==> (#[trigger] names@[j]).rank() == j,
            items@.len() == i,
            forall|j: int| 0 <= j < i ==> (#[trigger] items@[j]).name == names@[j],
            forall|j: int| 0 <= j < i ==> #[trigger] items@[j] == boost_item_record(items@[j].name),
        decreases names@.len() - i,
    {
        items.push(translate_boost_item(names[i]));
        i = i + 1;
    }
    items
}

/// The level of the mines above which the pickaxe is put on offer.
pub const PICKAXE_LEVEL: u32 = 25;

/// Whether the state has earned the item: the tier is high enough for it.
pub open spec fn boost_item_unlocked(item: BoostItemTypes, world: World, state: StateView) -> bool {
    world.boost_items@[item.rank() as int].required_tier <= state.rebirth_stats.class_tier
}

/// Whether the item is on offer: the tier is high enough for it, and for
/// three items something more: the pickaxe waits for a miner of some
/// level, and each better set of clothes for the purchase of the set before.
pub open spec fn boost_item_visible(item: BoostItemTypes, world: World, state: StateView) -> bool {
    &&& world.boost_items@[item.rank() as int].required_tier <= state.rebirth_stats.class_tier
    &&& match item {
        BoostItemTypes::IronPickAxe => state.works[WorkTypes::Mines.rank() as int].level
            > PICKAXE_LEVEL,
        BoostItemTypes::FarmersClothes => state.items.boost_items[BoostItemTypes::RaggedClothes.rank() as int]
            .is_purchased,
        BoostItemTypes::CityClothes => state.items.boost_items[BoostItemTypes::FarmersClothes.rank() as int]
            .is_purchased,
        _ => true,
    }
}

/// Whether the character has earned the item.
pub fn should_unlock_boost_item(input_boost_item: BoostItemTypes, game: &Game) -> (unlocked: bool)
    requires
        game.wf(),
    ensures
        unlocked == boost_item_unlocked(input_boost_item, game.world, game.state@),
{
    let boost_item = &game.world.boost_items[input_boost_item.index()];
    if boost_item.required_tier > game.state.rebirth_stats.class_tier {
        return false;
    }
    true
}

/// Whether the item is on offer to the player.
pub fn should_be_visible_boost_item(input_boost_item: BoostItemTypes, game: &Game) -> (visible:
    bool)
    requires
        game.wf(),
    ensures
        visible == boost_item_visible(input_boost_item, game.world, game.state@),
{
    let boost_item = &game.world.boost_items[input_boost_item.index()];
    if boost_item.required_tier > game.state.rebirth_stats.class_tier {
        return false;
    }
    match input_boost_item {
        BoostItemTypes::IronPickAxe => game.state.works[WorkTypes::Mines.index()].level
            > PICKAXE_LEVEL,
        BoostItemTypes::FarmersClothes => {
            game.state.items.boost_items[BoostItemTypes::RaggedClothes.index()].is_purchased
        },
        BoostItemTypes::CityClothes => {
            game.state.items.boost_items[BoostItemTypes::FarmersClothes.index()].is_purchased
        },
        _ => true,
    }
}

} // verus!
