use crate::engine::intermediate_state::{Contribution, Gain, IntermediateState};
use crate::engine::value_keys::KeyValues;
use crate::game::Game;
use crate::input::housing::{HousingTypes, HOUSING_SIZE};
use crate::state::state_container::StateView;
use crate::table::{is_table, Slotted};
use crate::world_content::world::World;
use vstd::prelude::*;

verus! {

/// What the world says of a housing option. Amounts are in thousandths of a
/// unit.
#[derive(Clone, Copy, Debug)]
pub struct Housing {
    pub name: HousingTypes,
    /// What living there costs each tick.
    pub upkeep: i64,
    /// What living there adds to happiness each tick.
    pub happiness: i64,
    pub description: &'static str,
    pub display_name: &'static str,
    pub required_tier: u32,
}

impl Slotted for Housing {
    open spec fn slot(&self) -> nat {
        self.name.rank()
    }

    fn slot_index(&self) -> (i: usize) {
        self.name.index()
    }
}

impl Gain for Housing {
    open spec fn gains(&self) -> Seq<Contribution> {
        seq![Contribution::Base { key: KeyValues::Happiness, amount: self.happiness }]
    }

    fn gain(&self, intermediate: &mut IntermediateState) {
        intermediate.add_base(KeyValues::Happiness, self.happiness);
    }
}

/// The world's record of each housing option.
pub open spec fn housing_record(housing: HousingTypes) -> Housing {
    match housing {
        HousingTypes::StoneFloor => Housing {
            name: housing,
            upkeep: 0,
            happiness: 1_000,
            description: "Cold, hard and free",
            display_name: "Stone Floor",
            required_tier: 0,
        },
        HousingTypes::StrawBed => Housing {
            name: housing,
            upkeep: 300,
            happiness: 1_500,
            description: "It itches, but it is warm",
            display_name: "Straw Bed",
            required_tier: 0,
        },
        HousingTypes::Tent => Housing {
            name: housing,
            upkeep: 1_500,
            happiness: 2_500,
            description: "A roof, of sorts",
            display_name: "Tent",
            required_tier: 0,
        },
        HousingTypes::WoodenHut => Housing {
            name: housing,
            upkeep: 6_000,
            happiness: 4_000,
            description: "Four walls and a door",
            display_name: "Wooden Hut",
            required_tier: 1,
        },
        HousingTypes::TownHouse => Housing {
            name: housing,
            upkeep: 25_000,
            happiness: 8_000,
            description: "A street address at last",
            display_name: "Town House",
            required_tier: 2,
        },
    }
}

/// Looks a housing option up in the world's content.
pub fn translate_housing(housing: HousingTypes) -> (record: Housing)
    ensures
        record == housing_record(housing),
        record.name == housing,
        record.upkeep >= 0,
{
    match housing {
        HousingTypes::StoneFloor => Housing {
            name: housing,
            upkeep: 0,
            happiness: 1_000,
            description: "Cold, hard and free",
            display_name: "Stone Floor",
            required_tier: 0,
        },
        HousingTypes::StrawBed => Housing {
            name: housing,
            upkeep: 300,
            happiness: 1_500,
            description: "It itches, but it is warm",
            display_name: "Straw Bed",
            required_tier: 0,
        },
        HousingTypes::Tent => Housing {
            name: housing,
            upkeep: 1_500,
            happiness: 2_500,
            description: "A roof, of sorts",
            display_name: "Tent",
            required_tier: 0,
        },
        HousingTypes::WoodenHut => Housing {
            name: housing,
            upkeep: 6_000,
            happiness: 4_000,
            description: "Four walls and a door",
            display_name: "Wooden Hut",
            required_tier: 1,
        },
        HousingTypes::TownHouse => Housing {
            name: housing,
            upkeep: 25_000,
            happiness: 8_000,
            description: "A street address at last",
            display_name: "Town House",
            required_tier: 2,
        },
    }
}

/// The world's table of housing, one slot for each housing option in declaration order.
pub fn get_housing() -> (housing: Vec<Housing>)
    ensures
        is_table(housing@, HOUSING_SIZE as nat),
        forall|i: int|
            0 <= i < housing@.len() ==> #[trigger] housing@[i] == housing_record(housing@[i].name),
{
    let names = HousingTypes::all();
    let mut housing: Vec<Housing> = Vec::new();
    let mut i: usize = 0;
    while i < names.len()
        invariant
            i <= names@.len(),
            names@.len() == HOUSING_SIZE,
            forall|j: int| 0 <= j < names@.len() ==> (#[trigger] names@[j]).rank() == j,
            housing@.len() == i,
            forall|j: int| 0 <= j < i ==> (#[trigger] housing@[j]).name == names@[j],
            forall|j: int| 0 <= j < i ==> #[trigger] housing@[j] == housing_record(housing@[j].name),
        decreases names@.len() - i,
    {
        housing.push(translate_housing(names[i]));
        i = i + 1;
    }
    housing
}

/// Whether the state has earned the housing option: the tier is high enough
/// for it.
pub open spec fn housing_unlocked(housing: HousingTypes, world: World, state: StateView) -> bool {
    world.housing@[housing.rank() as int].required_tier <= state.rebirth_stats.class_tier
}

/// Whether the character has earned the housing option.
pub fn should_unlock_housing(input_housing: HousingTypes, game: &Game) -> (unlocked: bool)
    requires
        game.wf(),
    ensures
        unlocked == housing_unlocked(input_housing, game.world, game.state@),
{
    let housing = &game.world.housing[input_housing.index()];
    housing.required_tier <= game.state.rebirth_stats.class_tier
}

} // verus!
