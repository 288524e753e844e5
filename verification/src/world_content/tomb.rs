use crate::engine::intermediate_state::{Contribution, Gain, IntermediateState};
use crate::engine::value_keys::KeyValues;
use crate::game::Game;
use crate::input::tomb::{TombTypes, TOMB_SIZE};
use crate::state::state_container::StateView;
use crate::table::{is_table, Slotted};
use crate::world_content::world::World;
use vstd::prelude::*;

verus! {

/// What the world says of a tomb. Amounts are in thousandths of a unit.
#[derive(Clone, Copy, Debug)]
pub struct Tomb {
    pub name: TombTypes,
    pub purchasing_cost: i64,
    /// The coins that an owned tomb earns each tick.
    pub coins: i64,
    pub description: &'static str,
    pub display_name: &'static str,
    pub required_tier: u32,
}

impl Slotted for Tomb {
    open spec fn slot(&self) -> nat {
        self.name.rank()
    }

    fn slot_index(&self) -> (i: usize) {
        self.name.index()
    }
}

impl Gain for Tomb {
    open spec fn gains(&self) -> Seq<Contribution> {
        seq![Contribution::Base { key: KeyValues::Coins, amount: self.coins }]
    }

    fn gain(&self, intermediate: &mut IntermediateState) {
        intermediate.add_base(KeyValues::Coins, self.coins);
    }
}

/// The world's record of each tomb.
pub open spec fn tomb_record(tomb: TombTypes) -> Tomb {
    match tomb {
        TombTypes::ShallowGrave => Tomb {
            name: tomb,
            purchasing_cost: 10_000_000,
            coins: 1,
            description: "A hole, and someone to fill it",
            display_name: "Shallow Grave",
            required_tier: 0,
        },
        TombTypes::Coffin => Tomb {
            name: tomb,
            purchasing_cost: 100_000_000,
            coins: 3,
            description: "Six planks and some nails",
            display_name: "Coffin",
            required_tier: 1,
        },
        TombTypes::Tombstone => Tomb {
            name: tomb,
            purchasing_cost: 1_000_000_000,
            coins: 10,
            description: "Your name, spelled almost right",
            display_name: "Tombstone",
            required_tier: 2,
        },
        TombTypes::Crypt => Tomb {
            name: tomb,
            purchasing_cost: 10_000_000_000,
            coins: 40,
            description: "Room for the whole family",
            display_name: "Crypt",
            required_tier: 3,
        },
    }
}

/// Looks a tomb up in the world's content.
pub fn translate_tomb(tomb: TombTypes) -> (record: Tomb)
    ensures
        record == tomb_record(tomb),
        record.name == tomb,
        record.purchasing_cost > 0,
{
    match tomb {
        TombTypes::ShallowGrave => Tomb {
            name: tomb,
            purchasing_cost: 10_000_000,
            coins: 1,
            description: "A hole, and someone to fill it",
            display_name: "Shallow Grave",
            required_tier: 0,
        },
        TombTypes::Coffin => Tomb {
            name: tomb,
            purchasing_cost: 100_000_000,
            coins: 3,
            description: "Six planks and some nails",
            display_name: "Coffin",
            required_tier: 1,
        },
        TombTypes::Tombstone => Tomb {
            name: tomb,
            purchasing_cost: 1_000_000_000,
            coins: 10,
            description: "Your name, spelled almost right",
            display_name: "Tombstone",
            required_tier: 2,
        },
        TombTypes::Crypt => Tomb {
            name: tomb,
            purchasing_cost: 10_000_000_000,
            coins: 40,
            description: "Room for the whole family",
            display_name: "Crypt",
            required_tier: 3,
        },
    }
}

/// The world's table of tombs, one slot for each tomb in declaration order.
pub fn get_tombs() -> (tombs: Vec<Tomb>)
    ensures
        is_table(tombs@, TOMB_SIZE as nat),
        forall|i: int|
            0 <= i < tombs@.len() ==> #[trigger] tombs@[i] == tomb_record(tombs@[i].name),
{
    let names = TombTypes::all();
    let mut tombs: Vec<Tomb> = Vec::new();
    let mut i: usize = 0;
    while i < names.len()
        invariant
            i <= names@.len(),
            names@.len() == TOMB_SIZE,
            forall|j: int| 0 <= j < names@.len() ==> (#[trigger] names@[j]).rank() == j,
            tombs@.len() == i,
            forall|j: int| 0 <= j < i ==> (#[trigger] tombs@[j]).name == names@[j],
            forall|j: int| 0 <= j < i ==> #[trigger] tombs@[j] == tomb_record(tombs@[j].name),
        decreases names@.len() - i,
    {
        tombs.push(translate_tomb(names[i]));
        i = i + 1;
    }
    tombs
}

/// Whether the tomb is on offer: the tier is high enough for it.
pub open spec fn tomb_visible(tomb: TombTypes, world: World, state: StateView) -> bool {
    world.tombs@[tomb.rank() as int].required_tier <= state.rebirth_stats.class_tier
}

/// Whether the tomb is on offer to the player.
pub fn should_be_visible_tomb(input_tomb: TombTypes, game: &Game) -> (visible: bool)
    requires
        game.wf(),
    ensures
        visible == tomb_visible(input_tomb, game.world, game.state@),
{
    let tomb = &game.world.tombs[input_tomb.index()];
    tomb.required_tier <= game.state.rebirth_stats.class_tier
}

} // verus!
