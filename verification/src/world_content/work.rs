use crate::engine::intermediate_state::{Contribution, Gain, IntermediateState};
use crate::engine::value_keys::KeyValues;
use crate::game::Game;
use crate::input::stat::StatTypes;
use crate::input::work::{WorkTypes, WORK_SIZE};
use crate::state::state_container::StateView;
use crate::table::{is_table, Slotted};
use crate::world_content::world::World;
use vstd::prelude::*;

verus! {

/// The two careers. Automation never moves a character from one to the other.
#[derive(Clone, Copy, Debug, PartialEq, Eq, Structural, Hash)]
pub enum WorkCategories {
    Labor,
    Soldier,
}

/// What the world says of a job. Amounts are in thousandths of a unit.
#[derive(Clone, Copy, Debug)]
pub struct Work {
    pub name: WorkTypes,
    /// The pay of one tick.
    pub money: i64,
    pub description: &'static str,
    pub display_name: &'static str,
    pub required_tier: u32,
    /// The stat that the job trains.
    pub main_stat: StatTypes,
    pub work_type: WorkCategories,
}

impl Slotted for Work {
    open spec fn slot(&self) -> nat {
        self.name.rank()
    }

    fn slot_index(&self) -> (i: usize) {
        self.name.index()
    }
}

/// What a tick of the job does to health, in thousandths of a unit.
pub open spec fn work_health(work: WorkTypes) -> int {
    match work {
        WorkTypes::Mines => -5_000,
        WorkTypes::Latrine => -4_000,
        WorkTypes::GalleyRower => -3_000,
        WorkTypes::Fields => -2_000,
        WorkTypes::Mill => -1_000,
        _ => 0,
    }
}

impl Gain for Work {
    /// The five hardest jobs wear health down; the others leave it alone.
    open spec fn gains(&self) -> Seq<Contribution> {
        if work_health(self.name) != 0 {
            seq![
                Contribution::Base { key: KeyValues::Health, amount: work_health(self.name) as i64 },
            ]
        } else {
            Seq::empty()
        }
    }

    fn gain(&self, intermediate: &mut IntermediateState) {
        match self.name {
            WorkTypes::Mines => {
                intermediate.add_base(KeyValues::Health, -5_000);
            },
            WorkTypes::Latrine => {
                intermediate.add_base(KeyValues::Health, -4_000);
            },
            WorkTypes::GalleyRower => {
                intermediate.add_base(KeyValues::Health, -3_000);
            },
            WorkTypes::Fields => {
                intermediate.add_base(KeyValues::Health, -2_000);
            },
            WorkTypes::Mill => {
                intermediate.add_base(KeyValues::Health, -1_000);
            },
            _ => (),
        }
    }
}

/// The world's record of each job.
pub open spec fn work_record(work: WorkTypes) -> Work {
    match work {
        WorkTypes::Mines => Work {
            name: work,
            money: 500,
            description: "Hard labor that kills you",
            display_name: "The Mines",
            required_tier: 0,
            main_stat: StatTypes::Con,
            work_type: WorkCategories::Labor,
        },
        WorkTypes::Latrine => Work {
            name: work,
            money: 1_000,
            description: "A shitty job",
            display_name: "Latrine Duty",
            required_tier: 0,
            main_stat: StatTypes::Con,
            work_type: WorkCategories::Labor,
        },
        WorkTypes::GalleyRower => Work {
            name: work,
            money: 2_500,
            description: "Row row row your boat",
            display_name: "Gallery Rower",
            required_tier: 0,
            main_stat: StatTypes::Con,
            work_type: WorkCategories::Labor,
        },
        WorkTypes::Fields => Work {
            name: work,
            money: 5_000,
            description: "You ain't picking flowers",
            display_name: "Field Work",
            required_tier: 0,
            main_stat: StatTypes::Con,
            work_type: WorkCategories::Labor,
        },
        WorkTypes::Mill => Work {
            name: work,
            money: 9_000,
            description: "Hard labor",
            display_name: "Mill Worker",
            required_tier: 0,
            main_stat: StatTypes::Con,
            work_type: WorkCategories::Labor,
        },
        WorkTypes::Weaver => Work {
            name: work,
            money: 14_000,
            description: "Real work",
            display_name: "Weaver",
            required_tier: 1,
            main_stat: StatTypes::Con,
            work_type: WorkCategories::Labor,
        },
        WorkTypes::Fisherman => Work {
            name: work,
            money: 20_000,
            description: "A man of the sea",
            display_name: "Fisherman",
            required_tier: 1,
            main_stat: StatTypes::Con,
            work_type: WorkCategories::Labor,
        },
        WorkTypes::Farmer => Work {
            name: work,
            money: 40_000,
            description: "Hard labor for a free man",
            display_name: "Farmer",
            required_tier: 2,
            main_stat: StatTypes::Con,
            work_type: WorkCategories::Labor,
        },
        WorkTypes::BagageBoy => Work {
            name: work,
            money: 10_000,
            description: "Carrying what the army needs",
            display_name: "Bagage Boy",
            required_tier: 3,
            main_stat: StatTypes::Str,
            work_type: WorkCategories::Soldier,
        },
        WorkTypes::Slinger => Work {
            name: work,
            money: 20_000,
            description: "A stone and a strip of leather",
            display_name: "Slinger",
            required_tier: 3,
            main_stat: StatTypes::Dex,
            work_type: WorkCategories::Soldier,
        },
        WorkTypes::Peltasts => Work {
            name: work,
            money: 35_000,
            description: "Javelins and a light shield",
            display_name: "Peltast",
            required_tier: 3,
            main_stat: StatTypes::Dex,
            work_type: WorkCategories::Soldier,
        },
        WorkTypes::Pikeman => Work {
            name: work,
            money: 60_000,
            description: "One pike in the phalanx",
            display_name: "Pikeman",
            required_tier: 3,
            main_stat: StatTypes::Str,
            work_type: WorkCategories::Soldier,
        },
        WorkTypes::FootCompanion => Work {
            name: work,
            money: 100_000,
            description: "The backbone of the line",
            display_name: "Foot Companion",
            required_tier: 4,
            main_stat: StatTypes::Str,
            work_type: WorkCategories::Soldier,
        },
        WorkTypes::Hypaspists => Work {
            name: work,
            money: 160_000,
            description: "Shield bearers of the guard",
            display_name: "Hypaspist",
            required_tier: 4,
            main_stat: StatTypes::Con,
            work_type: WorkCategories::Soldier,
        },
        WorkTypes::LightCavalery => Work {
            name: work,
            money: 250_000,
            description: "Scouting ahead on horseback",
            display_name: "Light Cavalery",
            required_tier: 5,
            main_stat: StatTypes::Dex,
            work_type: WorkCategories::Soldier,
        },
    }
}

/// Looks a job up in the world's content.
pub fn translate_work(work: WorkTypes) -> (record: Work)
    ensures
        record == work_record(work),
        record.name == work,
        record.money > 0,
{
    match work {
        WorkTypes::Mines => Work {
            name: work,
            money: 500,
            description: "Hard labor that kills you",
            display_name: "The Mines",
            required_tier: 0,
            main_stat: StatTypes::Con,
            work_type: WorkCategories::Labor,
        },
        WorkTypes::Latrine => Work {
            name: work,
            money: 1_000,
            description: "A shitty job",
            display_name: "Latrine Duty",
            required_tier: 0,
            main_stat: StatTypes::Con,
            work_type: WorkCategories::Labor,
        },
        WorkTypes::GalleyRower => Work {
            name: work,
            money: 2_500,
            description: "Row row row your boat",
            display_name: "Gallery Rower",
            required_tier: 0,
            main_stat: StatTypes::Con,
            work_type: WorkCategories::Labor,
        },
        WorkTypes::Fields => Work {
            name: work,
            money: 5_000,
            description: "You ain't picking flowers",
            display_name: "Field Work",
            required_tier: 0,
            main_stat: StatTypes::Con,
            work_type: WorkCategories::Labor,
        },
        WorkTypes::Mill => Work {
            name: work,
            money: 9_000,
            description: "Hard labor",
            display_name: "Mill Worker",
            required_tier: 0,
            main_stat: StatTypes::Con,
            work_type: WorkCategories::Labor,
        },
        WorkTypes::Weaver => Work {
            name: work,
            money: 14_000,
            description: "Real work",
            display_name: "Weaver",
            required_tier: 1,
            main_stat: StatTypes::Con,
            work_type: WorkCategories::Labor,
        },
        WorkTypes::Fisherman => Work {
            name: work,
            money: 20_000,
            description: "A man of the sea",
            display_name: "Fisherman",
            required_tier: 1,
            main_stat: StatTypes::Con,
            work_type: WorkCategories::Labor,
        },
        WorkTypes::Farmer => Work {
            name: work,
            money: 40_000,
            description: "Hard labor for a free man",
            display_name: "Farmer",
            required_tier: 2,
            main_stat: StatTypes::Con,
            work_type: WorkCategories::Labor,
        },
        WorkTypes::BagageBoy => Work {
            name: work,
            money: 10_000,
            description: "Carrying what the army needs",
            display_name: "Bagage Boy",
            required_tier: 3,
            main_stat: StatTypes::Str,
            work_type: WorkCategories::Soldier,
        },
        WorkTypes::Slinger => Work {
            name: work,
            money: 20_000,
            description: "A stone and a strip of leather",
            display_name: "Slinger",
            required_tier: 3,
            main_stat: StatTypes::Dex,
            work_type: WorkCategories::Soldier,
        },
        WorkTypes::Peltasts => Work {
            name: work,
            money: 35_000,
            description: "Javelins and a light shield",
            display_name: "Peltast",
            required_tier: 3,
            main_stat: StatTypes::Dex,
            work_type: WorkCategories::Soldier,
        },
        WorkTypes::Pikeman => Work {
            name: work,
            money: 60_000,
            description: "One pike in the phalanx",
            display_name: "Pikeman",
            required_tier: 3,
            main_stat: StatTypes::Str,
            work_type: WorkCategories::Soldier,
        },
        WorkTypes::FootCompanion => Work {
            name: work,
            money: 100_000,
            description: "The backbone of the line",
            display_name: "Foot Companion",
            required_tier: 4,
            main_stat: StatTypes::Str,
            work_type: WorkCategories::Soldier,
        },
        WorkTypes::Hypaspists => Work {
            name: work,
            money: 160_000,
            description: "Shield bearers of the guard",
            display_name: "Hypaspist",
            required_tier: 4,
            main_stat: StatTypes::Con,
            work_type: WorkCategories::Soldier,
        },
        WorkTypes::LightCavalery => Work {
            name: work,
            money: 250_000,
            description: "Scouting ahead on horseback",
            display_name: "Light Cavalery",
            required_tier: 5,
            main_stat: StatTypes::Dex,
            work_type: WorkCategories::Soldier,
        },
    }
}

/// The world's table of jobs, one slot for each job in declaration order.
pub fn get_works() -> (works: Vec<Work>)
    ensures
        is_table(works@, WORK_SIZE as nat),
        forall|i: int| 0 <= i < works@.len() ==> #[trigger] works@[i] == work_record(works@[i].name),
{
    let names = WorkTypes::all();
    let mut works: Vec<Work> = Vec::new();
    let mut i: usize = 0;
    while i < names.len()
        invariant
            i <= names@.len(),
            names@.len() == WORK_SIZE,
            forall|j: int| 0 <= j < names@.len() ==> (#[trigger] names@[j]).rank() == j,
            works@.len() == i,
            forall|j: int| 0 <= j < i ==> (#[trigger] works@[j]).name == names@[j],
            forall|j: int| 0 <= j < i ==> #[trigger] works@[j] == work_record(works@[j].name),
        decreases names@.len() - i,
    {
        works.push(translate_work(names[i]));
        i = i + 1;
    }
    works
}

/// The level that a job must reach to unlock the job after it.
pub const UNLOCK_LEVEL: u32 = 10;

/// The job whose level unlocks `work`: the one before it in its career. The
/// first job of a career waits for none.
pub open spec fn work_prerequisite(work: WorkTypes) -> Option<WorkTypes> {
    match work {
        WorkTypes::Mines | WorkTypes::BagageBoy => None,
        _ => Some(WorkTypes::of_rank(work.rank() - 1)),
    }
}

/// The tier from which `work` is unlocked whatever the level of the job
/// before it. Only the first labour jobs have one.
pub open spec fn work_shortcut_tier(work: WorkTypes) -> Option<u32> {
    match work {
        WorkTypes::Latrine => Some(1u32),
        WorkTypes::GalleyRower => Some(2u32),
        WorkTypes::Fields => Some(3u32),
        WorkTypes::Mill => Some(4u32),
        WorkTypes::Weaver => Some(5u32),
        _ => None,
    }
}

/// Whether the state has earned the job: the tier is high enough for it,
/// and the job before it has reached the unlock level, or the tier makes up
/// for that.
pub open spec fn work_unlocked(work: WorkTypes, world: World, state: StateView) -> bool {
    let tier = state.rebirth_stats.class_tier;
    &&& world.works@[work.rank() as int].required_tier <= tier
    &&& match work_prerequisite(work) {
        None => true,
        Some(before) => {
            ||| state.works[before.rank() as int].level >= UNLOCK_LEVEL
            ||| (work_shortcut_tier(work) matches Some(shortcut) && tier >= shortcut)
        },
    }
}

/// Whether the job is shown: the tier is high enough for it.
pub open spec fn work_visible(work: WorkTypes, world: World, state: StateView) -> bool {
    world.works@[work.rank() as int].required_tier <= state.rebirth_stats.class_tier
}

/// Whether the character has earned the job.
pub fn should_unlock_work(input_work: WorkTypes, game: &Game) -> (unlocked: bool)
    requires
        game.wf(),
    ensures
        unlocked == work_unlocked(input_work, game.world, game.state@),
{
    let work = &game.world.works[input_work.index()];
    if work.required_tier > game.state.rebirth_stats.class_tier {
        return false;
    }
    match input_work {
        WorkTypes::Mines => true,
        WorkTypes::Latrine => {
            game.state.works[WorkTypes::Mines.index()].level >= UNLOCK_LEVEL
                || game.state.rebirth_stats.class_tier >= 1
        },
        WorkTypes::GalleyRower => {
            game.state.works[WorkTypes::Latrine.index()].level >= UNLOCK_LEVEL
                || game.state.rebirth_stats.class_tier >= 2
        },
        WorkTypes::Fields => {
            game.state.works[WorkTypes::GalleyRower.index()].level >= UNLOCK_LEVEL
                || game.state.rebirth_stats.class_tier >= 3
        },
        WorkTypes::Mill => {
            game.state.works[WorkTypes::Fields.index()].level >= UNLOCK_LEVEL
                || game.state.rebirth_stats.class_tier >= 4
        },
        WorkTypes::Weaver => {
            game.state.works[WorkTypes::Mill.index()].level >= UNLOCK_LEVEL
                || game.state.rebirth_stats.class_tier >= 5
        },
        WorkTypes::Fisherman => game.state.works[WorkTypes::Weaver.index()].level >= UNLOCK_LEVEL,
        WorkTypes::Farmer => game.state.works[WorkTypes::Fisherman.index()].level >= UNLOCK_LEVEL,
        WorkTypes::BagageBoy => true,
        WorkTypes::Slinger => game.state.works[WorkTypes::BagageBoy.index()].level >= UNLOCK_LEVEL,
        WorkTypes::Peltasts => game.state.works[WorkTypes::Slinger.index()].level >= UNLOCK_LEVEL,
        WorkTypes::Pikeman => game.state.works[WorkTypes::Peltasts.index()].level >= UNLOCK_LEVEL,
        WorkTypes::FootCompanion => {
            game.state.works[WorkTypes::Pikeman.index()].level >= UNLOCK_LEVEL
        },
        WorkTypes::Hypaspists => {
            game.state.works[WorkTypes::FootCompanion.index()].level >= UNLOCK_LEVEL
        },
        WorkTypes::LightCavalery => {
            game.state.works[WorkTypes::Hypaspists.index()].level >= UNLOCK_LEVEL
        },
    }
}

/// Whether the job is shown to the player.
pub fn should_be_visible_work(input_work: WorkTypes, game: &Game) -> (visible: bool)
    requires
        game.wf(),
    ensures
        visible == work_visible(input_work, game.world, game.state@),
{
    let work = &game.world.works[input_work.index()];
    work.required_tier <= game.state.rebirth_stats.class_tier
}

} // verus!
