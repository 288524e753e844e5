use crate::engine::intermediate_state::{Contribution, Factor};
use crate::engine::value_keys::KeyValues;
use crate::fixed::at_most;
use crate::game::Game;
use crate::input::skill::{SkillTypes, SKILL_SIZE};
use crate::state::state_container::StateView;
use crate::world_content::world::World;
use crate::table::{is_table, Slotted};
use vstd::prelude::*;

verus! {

/// What the world says of a skill.
#[derive(Clone, Copy, Debug)]
pub struct Skill {
    pub name: SkillTypes,
    pub description: &'static str,
    pub display_name: &'static str,
    pub required_tier: u32,
    /// How much more experience a level of the skill takes than a level of a
    /// plain skill, in thousandths.
    pub xp_req_modifier: i64,
}

impl Slotted for Skill {
    open spec fn slot(&self) -> nat {
        self.name.rank()
    }

    fn slot_index(&self) -> (i: usize) {
        self.name.index()
    }
}

/// The world's record of each skill.
pub open spec fn skill_record(skill: SkillTypes) -> Skill {
    match skill {
        SkillTypes::Mindfull => Skill {
            name: skill,
            description: "Be one with the world",
            display_name: "Mindefullness",
            required_tier: 1,
            xp_req_modifier: 4_000,
        },
        SkillTypes::Tactics => Skill {
            name: skill,
            description: "Flank them!",
            display_name: "Military Tactics",
            required_tier: 3,
            xp_req_modifier: 1_000,
        },
    }
}

/// Looks a skill up in the world's content.
pub fn translate_skill(skill: SkillTypes) -> (record: Skill)
    ensures
        record == skill_record(skill),
        record.name == skill,
        record.xp_req_modifier > 0,
{
    match skill {
        SkillTypes::Mindfull => Skill {
            name: skill,
            description: "Be one with the world",
            display_name: "Mindefullness",
            required_tier: 1,
            xp_req_modifier: 4_000,
        },
        SkillTypes::Tactics => Skill {
            name: skill,
            description: "Flank them!",
            display_name: "Military Tactics",
            required_tier: 3,
            xp_req_modifier: 1_000,
        },
    }
}

/// The world's table of skills, one slot for each skill in declaration order.
pub fn get_skills() -> (skills: Vec<Skill>)
    ensures
        is_table(skills@, SKILL_SIZE as nat),
        forall|i: int|
            0 <= i < skills@.len() ==> #[trigger] skills@[i] == skill_record(skills@[i].name),
{
    let names = SkillTypes::all();
    let mut skills: Vec<Skill> = Vec::new();
    let mut i: usize = 0;
    while i < names.len()
        invariant
            i <= names@.len(),
            names@.len() == SKILL_SIZE,
            forall|j: int| 0 <= j < names@.len() ==> (#[trigger] names@[j]).rank() == j,
            skills@.len() == i,
            forall|j: int| 0 <= j < i ==> (#[trigger] skills@[j]).name == names@[j],
            forall|j: int| 0 <= j < i ==> #[trigger] skills@[j] == skill_record(skills@[j].name),
        decreases names@.len() - i,
    {
        skills.push(translate_skill(names[i]));
        i = i + 1;
    }
    skills
}

/// The key that a skill scales.
pub open spec fn skill_target(skill: SkillTypes) -> KeyValues {
    match skill {
        SkillTypes::Mindfull => KeyValues::Happiness,
        SkillTypes::Tactics => KeyValues::SoldierXp,
    }
}

/// The factor of a skill at `level`: one, and a twentieth more for each
/// level. The numerator stops at the largest that a factor can hold.
pub open spec fn skill_factor(level: u32) -> Factor {
    Factor::ratio(at_most(level + 20, u32::MAX as int) as u32, 20)
}

impl Skill {
    /// What the skill contributes at `level`.
    pub open spec fn effect(&self, level: u32) -> Contribution {
        Contribution::Multiplier {
            key: skill_target(self.name),
            factor: skill_factor(level),
            label: self.display_name,
        }
    }

    /// Hands the effect of the skill, at the level that the character has in
    /// it, to the accumulator of the game.
    pub fn get_skills_gains(&self, game: &mut Game)
        requires
            old(game).wf(),
        ensures
            final(game).intermediate_state@ == old(game).intermediate_state@.push(
                self.effect(old(game).state.skills@[self.name.rank() as int].level),
            ),
            final(game).differs_in_accumulator_only(old(game)),
    {
        let level: u32 = game.state.skills[self.name.index()].level;
        let num: u32 = if level > u32::MAX - 20 {
            u32::MAX
        } else {
            level + 20
        };
        let factor = Factor::new(num, 20);
        match self.name {
            SkillTypes::Mindfull => {
                game.intermediate_state.add_multiplier(
                    KeyValues::Happiness,
                    factor,
                    self.display_name,
                );
            },
            SkillTypes::Tactics => {
                game.intermediate_state.add_multiplier(
                    KeyValues::SoldierXp,
                    factor,
                    self.display_name,
                );
            },
        }
    }
}

/// Whether the skill is shown: the tier is high enough for it, and the
/// upgrade that opens it has been purchased.
pub open spec fn skill_visible(skill: SkillTypes, world: World, state: StateView) -> bool {
    &&& world.skills@[skill.rank() as int].required_tier <= state.rebirth_stats.class_tier
    &&& match skill {
        SkillTypes::Tactics => state.rebirth_stats.unlocks.has_military_tactics,
        SkillTypes::Mindfull => state.rebirth_stats.unlocks.has_meditation,
    }
}

/// Whether the skill is shown to the player.
pub fn should_be_visible_skill(input_skill: SkillTypes, game: &Game) -> (visible: bool)
    requires
        game.wf(),
    ensures
        visible == skill_visible(input_skill, game.world, game.state@),
{
    let skill = &game.world.skills[input_skill.index()];
    if game.state.rebirth_stats.class_tier < skill.required_tier {
        return false;
    }
    match input_skill {
        SkillTypes::Tactics => game.state.rebirth_stats.unlocks.has_military_tactics,
        SkillTypes::Mindfull => game.state.rebirth_stats.unlocks.has_meditation,
    }
}

} // verus!
