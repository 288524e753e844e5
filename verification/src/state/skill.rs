use crate::input::skill::{SkillTypes, SKILL_SIZE};
use crate::table::{is_table, Slotted};
use vstd::prelude::*;

verus! {

/// How far a character has come in a skill.
#[derive(Clone, Copy, Debug)]
pub struct SkillState {
    pub name: SkillTypes,
    pub level: u32,
    pub is_visible: bool,
}

impl Slotted for SkillState {
    open spec fn slot(&self) -> nat {
        self.name.rank()
    }

    fn slot_index(&self) -> (i: usize) {
        self.name.index()
    }
}

impl SkillState {
    /// The record of a skill at the start of a life.
    pub open spec fn fresh(name: SkillTypes) -> SkillState {
        SkillState {
            name,
            level: 0,
            is_visible: false,
        }
    }

    /// The record of a skill at the start of a life.
    pub fn new(name: SkillTypes) -> (record: SkillState)
        ensures
            record == SkillState::fresh(name),
    {
        SkillState {
            name,
            level: 0,
            is_visible: false,
        }
    }
}

/// A table with the fresh record of every skill.
pub fn fresh_skills() -> (skills: Vec<SkillState>)
    ensures
        is_table(skills@, SKILL_SIZE as nat),
        forall|i: int|
            0 <= i < skills@.len() ==> #[trigger] skills@[i] == SkillState::fresh(skills@[i].name),
{
    let names = SkillTypes::all();
    let mut skills: Vec<SkillState> = Vec::new();
    let mut i: usize = 0;
    while i < names.len()
        invariant
            i <= names@.len(),
            names@.len() == SKILL_SIZE,
            forall|j: int| 0 <= j < names@.len() ==> (#[trigger] names@[j]).rank() == j,
            skills@.len() == i,
            forall|j: int| 0 <= j < i ==> #[trigger] skills@[j] == SkillState::fresh(names@[j]),
        decreases names@.len() - i,
    {
        skills.push(SkillState::new(names[i]));
        i = i + 1;
    }
    skills
}

} // verus!
