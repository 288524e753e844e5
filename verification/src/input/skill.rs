use vstd::prelude::*;

verus! {

/// The number of skills.
pub const SKILL_SIZE: usize = 2;

/// The skills a character can train.
#[derive(Clone, Copy, Debug, PartialEq, Eq, Structural, Hash)]
pub enum SkillTypes {
    Mindfull,
    Tactics,
}

impl SkillTypes {
    /// The position of the skill in declaration order.
    pub open spec fn rank(self) -> nat {
        match self {
            SkillTypes::Mindfull => 0,
            SkillTypes::Tactics => 1,
        }
    }

    /// The skill at a position of the declaration order.
    pub open spec fn of_rank(rank: int) -> SkillTypes {
        if rank == 0 {
            SkillTypes::Mindfull
        } else {
            SkillTypes::Tactics
        }
    }

    /// `of_rank` and `rank` undo each other.
    pub proof fn lemma_of_rank()
        ensures
            forall|name: SkillTypes| SkillTypes::of_rank(#[trigger] name.rank() as int) == name,
            forall|rank: int|
                0 <= rank < SKILL_SIZE ==> (#[trigger] SkillTypes::of_rank(rank)).rank() == rank,
    {
    }

    /// The slot of the skill in a table indexed by skill.
    pub fn index(self) -> (i: usize)
        ensures
            i == self.rank(),
            i < SKILL_SIZE,
    {
        match self {
            SkillTypes::Mindfull => 0,
            SkillTypes::Tactics => 1,
        }
    }

    /// Every skill exactly once, in declaration order.
    pub fn all() -> (v: Vec<SkillTypes>)
        ensures
            v@.len() == SKILL_SIZE,
            forall|i: int| 0 <= i < v@.len() ==> #[trigger] v@[i] == SkillTypes::of_rank(i),
            forall|i: int| 0 <= i < v@.len() ==> (#[trigger] v@[i]).rank() == i,
    {
        vec![
            SkillTypes::Mindfull,
            SkillTypes::Tactics,
        ]
    }
}

} // verus!
