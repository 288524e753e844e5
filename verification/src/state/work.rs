use crate::input::work::{WorkTypes, WORK_SIZE};
use crate::state::stats::{level_up, leveled};
use crate::table::{is_table, Slotted};
use vstd::prelude::*;

verus! {

/// How far a character has come in a job.
#[derive(Clone, Copy, Debug)]
pub struct WorkState {
    pub name: WorkTypes,
    pub level: u32,
    /// The experience gathered toward the next level, in thousandths.
    pub next_level_progress: u64,
    pub is_unlocked: bool,
    pub is_visible: bool,
}

impl Slotted for WorkState {
    open spec fn slot(&self) -> nat {
        self.name.rank()
    }

    fn slot_index(&self) -> (i: usize) {
        self.name.index()
    }
}

impl WorkState {
    /// The record of a job at the start of a life.
    pub open spec fn fresh(name: WorkTypes) -> WorkState {
        WorkState {
            name,
            level: 0,
            next_level_progress: 0,
            is_unlocked: false,
            is_visible: false,
        }
    }

    /// The record of a job at the start of a life.
    pub fn new(name: WorkTypes) -> (record: WorkState)
        ensures
            record == WorkState::fresh(name),
    {
        WorkState {
            name,
            level: 0,
            next_level_progress: 0,
            is_unlocked: false,
            is_visible: false,
        }
    }
}

impl WorkState {
    /// The job after `gained` experience in it.
    pub open spec fn trained(self, gained: u64) -> WorkState {
        let after = leveled(self.level, self.next_level_progress, gained);
        WorkState { level: after.0, next_level_progress: after.1, ..self }
    }

    /// Adds `gained` experience to the job.
    pub fn train(&mut self, gained: u64)
        ensures
            *final(self) == old(self).trained(gained),
    {
        let after = level_up(self.level, self.next_level_progress, gained);
        self.level = after.0;
        self.next_level_progress = after.1;
    }
}

/// A table with the fresh record of every job.
pub fn fresh_works() -> (works: Vec<WorkState>)
    ensures
        is_table(works@, WORK_SIZE as nat),
        forall|i: int|
            0 <= i < works@.len() ==> #[trigger] works@[i] == WorkState::fresh(works@[i].name),
{
    let names = WorkTypes::all();
    let mut works: Vec<WorkState> = Vec::new();
    let mut i: usize = 0;
    while i < names.len()
        invariant
            i <= names@.len(),
            names@.len() == WORK_SIZE,
            forall|j: int| 0 <= j < names@.len() ==> (#[trigger] names@[j]).rank() == j,
            works@.len() == i,
            forall|j: int| 0 <= j < i ==> #[trigger] works@[j] == WorkState::fresh(names@[j]),
        decreases names@.len() - i,
    {
        works.push(WorkState::new(names[i]));
        i = i + 1;
    }
    works
}

} // verus!
