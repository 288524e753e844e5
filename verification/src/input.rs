use crate::input::housing::HousingTypes;
use crate::input::work::WorkTypes;
use crate::state::state_container::{StateContainer, StateView};
use crate::world_content::world::World;
use vstd::prelude::*;

pub mod activity;
pub mod boost_item;
pub mod housing;
pub mod options;
pub mod rebirth_upgrade;
pub mod skill;
pub mod stat;
pub mod tomb;
pub mod work;

verus! {

/// A player's choice or setting that the recording of a run can note.
pub trait Recordable {
    /// The text under which the recording notes the choice.
    spec fn record_key(&self) -> Seq<char>;

    /// The text under which the recording notes the choice.
    fn to_record_key(&self) -> (key: String)
        ensures
            key@ == self.record_key(),
    ;
}

/// What the player has chosen: the job to work in and the place to live in.
#[derive(Clone, Copy, Debug)]
pub struct Input {
    pub work: WorkTypes,
    pub housing: HousingTypes,
}

/// The lowest-ranked job that the state has unlocked; the first job, where
/// none is unlocked.
pub open spec fn first_unlocked_work(state: StateView) -> WorkTypes {
    if exists|i: int| 0 <= i < state.works.len() && state.works[i].is_unlocked {
        state.works[choose|i: int|
            0 <= i < state.works.len() && state.works[i].is_unlocked && forall|j: int|
                0 <= j < i ==> !state.works[j].is_unlocked].name
    } else {
        WorkTypes::Mines
    }
}

/// The lowest-ranked housing option that the state has unlocked; the first
/// option, where none is unlocked.
pub open spec fn first_unlocked_housing(state: StateView) -> HousingTypes {
    if exists|i: int| 0 <= i < state.housing.len() && state.housing[i].is_unlocked {
        state.housing[choose|i: int|
            0 <= i < state.housing.len() && state.housing[i].is_unlocked && forall|j: int|
                0 <= j < i ==> !state.housing[j].is_unlocked].name
    } else {
        HousingTypes::StoneFloor
    }
}

impl Input {
    /// The choices that a run starts with: the lowest job and the lowest
    /// housing that the state has unlocked, whatever the world holds.
    pub fn new(state: &StateContainer, _world: &World) -> (input: Input)
        ensures
            input.work == first_unlocked_work(state@),
            input.housing == first_unlocked_housing(state@),
    {
        let mut work = WorkTypes::Mines;
        let mut i: usize = 0;
        while i < state.works.len()
            invariant_except_break
                i <= state.works@.len(),
                forall|j: int| 0 <= j < i ==> !state.works@[j].is_unlocked,
                work == WorkTypes::Mines,
            ensures
                work == first_unlocked_work(state@),
            decreases state.works@.len() - i,
        {
            if state.works[i].is_unlocked {
                work = state.works[i].name;
                proof {
                    let found = choose|k: int|
                        0 <= k < state.works@.len() && state.works@[k].is_unlocked && forall|j: int|
                            0 <= j < k ==> !state.works@[j].is_unlocked;
                    assert(found == i);
                }
                break ;
            }
            i = i + 1;
        }
        let mut housing = HousingTypes::StoneFloor;
        let mut i: usize = 0;
        while i < state.housing.len()
            invariant_except_break
                i <= state.housing@.len(),
                forall|j: int| 0 <= j < i ==> !state.housing@[j].is_unlocked,
                housing == HousingTypes::StoneFloor,
            ensures
                housing == first_unlocked_housing(state@),
            decreases state.housing@.len() - i,
        {
            if state.housing[i].is_unlocked {
                housing = state.housing[i].name;
                proof {
                    let found = choose|k: int|
                        0 <= k < state.housing@.len() && state.housing@[k].is_unlocked
                            && forall|j: int| 0 <= j < k ==> !state.housing@[j].is_unlocked;
                    assert(found == i);
                }
                break ;
            }
            i = i + 1;
        }
        Input { work, housing }
    }
}

} // verus!
