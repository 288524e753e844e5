use crate::input::housing::{HousingTypes, HOUSING_SIZE};
use crate::table::{is_table, Slotted};
use vstd::prelude::*;

verus! {

/// Whether a character may move into a housing option.
#[derive(Clone, Copy, Debug)]
pub struct HousingState {
    pub name: HousingTypes,
    pub is_unlocked: bool,
}

impl Slotted for HousingState {
    open spec fn slot(&self) -> nat {
        self.name.rank()
    }

    fn slot_index(&self) -> (i: usize) {
        self.name.index()
    }
}

impl HousingState {
    /// The record of a housing option at the start of a life.
    pub open spec fn fresh(name: HousingTypes) -> HousingState {
        HousingState {
            name,
            is_unlocked: false,
        }
    }

    /// The record of a housing option at the start of a life.
    pub fn new(name: HousingTypes) -> (record: HousingState)
        ensures
            record == HousingState::fresh(name),
    {
        HousingState {
            name,
            is_unlocked: false,
        }
    }
}

/// A table with the fresh record of every housing option.
pub fn fresh_housing() -> (housing: Vec<HousingState>)
    ensures
        is_table(housing@, HOUSING_SIZE as nat),
        forall|i: int|
            0 <= i < housing@.len() ==> #[trigger] housing@[i] == HousingState::fresh(housing@[i].name),
{
    let names = HousingTypes::all();
    let mut housing: Vec<HousingState> = Vec::new();
    let mut i: usize = 0;
    while i < names.len()
        invariant
            i <= names@.len(),
            names@.len() == HOUSING_SIZE,
            forall|j: int| 0 <= j < names@.len() ==> (#[trigger] names@[j]).rank() == j,
            housing@.len() == i,
            forall|j: int| 0 <= j < i ==> #[trigger] housing@[j] == HousingState::fresh(names@[j]),
        decreases names@.len() - i,
    {
        housing.push(HousingState::new(names[i]));
        i = i + 1;
    }
    housing
}

} // verus!
