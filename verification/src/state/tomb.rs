use crate::input::tomb::{TombTypes, TOMB_SIZE};
use crate::table::{is_table, Slotted};
use vstd::prelude::*;

verus! {

/// Whether a character owns a tomb, and may see it on offer.
#[derive(Clone, Copy, Debug)]
pub struct TombState {
    pub name: TombTypes,
    pub is_purchased: bool,
    pub is_visible: bool,
}

impl Slotted for TombState {
    open spec fn slot(&self) -> nat {
        self.name.rank()
    }

    fn slot_index(&self) -> (i: usize) {
        self.name.index()
    }
}

impl TombState {
    /// The record of a tomb at the start of a life.
    pub open spec fn fresh(name: TombTypes) -> TombState {
        TombState {
            name,
            is_purchased: false,
            is_visible: false,
        }
    }

    /// The record of a tomb at the start of a life.
    pub fn new(name: TombTypes) -> (record: TombState)
        ensures
            record == TombState::fresh(name),
    {
        TombState {
            name,
            is_purchased: false,
            is_visible: false,
        }
    }
}

/// A table with the fresh record of every tomb.
pub fn fresh_tombs() -> (tombs: Vec<TombState>)
    ensures
        is_table(tombs@, TOMB_SIZE as nat),
        forall|i: int|
            0 <= i < tombs@.len() ==> #[trigger] tombs@[i] == TombState::fresh(tombs@[i].name),
{
    let names = TombTypes::all();
    let mut tombs: Vec<TombState> = Vec::new();
    let mut i: usize = 0;
    while i < names.len()
        invariant
            i <= names@.len(),
            names@.len() == TOMB_SIZE,
            forall|j: int| 0 <= j < names@.len() ==> (#[trigger] names@[j]).rank() == j,
            tombs@.len() == i,
            forall|j: int| 0 <= j < i ==> #[trigger] tombs@[j] == TombState::fresh(names@[j]),
        decreases names@.len() - i,
    {
        tombs.push(TombState::new(names[i]));
        i = i + 1;
    }
    tombs
}

} // verus!
