use crate::input::options::Options;
use vstd::prelude::*;

verus! {

/// What belongs to the player rather than to a run.
#[derive(Clone, Copy, Debug)]
pub struct MetaData {
    pub options: Options,
    /// The ticks that passed while the game was not running, to be caught
    /// up on.
    pub saved_ticks: u64,
}

impl MetaData {
    /// Every toggle off and no ticks saved.
    pub open spec fn fresh() -> MetaData {
        MetaData { options: Options::all_off(), saved_ticks: 0 }
    }

    /// Every toggle off and no ticks saved.
    pub fn new() -> (meta_data: MetaData)
        ensures
            meta_data == MetaData::fresh(),
    {
        MetaData { options: Options::default(), saved_ticks: 0 }
    }
}

} // verus!
