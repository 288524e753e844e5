use crate::engine::intermediate_state::{Contribution, IntermediateState};
use crate::input::options::AutoSettingTypes;
use crate::input::{first_unlocked_housing, first_unlocked_work, Input, Recordable};
use crate::input_recording::Inputs;
use crate::meta::MetaData;
use crate::state::state_container::{new_game, StateContainer, StateView};
use crate::world_content::world::World;
use vstd::prelude::*;

verus! {

/// A game in progress: the world, the state of the run, the player's choices
/// and settings, the accumulator of the current tick and the recording.
pub struct Game {
    pub world: World,
    pub state: StateContainer,
    pub input: Input,
    pub meta_data: MetaData,
    pub intermediate_state: IntermediateState,
    pub inputs: Inputs,
}

impl Game {
    /// The world and the state are well formed.
    pub open spec fn wf(&self) -> bool {
        self.world.wf() && self.state@.wf()
    }

    /// Whether the game is well formed, for a game that was put together by
    /// hand or read from a save.
    pub fn check(&self) -> (ok: bool)
        ensures
            ok == self.wf(),
    {
        self.world.check() && self.state.check()
    }

    /// Whether nothing but the state of the run differs from `before`.
    pub open spec fn differs_in_state_only(&self, before: &Game) -> bool {
        &&& self.world == before.world
        &&& self.input == before.input
        &&& self.meta_data == before.meta_data
        &&& self.intermediate_state == before.intermediate_state
        &&& self.inputs == before.inputs
    }

    /// Whether nothing but the accumulator differs from `before`.
    pub open spec fn differs_in_accumulator_only(&self, before: &Game) -> bool {
        &&& self.world == before.world
        &&& self.state == before.state
        &&& self.input == before.input
        &&& self.meta_data == before.meta_data
        &&& self.inputs == before.inputs
    }

    /// Whether nothing but the recording differs from `before`.
    pub open spec fn differs_in_recording_only(&self, before: &Game) -> bool {
        &&& self.world == before.world
        &&& self.state == before.state
        &&& self.input == before.input
        &&& self.meta_data == before.meta_data
        &&& self.intermediate_state == before.intermediate_state
    }

    /// Whether nothing but the player's choices differs from `before`.
    pub open spec fn differs_in_input_only(&self, before: &Game) -> bool {
        &&& self.world == before.world
        &&& self.state == before.state
        &&& self.meta_data == before.meta_data
        &&& self.intermediate_state == before.intermediate_state
        &&& self.inputs == before.inputs
    }

    /// A game that has just begun, in the world with the content of this
    /// library.
    pub fn new() -> (game: Game)
        ensures
            game.wf(),
            game.world.is_standard(),
            game.state@ == StateView::fresh(),
            game.meta_data == MetaData::fresh(),
            game.input.work == first_unlocked_work(StateView::fresh()),
            game.input.housing == first_unlocked_housing(StateView::fresh()),
            game.intermediate_state@ == Seq::<Contribution>::empty(),
            game.inputs@ == Seq::<(u32, Seq<char>)>::empty(),
    {
        let world = World::new();
        let state = new_game(&world);
        let input = Input::new(&state, &world);
        Game {
            world,
            state,
            input,
            meta_data: MetaData::new(),
            intermediate_state: IntermediateState::new(),
            inputs: Inputs::new(),
        }
    }

    /// Notes in the recording that a toggle stands as `setting` says, at the
    /// tick that the run has reached: its age in days.
    pub fn register_input(&mut self, setting: AutoSettingTypes)
        ensures
            final(self).inputs@ == old(self).inputs@.push(
                (old(self).state.life_stats.age, setting.record_key()),
            ),
            final(self).differs_in_recording_only(old(self)),
    {
        self.inputs.register_input_on_tick(self.state.life_stats.age, setting);
    }
}

} // verus!
