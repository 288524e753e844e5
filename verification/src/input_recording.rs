use crate::input::Recordable;
use vstd::prelude::*;

verus! {

/// One noted choice: the tick at which it was made and the text that names
/// it.
pub struct RecordedInput {
    pub tick: u32,
    pub key: String,
}

/// The recording of a run: the choices of the player in the order in which
/// they were noted.
pub struct Inputs {
    pub events: Vec<RecordedInput>,
}

impl View for Inputs {
    type V = Seq<(u32, Seq<char>)>;

    /// Each noted choice as its tick and its text.
    open spec fn view(&self) -> Seq<(u32, Seq<char>)> {
        self.events@.map_values(|event: RecordedInput| (event.tick, event.key@))
    }
}

impl Inputs {
    /// A recording with nothing in it.
    pub fn new() -> (inputs: Inputs)
        ensures
            inputs@ == Seq::<(u32, Seq<char>)>::empty(),
    {
        let inputs = Inputs { events: Vec::new() };
        inputs
    }

    /// Notes that `input` was chosen at `tick`.
    pub fn register_input_on_tick<T: Recordable>(&mut self, tick: u32, input: T)
        ensures
            final(self)@ == old(self)@.push((tick, input.record_key())),
    {
        let key = input.to_record_key();
        self.events.push(RecordedInput { tick, key });
    }
}

} // verus!
