use crate::input::Recordable;
use vstd::prelude::*;

verus! {

/// What a character can spend free time on.
#[derive(Clone, Copy, Debug, PartialEq, Eq, Structural, Hash)]
pub enum ActivityTypes {
    Training,
    Studying,
    Flirting,
    Praying,
}

impl Recordable for ActivityTypes {
    open spec fn record_key(&self) -> Seq<char> {
        match self {
            ActivityTypes::Training => "Training"@,
            ActivityTypes::Studying => "Studying"@,
            ActivityTypes::Flirting => "Flirting"@,
            ActivityTypes::Praying => "Praying"@,
        }
    }

    fn to_record_key(&self) -> (key: String) {
        match self {
            ActivityTypes::Training => "Training",
            ActivityTypes::Studying => "Studying",
            ActivityTypes::Flirting => "Flirting",
            ActivityTypes::Praying => "Praying",
        }.to_owned()
    }
}

} // verus!
