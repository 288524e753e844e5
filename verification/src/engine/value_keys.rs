use crate::input::stat::StatTypes;
use crate::input::work::WorkTypes;
use vstd::prelude::*;
use vstd::std_specs::convert::FromSpecImpl;

verus! {

/// The quantities that effects can target. The set is closed: every
/// contribution names one of these, so no contribution can miss its target.
#[derive(Clone, Copy, Debug, PartialEq, Eq, Structural, Hash)]
pub enum KeyValues {
    //Other
    Happiness,
    Money,
    Coins,
    Health,
    //Stats
    Str,
    Int,
    Cha,
    Con,
    Dex,
    Faith,
    //Work
    Mines,
    Latrine,
    GalleyRower,
    Fields,
    Mill,
    Weaver,
    Fisherman,
    Farmer,
    //Soldiers
    BagageBoy,
    Slinger,
    Peltasts,
    Pikeman,
    FootCompanion,
    Hypaspists,
    LightCavalery,
    /// The experience that every soldier rank shares.
    SoldierXp,
}

/// The key that carries the effects on a stat.
pub open spec fn stat_key(stat: StatTypes) -> KeyValues {
    match stat {
        StatTypes::Str => KeyValues::Str,
        StatTypes::Cha => KeyValues::Cha,
        StatTypes::Con => KeyValues::Con,
        StatTypes::Int => KeyValues::Int,
        StatTypes::Dex => KeyValues::Dex,
        StatTypes::Faith => KeyValues::Faith,
    }
}

/// The key that carries the effects on a job.
pub open spec fn work_key(work: WorkTypes) -> KeyValues {
    match work {
        WorkTypes::Mines => KeyValues::Mines,
        WorkTypes::Latrine => KeyValues::Latrine,
        WorkTypes::GalleyRower => KeyValues::GalleyRower,
        WorkTypes::Fields => KeyValues::Fields,
        WorkTypes::Mill => KeyValues::Mill,
        WorkTypes::Weaver => KeyValues::Weaver,
        WorkTypes::Fisherman => KeyValues::Fisherman,
        WorkTypes::Farmer => KeyValues::Farmer,
        WorkTypes::BagageBoy => KeyValues::BagageBoy,
        WorkTypes::Slinger => KeyValues::Slinger,
        WorkTypes::Peltasts => KeyValues::Peltasts,
        WorkTypes::Pikeman => KeyValues::Pikeman,
        WorkTypes::FootCompanion => KeyValues::FootCompanion,
        WorkTypes::Hypaspists => KeyValues::Hypaspists,
        WorkTypes::LightCavalery => KeyValues::LightCavalery,
    }
}

impl From<StatTypes> for KeyValues {
    fn from(stat: StatTypes) -> (key: KeyValues) {
        match stat {
            StatTypes::Str => KeyValues::Str,
            StatTypes::Cha => KeyValues::Cha,
            StatTypes::Con => KeyValues::Con,
            StatTypes::Int => KeyValues::Int,
            StatTypes::Dex => KeyValues::Dex,
            StatTypes::Faith => KeyValues::Faith,
        }
    }
}

impl FromSpecImpl<StatTypes> for KeyValues {
    open spec fn obeys_from_spec() -> bool {
        true
    }

    open spec fn from_spec(stat: StatTypes) -> KeyValues {
        stat_key(stat)
    }
}

impl From<WorkTypes> for KeyValues {
    fn from(work: WorkTypes) -> (key: KeyValues) {
        match work {
            WorkTypes::Mines => KeyValues::Mines,
            WorkTypes::Latrine => KeyValues::Latrine,
            WorkTypes::GalleyRower => KeyValues::GalleyRower,
            WorkTypes::Fields => KeyValues::Fields,
            WorkTypes::Mill => KeyValues::Mill,
            WorkTypes::Weaver => KeyValues::Weaver,
            WorkTypes::Fisherman => KeyValues::Fisherman,
            WorkTypes::Farmer => KeyValues::Farmer,
            WorkTypes::BagageBoy => KeyValues::BagageBoy,
            WorkTypes::Slinger => KeyValues::Slinger,
            WorkTypes::Peltasts => KeyValues::Peltasts,
            WorkTypes::Pikeman => KeyValues::Pikeman,
            WorkTypes::FootCompanion => KeyValues::FootCompanion,
            WorkTypes::Hypaspists => KeyValues::Hypaspists,
            WorkTypes::LightCavalery => KeyValues::LightCavalery,
        }
    }
}

impl FromSpecImpl<WorkTypes> for KeyValues {
    open spec fn obeys_from_spec() -> bool {
        true
    }

    open spec fn from_spec(work: WorkTypes) -> KeyValues {
        work_key(work)
    }
}

impl KeyValues {
    /// The stat that the key stands for, if it is the key of a stat.
    pub fn stat(self) -> (found: Option<StatTypes>)
        ensures
            forall|stat: StatTypes| found == Some(stat) <==> self == stat_key(stat),
    {
        match self {
            KeyValues::Str => Some(StatTypes::Str),
            KeyValues::Int => Some(StatTypes::Int),
            KeyValues::Cha => Some(StatTypes::Cha),
            KeyValues::Con => Some(StatTypes::Con),
            KeyValues::Dex => Some(StatTypes::Dex),
            KeyValues::Faith => Some(StatTypes::Faith),
            _ => None,
        }
    }

    /// The job that the key stands for, if it is the key of a job.
    pub fn work(self) -> (found: Option<WorkTypes>)
        ensures
            forall|work: WorkTypes| found == Some(work) <==> self == work_key(work),
    {
        match self {
            KeyValues::Mines => Some(WorkTypes::Mines),
            KeyValues::Latrine => Some(WorkTypes::Latrine),
            KeyValues::GalleyRower => Some(WorkTypes::GalleyRower),
            KeyValues::Fields => Some(WorkTypes::Fields),
            KeyValues::Mill => Some(WorkTypes::Mill),
            KeyValues::Weaver => Some(WorkTypes::Weaver),
            KeyValues::Fisherman => Some(WorkTypes::Fisherman),
            KeyValues::Farmer => Some(WorkTypes::Farmer),
            KeyValues::BagageBoy => Some(WorkTypes::BagageBoy),
            KeyValues::Slinger => Some(WorkTypes::Slinger),
            KeyValues::Peltasts => Some(WorkTypes::Peltasts),
            KeyValues::Pikeman => Some(WorkTypes::Pikeman),
            KeyValues::FootCompanion => Some(WorkTypes::FootCompanion),
            KeyValues::Hypaspists => Some(WorkTypes::Hypaspists),
            KeyValues::LightCavalery => Some(WorkTypes::LightCavalery),
            _ => None,
        }
    }
}

/// No two stats share a key.
pub proof fn lemma_stat_keys_differ(a: StatTypes, b: StatTypes)
    requires
        a != b,
    ensures
        stat_key(a) != stat_key(b),
{
}

/// No two jobs share a key.
pub proof fn lemma_work_keys_differ(a: WorkTypes, b: WorkTypes)
    requires
        a != b,
    ensures
        work_key(a) != work_key(b),
{
}

/// No stat shares a key with a job.
pub proof fn lemma_stat_and_work_keys_differ(stat: StatTypes, work: WorkTypes)
    ensures
        stat_key(stat) != work_key(work),
{
}

} // verus!
