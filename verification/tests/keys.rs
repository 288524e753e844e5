use incremental_core::engine::value_keys::KeyValues;
use incremental_core::input::boost_item::{BoostItemTypes, BOOST_ITEM_SIZE};
use incremental_core::input::housing::{HousingTypes, HOUSING_SIZE};
use incremental_core::input::rebirth_upgrade::{RebirthUpgradeTypes, REBIRTH_UPGRADE_SIZE};
use incremental_core::input::skill::{SkillTypes, SKILL_SIZE};
use incremental_core::input::stat::{StatTypes, STAT_SIZE};
use incremental_core::input::tomb::{TombTypes, TOMB_SIZE};
use incremental_core::input::work::{WorkTypes, WORK_SIZE};

#[test]
fn stat_keys_are_the_stats_own() {
    assert_eq!(KeyValues::from(StatTypes::Str), KeyValues::Str);
    assert_eq!(KeyValues::from(StatTypes::Int), KeyValues::Int);
    assert_eq!(KeyValues::from(StatTypes::Cha), KeyValues::Cha);
    assert_eq!(KeyValues::from(StatTypes::Con), KeyValues::Con);
    assert_eq!(KeyValues::from(StatTypes::Dex), KeyValues::Dex);
    assert_eq!(KeyValues::from(StatTypes::Faith), KeyValues::Faith);
}

#[test]
fn work_keys_are_the_jobs_own() {
    assert_eq!(KeyValues::from(WorkTypes::Mines), KeyValues::Mines);
    assert_eq!(KeyValues::from(WorkTypes::Latrine), KeyValues::Latrine);
    assert_eq!(KeyValues::from(WorkTypes::GalleyRower), KeyValues::GalleyRower);
    assert_eq!(KeyValues::from(WorkTypes::Fields), KeyValues::Fields);
    assert_eq!(KeyValues::from(WorkTypes::Mill), KeyValues::Mill);
    assert_eq!(KeyValues::from(WorkTypes::Weaver), KeyValues::Weaver);
    assert_eq!(KeyValues::from(WorkTypes::Fisherman), KeyValues::Fisherman);
    assert_eq!(KeyValues::from(WorkTypes::Farmer), KeyValues::Farmer);
    assert_eq!(KeyValues::from(WorkTypes::BagageBoy), KeyValues::BagageBoy);
    assert_eq!(KeyValues::from(WorkTypes::Slinger), KeyValues::Slinger);
    assert_eq!(KeyValues::from(WorkTypes::Peltasts), KeyValues::Peltasts);
    assert_eq!(KeyValues::from(WorkTypes::Pikeman), KeyValues::Pikeman);
    assert_eq!(KeyValues::from(WorkTypes::FootCompanion), KeyValues::FootCompanion);
    assert_eq!(KeyValues::from(WorkTypes::Hypaspists), KeyValues::Hypaspists);
    assert_eq!(KeyValues::from(WorkTypes::LightCavalery), KeyValues::LightCavalery);
}

#[test]
fn no_two_names_share_a_key() {
    let mut keys: Vec<KeyValues> = Vec::new();
    for stat in StatTypes::all() {
        keys.push(KeyValues::from(stat));
    }
    for work in WorkTypes::all() {
        keys.push(KeyValues::from(work));
    }
    assert_eq!(keys.len(), 21);
    for i in 0..keys.len() {
        for j in 0..keys.len() {
            assert_eq!(keys[i] == keys[j], i == j);
        }
    }
}

#[test]
fn keys_lead_back_to_their_names() {
    for stat in StatTypes::all() {
        assert_eq!(KeyValues::from(stat).stat(), Some(stat));
        assert_eq!(KeyValues::from(stat).work(), None);
    }
    for work in WorkTypes::all() {
        assert_eq!(KeyValues::from(work).work(), Some(work));
        assert_eq!(KeyValues::from(work).stat(), None);
    }
    for key in [
        KeyValues::Happiness,
        KeyValues::Money,
        KeyValues::Coins,
        KeyValues::Health,
        KeyValues::SoldierXp,
    ] {
        assert_eq!(key.stat(), None);
        assert_eq!(key.work(), None);
    }
}

#[test]
fn enumerations_list_every_name_in_its_slot() {
    let stats = StatTypes::all();
    assert_eq!(stats.len(), STAT_SIZE);
    assert_eq!(stats[0], StatTypes::Str);
    assert_eq!(stats[5], StatTypes::Faith);
    for (i, name) in stats.iter().enumerate() {
        assert_eq!(name.index(), i);
    }
    let works = WorkTypes::all();
    assert_eq!(works.len(), WORK_SIZE);
    assert_eq!(WORK_SIZE, 15);
    assert_eq!(works[0], WorkTypes::Mines);
    assert_eq!(works[7], WorkTypes::Farmer);
    assert_eq!(works[14], WorkTypes::LightCavalery);
    for (i, name) in works.iter().enumerate() {
        assert_eq!(name.index(), i);
    }
    let items = BoostItemTypes::all();
    assert_eq!(items.len(), BOOST_ITEM_SIZE);
    assert_eq!(BOOST_ITEM_SIZE, 14);
    assert_eq!(items[0], BoostItemTypes::Book);
    assert_eq!(items[13], BoostItemTypes::HealthKit);
    for (i, name) in items.iter().enumerate() {
        assert_eq!(name.index(), i);
    }
    let skills = SkillTypes::all();
    assert_eq!(skills.len(), SKILL_SIZE);
    for (i, name) in skills.iter().enumerate() {
        assert_eq!(name.index(), i);
    }
    let housing = HousingTypes::all();
    assert_eq!(housing.len(), HOUSING_SIZE);
    for (i, name) in housing.iter().enumerate() {
        assert_eq!(name.index(), i);
    }
    let tombs = TombTypes::all();
    assert_eq!(tombs.len(), TOMB_SIZE);
    for (i, name) in tombs.iter().enumerate() {
        assert_eq!(name.index(), i);
    }
    let upgrades = RebirthUpgradeTypes::all();
    assert_eq!(upgrades.len(), REBIRTH_UPGRADE_SIZE);
    assert_eq!(upgrades[0], RebirthUpgradeTypes::AcceptingDeath);
    for (i, name) in upgrades.iter().enumerate() {
        assert_eq!(name.index(), i);
    }
}
