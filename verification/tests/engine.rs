use incremental_core::engine::intermediate_state::Contribution;
use incremental_core::engine::value_keys::KeyValues;
use incremental_core::engine::{
    advance_age, apply_contributions, character_death_update, collect_contributions, engine_run,
    experience_of, refresh_flags, run_policies,
};
use incremental_core::game::Game;
use incremental_core::input::boost_item::BoostItemTypes;
use incremental_core::input::housing::HousingTypes;
use incremental_core::input::rebirth_upgrade::RebirthUpgradeTypes;
use incremental_core::input::skill::SkillTypes;
use incremental_core::input::stat::StatTypes;
use incremental_core::input::tomb::TombTypes;
use incremental_core::input::work::WorkTypes;
use incremental_core::state::life_stats::{LifeStats, DEATH_THRESHOLD, LIFESPAN, STARTING_HEALTH};
use incremental_core::util::{run_until_dead, set_full_auto};
use incremental_core::world_content::boost_item::{
    should_be_visible_boost_item, should_unlock_boost_item,
};
use incremental_core::world_content::housing::should_unlock_housing;
use incremental_core::world_content::skill::{should_be_visible_skill, translate_skill};
use incremental_core::world_content::tomb::should_be_visible_tomb;
use incremental_core::world_content::work::{should_be_visible_work, should_unlock_work};

#[test]
fn a_life_starts_healthy() {
    assert_eq!(LIFESPAN, 70 * 365);
    assert_eq!(STARTING_HEALTH, 100_000_000);
    assert_eq!(DEATH_THRESHOLD, 0);
    let life = LifeStats::new();
    assert_eq!(life.age, 0);
    assert_eq!(life.health, STARTING_HEALTH);
    assert_eq!(life.happiness, 0);
    assert!(!life.is_dying && !life.dead);
    assert!(life.is_alive_now());
    assert!(!life.should_die());
}

#[test]
fn a_life_runs_out_by_health_or_by_age() {
    let mut life = LifeStats::new();
    life.health = 1;
    life.age = LIFESPAN;
    assert!(!life.should_die());
    life.health = 0;
    assert!(life.should_die());
    life.health = -5;
    assert!(life.should_die());
    life.health = 1;
    life.age = LIFESPAN + 1;
    assert!(life.should_die());
}

#[test]
fn experience_is_never_negative() {
    assert_eq!(experience_of(0), 0);
    assert_eq!(experience_of(-7), 0);
    assert_eq!(experience_of(i64::MIN), 0);
    assert_eq!(experience_of(1_000), 1_000);
    assert_eq!(experience_of(i64::MAX), i64::MAX as u64);
}

#[test]
fn a_fresh_game_collects_work_and_housing() {
    let mut game = Game::new();
    assert_eq!(game.input.work, WorkTypes::Mines);
    assert_eq!(game.input.housing, HousingTypes::StoneFloor);
    collect_contributions(&mut game);
    let acc = &game.intermediate_state;
    assert_eq!(acc.contributions().len(), 5);
    assert_eq!(acc.resolve(KeyValues::Health), -5_000);
    assert_eq!(acc.resolve(KeyValues::Money), 500);
    assert_eq!(acc.resolve(KeyValues::Mines), 1_000);
    assert_eq!(acc.resolve(KeyValues::Con), 1_000);
    assert_eq!(acc.resolve(KeyValues::Happiness), 1_000);
    assert_eq!(acc.resolve(KeyValues::Coins), 0);
    assert_eq!(acc.resolve(KeyValues::SoldierXp), 0);
    // Collecting starts afresh.
    collect_contributions(&mut game);
    assert_eq!(game.intermediate_state.contributions().len(), 5);
    assert_eq!(game.state.items.money, 0);
}

#[test]
fn only_active_entities_contribute() {
    let mut game = Game::new();
    game.input.work = WorkTypes::Fisherman;
    game.input.housing = HousingTypes::Tent;
    game.state.items.boost_items[BoostItemTypes::FishingGear.index()].is_purchased = true;
    game.state.items.boost_items[BoostItemTypes::Book.index()].is_purchased = true;
    game.state.items.boost_items[BoostItemTypes::Leach.index()].is_purchased = true;
    game.state.items.boost_items[BoostItemTypes::HealthKit.index()].is_visible = true;
    game.state.skills[SkillTypes::Mindfull.index()].level = 10;
    game.state.tombs[TombTypes::Coffin.index()].is_purchased = true;
    game.state.rebirth_stats.rebirth_upgrades[RebirthUpgradeTypes::AcceptingDeath.index()]
        .is_purchased = true;
    game.state.rebirth_stats.rebirth_upgrades[RebirthUpgradeTypes::Inheritance.index()]
        .is_purchased = true;
    game.state.rebirth_stats.rebirth_upgrades[RebirthUpgradeTypes::Meditation.index()]
        .is_purchased = true;
    collect_contributions(&mut game);
    let acc = &game.intermediate_state;
    // work 3, housing 1, items 3, skill 1, tomb 1, upgrades 2
    assert_eq!(acc.contributions().len(), 11);
    assert_eq!(acc.resolve(KeyValues::Health), 1_000);
    assert_eq!(acc.resolve(KeyValues::Money), 21_000);
    assert_eq!(acc.resolve(KeyValues::Fisherman), 2_000);
    assert_eq!(acc.resolve(KeyValues::Con), 1_000);
    assert_eq!(acc.resolve(KeyValues::Int), 0);
    // 2_500 * 30 / 20
    assert_eq!(acc.resolve(KeyValues::Happiness), 3_750);
    assert_eq!(acc.resolve(KeyValues::Coins), 6);
    let labels: Vec<&str> = acc
        .contributions()
        .iter()
        .filter_map(|c| match c {
            Contribution::Multiplier { label, .. } => Some(*label),
            _ => None,
        })
        .collect();
    assert_eq!(labels, vec!["Book", "Fishing Gear", "Mindefullness", "Accepting Death"]);
}

#[test]
fn a_soldier_gathers_experience_on_the_shared_key() {
    let mut game = Game::new();
    game.input.work = WorkTypes::Pikeman;
    game.state.skills[SkillTypes::Tactics.index()].level = 20;
    collect_contributions(&mut game);
    assert_eq!(game.intermediate_state.resolve(KeyValues::Pikeman), 0);
    assert_eq!(game.intermediate_state.resolve(KeyValues::SoldierXp), 2_000);
    assert_eq!(game.intermediate_state.resolve(KeyValues::Str), 1_000);
    assert_eq!(game.intermediate_state.resolve(KeyValues::Money), 60_000);
    apply_contributions(&mut game);
    assert_eq!(game.state.works[WorkTypes::Pikeman.index()].next_level_progress, 2_000);
    assert_eq!(game.state.stats[StatTypes::Str.index()].next_level_progress, 1_000);
}

#[test]
fn skill_gains_grow_by_a_twentieth_a_level() {
    for (level, expected) in [(0u32, 1_000i64), (1, 1_050), (20, 2_000), (100, 6_000)] {
        let mut game = Game::new();
        game.state.skills[SkillTypes::Mindfull.index()].level = level;
        game.intermediate_state.add_base(KeyValues::Happiness, 1_000);
        translate_skill(SkillTypes::Mindfull).get_skills_gains(&mut game);
        assert_eq!(game.intermediate_state.contributions().len(), 2);
        assert_eq!(game.intermediate_state.resolve(KeyValues::Happiness), expected);
    }
    let mut game = Game::new();
    game.state.skills[SkillTypes::Tactics.index()].level = u32::MAX;
    game.intermediate_state.add_base(KeyValues::SoldierXp, 20);
    translate_skill(SkillTypes::Tactics).get_skills_gains(&mut game);
    assert_eq!(game.intermediate_state.resolve(KeyValues::SoldierXp), u32::MAX as i64);
    assert_eq!(game.intermediate_state.resolve(KeyValues::Happiness), 0);
}

#[test]
fn folding_applies_the_resolved_values() {
    let mut game = Game::new();
    game.input.housing = HousingTypes::StrawBed;
    game.state.items.money = 1_000;
    game.state.rebirth_stats.coins = 5;
    game.intermediate_state.add_base(KeyValues::Money, 800);
    game.intermediate_state.add_base(KeyValues::Health, -250);
    game.intermediate_state.add_base(KeyValues::Happiness, 40);
    game.intermediate_state.add_base(KeyValues::Coins, 3);
    game.intermediate_state.add_base(KeyValues::Int, 10_500);
    game.intermediate_state.add_base(KeyValues::Dex, -10_500);
    game.intermediate_state.add_base(KeyValues::Mines, 10_000);
    game.intermediate_state.add_base(KeyValues::Latrine, 99_000);
    apply_contributions(&mut game);
    assert_eq!(game.state.items.income, 800);
    assert_eq!(game.state.items.money, 1_000 + 800 - 300);
    assert_eq!(game.state.life_stats.health, STARTING_HEALTH - 250);
    assert_eq!(game.state.life_stats.happiness, 40);
    assert_eq!(game.state.life_stats.age, 0);
    assert_eq!(game.state.rebirth_stats.coins, 8);
    let int = game.state.stats[StatTypes::Int.index()];
    assert_eq!((int.value, int.next_level_progress, int.next_level_percentage), (1, 500, 2));
    let dex = game.state.stats[StatTypes::Dex.index()];
    assert_eq!((dex.value, dex.next_level_progress, dex.next_level_percentage), (0, 0, 0));
    let mines = game.state.works[WorkTypes::Mines.index()];
    assert_eq!((mines.level, mines.next_level_progress), (1, 0));
    let latrine = game.state.works[WorkTypes::Latrine.index()];
    assert_eq!((latrine.level, latrine.next_level_progress), (0, 0));
    assert_eq!(game.state.rebirth_stats.max_job_levels[WorkTypes::Mines.index()], 1);
    assert_eq!(game.state.rebirth_stats.max_job_levels[WorkTypes::Latrine.index()], 0);
}

#[test]
fn the_best_level_is_never_lowered() {
    let mut game = Game::new();
    game.state.rebirth_stats.max_job_levels[WorkTypes::Mines.index()] = 30;
    game.intermediate_state.add_base(KeyValues::Mines, 10_000);
    apply_contributions(&mut game);
    assert_eq!(game.state.works[WorkTypes::Mines.index()].level, 1);
    assert_eq!(game.state.rebirth_stats.max_job_levels[WorkTypes::Mines.index()], 30);
}

#[test]
fn folding_holds_amounts_in_range() {
    let mut game = Game::new();
    game.state.items.money = i64::MAX - 10;
    game.state.life_stats.health = i64::MIN + 10;
    game.intermediate_state.add_base(KeyValues::Money, 1_000);
    game.intermediate_state.add_base(KeyValues::Health, -1_000);
    apply_contributions(&mut game);
    assert_eq!(game.state.items.money, i64::MAX);
    assert_eq!(game.state.life_stats.health, i64::MIN);
}

#[test]
fn age_advances_by_a_day() {
    let mut game = Game::new();
    advance_age(&mut game);
    assert_eq!(game.state.life_stats.age, 1);
    game.state.life_stats.age = u32::MAX - 1;
    advance_age(&mut game);
    assert_eq!(game.state.life_stats.age, u32::MAX);
    advance_age(&mut game);
    assert_eq!(game.state.life_stats.age, u32::MAX);
}

#[test]
fn work_unlocks_by_level_or_by_tier() {
    let mut game = Game::new();
    assert!(should_unlock_work(WorkTypes::Mines, &game));
    assert!(!should_unlock_work(WorkTypes::Latrine, &game));
    game.state.works[WorkTypes::Mines.index()].level = 9;
    assert!(!should_unlock_work(WorkTypes::Latrine, &game));
    game.state.works[WorkTypes::Mines.index()].level = 10;
    assert!(should_unlock_work(WorkTypes::Latrine, &game));
    assert!(!should_unlock_work(WorkTypes::GalleyRower, &game));

    let mut game = Game::new();
    game.state.rebirth_stats.class_tier = 1;
    assert!(should_unlock_work(WorkTypes::Latrine, &game));
    assert!(!should_unlock_work(WorkTypes::GalleyRower, &game));
    game.state.rebirth_stats.class_tier = 4;
    assert!(should_unlock_work(WorkTypes::GalleyRower, &game));
    assert!(should_unlock_work(WorkTypes::Fields, &game));
    assert!(should_unlock_work(WorkTypes::Mill, &game));
    assert!(!should_unlock_work(WorkTypes::Weaver, &game));
    game.state.rebirth_stats.class_tier = 5;
    assert!(should_unlock_work(WorkTypes::Weaver, &game));
    // No tier makes up for the level of the weaver or of the fisherman.
    game.state.rebirth_stats.class_tier = 50;
    assert!(!should_unlock_work(WorkTypes::Fisherman, &game));
    assert!(!should_unlock_work(WorkTypes::Farmer, &game));
    game.state.works[WorkTypes::Weaver.index()].level = 10;
    game.state.works[WorkTypes::Fisherman.index()].level = 10;
    assert!(should_unlock_work(WorkTypes::Fisherman, &game));
    assert!(should_unlock_work(WorkTypes::Farmer, &game));
}

#[test]
fn work_waits_for_its_tier() {
    let mut game = Game::new();
    game.state.works[WorkTypes::Mill.index()].level = 10;
    game.state.works[WorkTypes::Fisherman.index()].level = 10;
    assert!(!should_unlock_work(WorkTypes::Weaver, &game));
    assert!(!should_be_visible_work(WorkTypes::Weaver, &game));
    assert!(!should_unlock_work(WorkTypes::Farmer, &game));
    game.state.rebirth_stats.class_tier = 1;
    assert!(should_unlock_work(WorkTypes::Weaver, &game));
    assert!(should_be_visible_work(WorkTypes::Weaver, &game));
    assert!(!should_unlock_work(WorkTypes::Farmer, &game));
    assert!(!should_be_visible_work(WorkTypes::Farmer, &game));
    game.state.rebirth_stats.class_tier = 2;
    assert!(should_unlock_work(WorkTypes::Farmer, &game));
    assert!(should_be_visible_work(WorkTypes::Farmer, &game));
    assert!(should_be_visible_work(WorkTypes::Mines, &game));
}

#[test]
fn soldiers_unlock_rank_by_rank() {
    let mut game = Game::new();
    assert!(!should_unlock_work(WorkTypes::BagageBoy, &game));
    assert!(!should_be_visible_work(WorkTypes::BagageBoy, &game));
    game.state.rebirth_stats.class_tier = 3;
    assert!(should_unlock_work(WorkTypes::BagageBoy, &game));
    assert!(should_be_visible_work(WorkTypes::Pikeman, &game));
    assert!(!should_unlock_work(WorkTypes::Slinger, &game));
    game.state.works[WorkTypes::BagageBoy.index()].level = 10;
    assert!(should_unlock_work(WorkTypes::Slinger, &game));
    game.state.works[WorkTypes::Pikeman.index()].level = 10;
    assert!(!should_unlock_work(WorkTypes::FootCompanion, &game));
    game.state.rebirth_stats.class_tier = 4;
    assert!(should_unlock_work(WorkTypes::FootCompanion, &game));
    // The level of the farmer does nothing for the first soldier rank.
    let mut game = Game::new();
    game.state.works[WorkTypes::Farmer.index()].level = 10;
    assert!(!should_unlock_work(WorkTypes::BagageBoy, &game));
}

#[test]
fn items_unlock_by_tier_and_show_by_more() {
    let mut game = Game::new();
    assert!(should_unlock_boost_item(BoostItemTypes::Book, &game));
    assert!(should_be_visible_boost_item(BoostItemTypes::Book, &game));
    assert!(!should_unlock_boost_item(BoostItemTypes::Book3, &game));
    assert!(!should_be_visible_boost_item(BoostItemTypes::Book3, &game));
    assert!(!should_unlock_boost_item(BoostItemTypes::HealthKit, &game));

    assert!(should_unlock_boost_item(BoostItemTypes::IronPickAxe, &game));
    assert!(!should_be_visible_boost_item(BoostItemTypes::IronPickAxe, &game));
    game.state.works[WorkTypes::Mines.index()].level = 25;
    assert!(!should_be_visible_boost_item(BoostItemTypes::IronPickAxe, &game));
    game.state.works[WorkTypes::Mines.index()].level = 26;
    assert!(should_be_visible_boost_item(BoostItemTypes::IronPickAxe, &game));

    assert!(!should_be_visible_boost_item(BoostItemTypes::FarmersClothes, &game));
    game.state.items.boost_items[BoostItemTypes::RaggedClothes.index()].is_purchased = true;
    assert!(should_be_visible_boost_item(BoostItemTypes::FarmersClothes, &game));
    game.state.items.boost_items[BoostItemTypes::FarmersClothes.index()].is_purchased = true;
    assert!(!should_be_visible_boost_item(BoostItemTypes::CityClothes, &game));
    game.state.rebirth_stats.class_tier = 1;
    assert!(should_be_visible_boost_item(BoostItemTypes::CityClothes, &game));
    assert!(should_unlock_boost_item(BoostItemTypes::Book3, &game));
    game.state.rebirth_stats.class_tier = 3;
    assert!(should_unlock_boost_item(BoostItemTypes::HealthKit, &game));
    assert!(should_be_visible_boost_item(BoostItemTypes::HealthKit, &game));
}

#[test]
fn skills_show_by_tier_and_upgrade() {
    let mut game = Game::new();
    assert!(!should_be_visible_skill(SkillTypes::Mindfull, &game));
    game.state.rebirth_stats.unlocks.has_meditation = true;
    game.state.rebirth_stats.unlocks.has_military_tactics = true;
    assert!(!should_be_visible_skill(SkillTypes::Mindfull, &game));
    game.state.rebirth_stats.class_tier = 1;
    assert!(should_be_visible_skill(SkillTypes::Mindfull, &game));
    assert!(!should_be_visible_skill(SkillTypes::Tactics, &game));
    game.state.rebirth_stats.class_tier = 3;
    assert!(should_be_visible_skill(SkillTypes::Tactics, &game));
    game.state.rebirth_stats.unlocks.has_military_tactics = false;
    assert!(!should_be_visible_skill(SkillTypes::Tactics, &game));
    game.state.rebirth_stats.unlocks.has_meditation = false;
    assert!(!should_be_visible_skill(SkillTypes::Mindfull, &game));
}

#[test]
fn housing_and_tombs_wait_for_their_tier() {
    let mut game = Game::new();
    assert!(should_unlock_housing(HousingTypes::Tent, &game));
    assert!(!should_unlock_housing(HousingTypes::WoodenHut, &game));
    assert!(should_be_visible_tomb(TombTypes::ShallowGrave, &game));
    assert!(!should_be_visible_tomb(TombTypes::Coffin, &game));
    game.state.rebirth_stats.class_tier = 2;
    assert!(should_unlock_housing(HousingTypes::TownHouse, &game));
    assert!(should_be_visible_tomb(TombTypes::Tombstone, &game));
    assert!(!should_be_visible_tomb(TombTypes::Crypt, &game));
}

#[test]
fn refresh_flags_judges_every_family() {
    let mut game = Game::new();
    game.state.works[WorkTypes::Mines.index()].level = 26;
    game.state.items.boost_items[BoostItemTypes::RaggedClothes.index()].is_purchased = true;
    game.state.rebirth_stats.class_tier = 1;
    game.state.rebirth_stats.rebirth_upgrades[RebirthUpgradeTypes::Meditation.index()]
        .is_purchased = true;
    refresh_flags(&mut game);
    assert!(game.state.rebirth_stats.unlocks.has_meditation);
    assert!(!game.state.rebirth_stats.unlocks.has_military_tactics);
    for work in game.state.works.iter() {
        let unlocked = [WorkTypes::Mines, WorkTypes::Latrine].contains(&work.name);
        assert_eq!(work.is_unlocked, unlocked);
        assert_eq!(work.is_visible, work.name.index() <= WorkTypes::Fisherman.index());
    }
    for item in game.state.items.boost_items.iter() {
        assert_eq!(item.is_unlocked, item.name.index() <= BoostItemTypes::CityClothes.index());
        let hidden = [
            BoostItemTypes::CityClothes,
            BoostItemTypes::Leach,
            BoostItemTypes::PitchFork,
            BoostItemTypes::HealthKit,
        ];
        assert_eq!(item.is_visible, !hidden.contains(&item.name));
        assert_eq!(item.is_purchased, item.name == BoostItemTypes::RaggedClothes);
    }
    for housing in game.state.housing.iter() {
        assert_eq!(housing.is_unlocked, housing.name != HousingTypes::TownHouse);
    }
    assert!(game.state.skills[SkillTypes::Mindfull.index()].is_visible);
    assert!(!game.state.skills[SkillTypes::Tactics.index()].is_visible);
    for tomb in game.state.tombs.iter() {
        let shown = [TombTypes::ShallowGrave, TombTypes::Coffin].contains(&tomb.name);
        assert_eq!(tomb.is_visible, shown);
    }
    assert_eq!(game.state.works[WorkTypes::Mines.index()].level, 26);

    // A flag that no longer holds is taken back.
    game.state.rebirth_stats.class_tier = 0;
    game.state.rebirth_stats.rebirth_upgrades[RebirthUpgradeTypes::Meditation.index()]
        .is_purchased = false;
    refresh_flags(&mut game);
    assert!(!game.state.rebirth_stats.unlocks.has_meditation);
    assert!(!game.state.skills[SkillTypes::Mindfull.index()].is_visible);
    assert!(!game.state.works[WorkTypes::Weaver.index()].is_visible);
    assert!(!game.state.housing[HousingTypes::WoodenHut.index()].is_unlocked);
}

#[test]
fn policies_run_only_when_switched_on() {
    let mut game = Game::new();
    refresh_flags(&mut game);
    game.state.items.money = 10_000_000_000;
    game.state.items.income = 1_000_000;
    game.state.works[WorkTypes::Latrine.index()].is_unlocked = true;
    run_policies(&mut game);
    assert_eq!(game.input.work, WorkTypes::Mines);
    assert_eq!(game.input.housing, HousingTypes::StoneFloor);
    assert_eq!(game.state.items.money, 10_000_000_000);

    game.meta_data.options.auto_work = true;
    run_policies(&mut game);
    assert_eq!(game.input.work, WorkTypes::Latrine);
    assert_eq!(game.input.housing, HousingTypes::StoneFloor);
    assert_eq!(game.state.items.money, 10_000_000_000);

    game.meta_data.options.auto_work = false;
    game.meta_data.options.auto_living = true;
    game.input.work = WorkTypes::Mines;
    run_policies(&mut game);
    assert_eq!(game.input.work, WorkTypes::Mines);
    assert_eq!(game.input.housing, HousingTypes::Tent);

    game.meta_data.options.auto_living = false;
    game.meta_data.options.auto_buy_tomb = true;
    run_policies(&mut game);
    assert_eq!(game.state.items.money, 10_000_000_000 - 10_000_000);
    assert!(game.state.tombs[TombTypes::ShallowGrave.index()].is_purchased);
    assert!(!game.state.items.boost_items[BoostItemTypes::Book.index()].is_purchased);

    game.meta_data.options.auto_buy_tomb = false;
    game.meta_data.options.auto_buy_item = true;
    run_policies(&mut game);
    assert_eq!(game.state.items.money, 10_000_000_000 - 10_000_000 - 12_100_000);
    assert!(game.state.items.boost_items[BoostItemTypes::Book.index()].is_purchased);
}

#[test]
fn the_first_tick_of_a_fresh_game() {
    let mut game = Game::new();
    engine_run(&mut game);
    assert_eq!(game.state.life_stats.age, 1);
    assert_eq!(game.state.life_stats.health, STARTING_HEALTH - 5_000);
    assert_eq!(game.state.life_stats.happiness, 1_000);
    assert!(!game.state.life_stats.is_dying && !game.state.life_stats.dead);
    assert_eq!(game.state.items.income, 500);
    assert_eq!(game.state.items.money, 500);
    assert_eq!(game.state.rebirth_stats.coins, 0);
    let con = game.state.stats[StatTypes::Con.index()];
    assert_eq!((con.value, con.next_level_progress, con.next_level_percentage), (0, 1_000, 10));
    let str = game.state.stats[StatTypes::Str.index()];
    assert_eq!((str.value, str.next_level_progress, str.next_level_percentage), (0, 0, 0));
    let mines = game.state.works[WorkTypes::Mines.index()];
    assert_eq!((mines.level, mines.next_level_progress), (0, 1_000));
    assert!(mines.is_unlocked && mines.is_visible);
    let latrine = game.state.works[WorkTypes::Latrine.index()];
    assert!(!latrine.is_unlocked && latrine.is_visible);
    assert!(game.state.items.boost_items[BoostItemTypes::Book.index()].is_visible);
    assert!(!game.state.items.boost_items[BoostItemTypes::Book.index()].is_purchased);
    assert_eq!(game.input.work, WorkTypes::Mines);
    assert_eq!(game.input.housing, HousingTypes::StoneFloor);
    assert_eq!(game.intermediate_state.contributions().len(), 5);
    assert!(game.inputs.events.is_empty());
}

#[test]
fn ten_ticks_in_the_mines_make_a_level() {
    let mut game = Game::new();
    for _ in 0..9 {
        engine_run(&mut game);
    }
    assert_eq!(game.state.works[WorkTypes::Mines.index()].level, 0);
    assert_eq!(game.state.works[WorkTypes::Mines.index()].next_level_progress, 9_000);
    engine_run(&mut game);
    assert_eq!(game.state.works[WorkTypes::Mines.index()].level, 1);
    assert_eq!(game.state.works[WorkTypes::Mines.index()].next_level_progress, 0);
    assert_eq!(game.state.rebirth_stats.max_job_levels[WorkTypes::Mines.index()], 1);
    assert_eq!(game.state.stats[StatTypes::Con.index()].value, 1);
    assert_eq!(game.state.items.money, 5_000);
    assert_eq!(game.state.life_stats.age, 10);
}

#[test]
fn automation_follows_the_state_update() {
    let mut game = Game::new();
    set_full_auto(&mut game.meta_data.options);
    engine_run(&mut game);
    // The first tick earns 500: enough for the straw bed, not for the tent.
    assert_eq!(game.input.housing, HousingTypes::StrawBed);
    assert_eq!(game.input.work, WorkTypes::Mines);
    assert_eq!(game.state.items.money, 500);
    engine_run(&mut game);
    assert_eq!(game.state.items.money, 500 + 500 - 300);
    assert_eq!(game.state.life_stats.happiness, 1_000 + 1_500);
    // The ten levels that unlock the latrine take 10 + 20 + ... + 100 = 550
    // ticks; the character moves up in the tick that unlocks it.
    while game.state.works[WorkTypes::Mines.index()].level < 10 {
        assert_eq!(game.input.work, WorkTypes::Mines);
        engine_run(&mut game);
    }
    assert_eq!(game.state.life_stats.age, 550);
    assert_eq!(game.input.work, WorkTypes::Latrine);
    // Book: 100 units, bought as soon as the money is there.
    assert!(game.state.items.boost_items[BoostItemTypes::Book.index()].is_purchased);
    engine_run(&mut game);
    assert_eq!(game.state.items.income, 1_000);
    assert_eq!(game.state.works[WorkTypes::Latrine.index()].next_level_progress, 1_000);
}

#[test]
fn death_sets_in_past_the_lifespan_and_happens_once() {
    let mut game = Game::new();
    game.state.life_stats.age = LIFESPAN;
    game.state.life_stats.health = 0;
    game.state.items.money = 10_000;
    engine_run(&mut game);
    assert_eq!(game.state.life_stats.age, LIFESPAN + 1);
    assert!(game.state.life_stats.is_dying);
    assert!(!game.state.life_stats.dead);
    assert_eq!(game.state.items.money, 10_500);

    engine_run(&mut game);
    assert!(game.state.life_stats.is_dying);
    assert!(game.state.life_stats.dead);
    assert_eq!(game.state.life_stats.age, LIFESPAN + 1);
    assert_eq!(game.state.items.money, 10_500);

    let health = game.state.life_stats.health;
    let progress = game.state.works[WorkTypes::Mines.index()].next_level_progress;
    for _ in 0..5 {
        engine_run(&mut game);
        assert!(game.state.life_stats.dead);
        assert!(game.state.life_stats.is_dying);
        assert_eq!(game.state.life_stats.age, LIFESPAN + 1);
        assert_eq!(game.state.life_stats.health, health);
        assert_eq!(game.state.items.money, 10_500);
        assert_eq!(game.state.works[WorkTypes::Mines.index()].next_level_progress, progress);
    }
}

#[test]
fn death_sets_in_by_age_alone_and_by_health_alone() {
    let mut game = Game::new();
    game.state.life_stats.age = LIFESPAN - 1;
    engine_run(&mut game);
    assert_eq!(game.state.life_stats.age, LIFESPAN);
    assert!(!game.state.life_stats.is_dying);
    engine_run(&mut game);
    assert!(game.state.life_stats.is_dying);
    assert!(game.state.life_stats.health > 0);

    let mut game = Game::new();
    game.state.life_stats.health = 5_001;
    engine_run(&mut game);
    assert_eq!(game.state.life_stats.health, 1);
    assert!(!game.state.life_stats.is_dying);
    engine_run(&mut game);
    assert_eq!(game.state.life_stats.health, -4_999);
    assert!(game.state.life_stats.is_dying);
    assert_eq!(game.state.life_stats.age, 2);
}

#[test]
fn character_death_update_only_touches_the_dying() {
    let mut game = Game::new();
    character_death_update(&mut game);
    assert!(!game.state.life_stats.dead);
    game.state.life_stats.is_dying = true;
    character_death_update(&mut game);
    assert!(game.state.life_stats.dead);
    character_death_update(&mut game);
    assert!(game.state.life_stats.dead);
}

#[test]
fn run_until_dead_ends_in_death() {
    let mut game = Game::new();
    run_until_dead(&mut game);
    assert!(game.state.life_stats.dead);
    assert!(game.state.life_stats.is_dying);
    // The mines take 5 units of health a tick from 100_000.
    assert_eq!(game.state.life_stats.age, 20_000);
    assert_eq!(game.state.life_stats.health, 0);
    assert_eq!(game.state.items.money, 10_000_000);
    let mines = game.state.works[WorkTypes::Mines.index()];
    assert_eq!((mines.level, mines.next_level_progress), (62, 470_000));
    assert_eq!(game.state.rebirth_stats.max_job_levels[WorkTypes::Mines.index()], 62);

    // Once dead, nothing more happens.
    run_until_dead(&mut game);
    assert_eq!(game.state.life_stats.age, 20_000);
    assert_eq!(game.state.items.money, 10_000_000);
}

#[test]
fn run_until_dead_ends_by_age_for_the_healthy() {
    let mut game = Game::new();
    game.input.work = WorkTypes::Farmer;
    run_until_dead(&mut game);
    assert!(game.state.life_stats.dead);
    assert_eq!(game.state.life_stats.age, LIFESPAN + 1);
    assert_eq!(game.state.life_stats.health, STARTING_HEALTH);
    assert_eq!(game.state.items.money, 40_000 * (LIFESPAN as i64 + 1));
}

#[test]
fn run_until_dead_finishes_the_dying() {
    let mut game = Game::new();
    game.state.life_stats.is_dying = true;
    run_until_dead(&mut game);
    assert!(game.state.life_stats.dead);
    assert_eq!(game.state.life_stats.age, 0);
}
