use incremental_core::game::Game;
use incremental_core::input::boost_item::BoostItemTypes;
use incremental_core::input::housing::HousingTypes;
use incremental_core::input::rebirth_upgrade::RebirthUpgradeTypes;
use incremental_core::input::skill::SkillTypes;
use incremental_core::input::work::WorkTypes;
use incremental_core::input::Input;
use incremental_core::state::items::{BoostItemState, Items};
use incremental_core::state::life_stats::STARTING_HEALTH;
use incremental_core::state::rebirth_stats::{RebirthStats, RebirthUpgradeState};
use incremental_core::state::state_container::{new_game, rebirth, StateContainer};
use incremental_core::util::{
    do_rebirth, do_test_rebirth, get_upgrades_by_max_cost, get_upgrades_up_to_current_tier,
    get_upgrades_up_to_tier, get_upgrades_up_to_tier_max_cost, run_until_dead, set_full_auto,
};
use incremental_core::world_content::world::World;

fn purchased_upgrades(stats: &RebirthStats) -> Vec<RebirthUpgradeTypes> {
    stats.rebirth_upgrades.iter().filter(|u| u.is_purchased).map(|u| u.name).collect()
}

fn assert_starts_afresh(state: &StateContainer) {
    assert_eq!(state.items.money, 0);
    assert_eq!(state.items.income, 0);
    assert_eq!(state.life_stats.age, 0);
    assert_eq!(state.life_stats.health, STARTING_HEALTH);
    assert_eq!(state.life_stats.happiness, 0);
    assert!(!state.life_stats.is_dying && !state.life_stats.dead);
    assert_eq!(state.items.boost_items.len(), 14);
    for (i, item) in state.items.boost_items.iter().enumerate() {
        assert_eq!(item.name.index(), i);
        assert!(!item.is_purchased && !item.is_unlocked && !item.is_visible);
    }
    assert_eq!(state.stats.len(), 6);
    for (i, stat) in state.stats.iter().enumerate() {
        assert_eq!(stat.name.index(), i);
        assert_eq!((stat.value, stat.next_level_progress, stat.next_level_percentage), (0, 0, 0));
    }
    assert_eq!(state.works.len(), 15);
    for (i, work) in state.works.iter().enumerate() {
        assert_eq!(work.name.index(), i);
        assert_eq!((work.level, work.next_level_progress), (0, 0));
        assert!(!work.is_unlocked && !work.is_visible);
    }
    assert_eq!(state.housing.len(), 5);
    for (i, housing) in state.housing.iter().enumerate() {
        assert_eq!(housing.name.index(), i);
        assert!(!housing.is_unlocked);
    }
    assert_eq!(state.skills.len(), 2);
    for (i, skill) in state.skills.iter().enumerate() {
        assert_eq!(skill.name.index(), i);
        assert_eq!(skill.level, 0);
        assert!(!skill.is_visible);
    }
    assert_eq!(state.tombs.len(), 4);
    for (i, tomb) in state.tombs.iter().enumerate() {
        assert_eq!(tomb.name.index(), i);
        assert!(!tomb.is_purchased && !tomb.is_visible);
    }
}

#[test]
fn items_start_empty() {
    let items = Items::new();
    assert_eq!(items.money, 0);
    assert_eq!(items.income, 0);
    assert_eq!(items.boost_items.len(), 14);
    let book = BoostItemState::new(BoostItemTypes::Book);
    assert_eq!(book.name, BoostItemTypes::Book);
    assert!(!book.is_purchased && !book.is_unlocked && !book.is_visible);
}

#[test]
fn rebirth_stats_start_empty() {
    let stats = RebirthStats::new();
    assert_eq!(stats.class_tier, 0);
    assert_eq!(stats.coins, 0);
    assert_eq!(stats.rebirth_count, 0);
    assert_eq!(stats.max_job_levels, vec![0u32; 15]);
    assert_eq!(stats.rebirth_upgrades.len(), 5);
    for (i, upgrade) in stats.rebirth_upgrades.iter().enumerate() {
        assert_eq!(upgrade.name.index(), i);
        assert!(!upgrade.is_purchased);
    }
    assert!(!stats.unlocks.has_meditation && !stats.unlocks.has_military_tactics);
    let upgrade = RebirthUpgradeState::new(RebirthUpgradeTypes::Inheritance);
    assert_eq!(upgrade.name, RebirthUpgradeTypes::Inheritance);
    assert!(!upgrade.is_purchased);
}

#[test]
fn new_game_starts_afresh() {
    let world = World::new();
    let state = new_game(&world);
    assert_starts_afresh(&state);
    assert_eq!(state.rebirth_stats.class_tier, 0);
    assert_eq!(state.rebirth_stats.rebirth_count, 0);
    assert_eq!(state.rebirth_stats.coins, 0);
    assert!(purchased_upgrades(&state.rebirth_stats).is_empty());
    let input = Input::new(&state, &world);
    assert_eq!(input.work, WorkTypes::Mines);
    assert_eq!(input.housing, HousingTypes::StoneFloor);
}

#[test]
fn input_new_takes_the_lowest_that_is_unlocked() {
    let world = World::new();
    let mut state = new_game(&world);
    state.works[WorkTypes::Fields.index()].is_unlocked = true;
    state.works[WorkTypes::Farmer.index()].is_unlocked = true;
    state.housing[HousingTypes::TownHouse.index()].is_unlocked = true;
    let input = Input::new(&state, &world);
    assert_eq!(input.work, WorkTypes::Fields);
    assert_eq!(input.housing, HousingTypes::TownHouse);
    state.works[WorkTypes::Mines.index()].is_unlocked = true;
    state.housing[HousingTypes::StrawBed.index()].is_unlocked = true;
    let input = Input::new(&state, &world);
    assert_eq!(input.work, WorkTypes::Mines);
    assert_eq!(input.housing, HousingTypes::StrawBed);
}

#[test]
fn rebirth_carries_the_rebirth_stats_over_as_they_are() {
    let world = World::new();
    let mut stats = RebirthStats::new();
    stats.class_tier = 4;
    stats.coins = 123_456;
    stats.rebirth_count = 7;
    stats.max_job_levels[WorkTypes::Weaver.index()] = 44;
    stats.rebirth_upgrades[RebirthUpgradeTypes::Inheritance.index()].is_purchased = true;
    stats.unlocks.has_meditation = true;
    let state = rebirth(&world, stats);
    assert_starts_afresh(&state);
    assert_eq!(state.rebirth_stats.class_tier, 4);
    assert_eq!(state.rebirth_stats.coins, 123_456);
    assert_eq!(state.rebirth_stats.rebirth_count, 7);
    assert_eq!(state.rebirth_stats.max_job_levels[WorkTypes::Weaver.index()], 44);
    assert_eq!(state.rebirth_stats.max_job_levels[WorkTypes::Mines.index()], 0);
    assert_eq!(purchased_upgrades(&state.rebirth_stats), vec![RebirthUpgradeTypes::Inheritance]);
    assert!(state.rebirth_stats.unlocks.has_meditation);
    assert!(!state.rebirth_stats.unlocks.has_military_tactics);
}

#[test]
fn upgrades_up_to_a_tier() {
    let mut stats = RebirthStats::new();
    get_upgrades_up_to_tier(&mut stats, 0);
    assert!(purchased_upgrades(&stats).is_empty());
    get_upgrades_up_to_tier(&mut stats, 1);
    assert_eq!(purchased_upgrades(&stats), vec![RebirthUpgradeTypes::AcceptingDeath]);
    get_upgrades_up_to_tier(&mut stats, 2);
    assert_eq!(
        purchased_upgrades(&stats),
        vec![
            RebirthUpgradeTypes::AcceptingDeath,
            RebirthUpgradeTypes::QuickLearner,
            RebirthUpgradeTypes::Meditation,
        ]
    );
    get_upgrades_up_to_tier(&mut stats, u32::MAX);
    assert_eq!(purchased_upgrades(&stats).len(), 5);
    assert_eq!(stats.class_tier, 0);
    assert_eq!(stats.coins, 0);
}

#[test]
fn upgrades_up_to_the_current_tier() {
    let mut stats = RebirthStats::new();
    stats.class_tier = 3;
    stats.coins = 5;
    get_upgrades_up_to_current_tier(&mut stats);
    assert_eq!(
        purchased_upgrades(&stats),
        vec![
            RebirthUpgradeTypes::AcceptingDeath,
            RebirthUpgradeTypes::QuickLearner,
            RebirthUpgradeTypes::Meditation,
            RebirthUpgradeTypes::Inheritance,
        ]
    );
    assert_eq!(stats.class_tier, 3);
    assert_eq!(stats.coins, 5);
    let mut stats = RebirthStats::new();
    get_upgrades_up_to_current_tier(&mut stats);
    assert!(purchased_upgrades(&stats).is_empty());
}

#[test]
fn upgrades_by_cost() {
    let mut stats = RebirthStats::new();
    get_upgrades_by_max_cost(&mut stats, 999);
    assert!(purchased_upgrades(&stats).is_empty());
    get_upgrades_by_max_cost(&mut stats, 8_000);
    assert_eq!(
        purchased_upgrades(&stats),
        vec![
            RebirthUpgradeTypes::AcceptingDeath,
            RebirthUpgradeTypes::QuickLearner,
            RebirthUpgradeTypes::Meditation,
        ]
    );
    get_upgrades_by_max_cost(&mut stats, i64::MAX);
    assert_eq!(purchased_upgrades(&stats).len(), 5);
}

#[test]
fn upgrades_by_tier_and_cost() {
    let mut stats = RebirthStats::new();
    get_upgrades_up_to_tier_max_cost(&mut stats, 2, 4_000);
    assert_eq!(
        purchased_upgrades(&stats),
        vec![RebirthUpgradeTypes::AcceptingDeath, RebirthUpgradeTypes::QuickLearner]
    );
    let mut stats = RebirthStats::new();
    get_upgrades_up_to_tier_max_cost(&mut stats, 1, i64::MAX);
    assert_eq!(purchased_upgrades(&stats), vec![RebirthUpgradeTypes::AcceptingDeath]);
    let mut stats = RebirthStats::new();
    get_upgrades_up_to_tier_max_cost(&mut stats, 99, 3_999);
    assert_eq!(purchased_upgrades(&stats), vec![RebirthUpgradeTypes::AcceptingDeath]);
}

#[test]
fn granting_upgrades_never_takes_one_away() {
    let mut stats = RebirthStats::new();
    stats.rebirth_upgrades[RebirthUpgradeTypes::MilitaryTactics.index()].is_purchased = true;
    get_upgrades_up_to_tier_max_cost(&mut stats, 0, 0);
    assert_eq!(purchased_upgrades(&stats), vec![RebirthUpgradeTypes::MilitaryTactics]);
    get_upgrades_up_to_tier(&mut stats, 1);
    assert_eq!(
        purchased_upgrades(&stats),
        vec![RebirthUpgradeTypes::AcceptingDeath, RebirthUpgradeTypes::MilitaryTactics]
    );
}

#[test]
fn unlocks_follow_the_purchased_upgrades() {
    let mut stats = RebirthStats::new();
    stats.refresh_unlocks();
    assert!(!stats.unlocks.has_meditation && !stats.unlocks.has_military_tactics);
    stats.rebirth_upgrades[RebirthUpgradeTypes::MilitaryTactics.index()].is_purchased = true;
    stats.refresh_unlocks();
    assert!(!stats.unlocks.has_meditation && stats.unlocks.has_military_tactics);
    stats.rebirth_upgrades[RebirthUpgradeTypes::Meditation.index()].is_purchased = true;
    stats.rebirth_upgrades[RebirthUpgradeTypes::MilitaryTactics.index()].is_purchased = false;
    stats.refresh_unlocks();
    assert!(stats.unlocks.has_meditation && !stats.unlocks.has_military_tactics);
}

#[test]
fn a_rebirth_keeps_what_was_achieved() {
    let mut game = Game::new();
    set_full_auto(&mut game.meta_data.options);
    game.input.work = WorkTypes::Fields;
    game.state.rebirth_stats.class_tier = 2;
    game.state.rebirth_stats.rebirth_count = 8;
    game.state.rebirth_stats.coins = 8_000;
    game.state.rebirth_stats.rebirth_upgrades[RebirthUpgradeTypes::AcceptingDeath.index()]
        .is_purchased = true;
    game.state.tombs[0].is_purchased = true;
    run_until_dead(&mut game);
    assert!(game.state.life_stats.dead);
    let before_levels = game.state.rebirth_stats.max_job_levels.clone();
    let before_coins = game.state.rebirth_stats.coins;
    assert!(before_coins > 8_000);
    assert!(before_levels.iter().any(|level| *level > 0));

    do_test_rebirth(&mut game);
    assert_starts_afresh(&game.state);
    assert_eq!(game.state.rebirth_stats.class_tier, 2);
    assert_eq!(game.state.rebirth_stats.rebirth_count, 9);
    assert_eq!(game.state.rebirth_stats.coins, before_coins);
    assert_eq!(game.state.rebirth_stats.max_job_levels, before_levels);
    assert_eq!(purchased_upgrades(&game.state.rebirth_stats), vec![RebirthUpgradeTypes::AcceptingDeath]);
    assert_eq!(game.input.work, WorkTypes::Mines);
    assert_eq!(game.input.housing, HousingTypes::StoneFloor);
    assert!(game.meta_data.options.auto_work);

    do_test_rebirth(&mut game);
    assert_eq!(game.state.rebirth_stats.rebirth_count, 10);
    assert_eq!(game.state.rebirth_stats.class_tier, 2);
    assert_eq!(purchased_upgrades(&game.state.rebirth_stats), vec![RebirthUpgradeTypes::AcceptingDeath]);
}

#[test]
fn a_rebirth_grants_the_upgrades_within_reach() {
    let mut game = Game::new();
    game.state.rebirth_stats.class_tier = 3;
    game.state.rebirth_stats.rebirth_count = u32::MAX - 1;
    game.state.rebirth_stats.rebirth_upgrades[RebirthUpgradeTypes::MilitaryTactics.index()]
        .is_purchased = true;
    game.state.items.money = 77;
    game.state.skills[SkillTypes::Tactics.index()].level = 3;
    do_rebirth(&mut game, 2, 4_000);
    assert_starts_afresh(&game.state);
    assert_eq!(game.state.rebirth_stats.class_tier, 3);
    assert_eq!(game.state.rebirth_stats.rebirth_count, u32::MAX);
    assert_eq!(
        purchased_upgrades(&game.state.rebirth_stats),
        vec![
            RebirthUpgradeTypes::AcceptingDeath,
            RebirthUpgradeTypes::QuickLearner,
            RebirthUpgradeTypes::MilitaryTactics,
        ]
    );
    assert_eq!(game.input.work, WorkTypes::Mines);
}

#[test]
fn a_rebirth_without_reach_grants_nothing() {
    let mut game = Game::new();
    do_rebirth(&mut game, 0, i64::MAX);
    assert_eq!(game.state.rebirth_stats.rebirth_count, 1);
    assert!(purchased_upgrades(&game.state.rebirth_stats).is_empty());
    do_rebirth(&mut game, u32::MAX, 0);
    assert_eq!(game.state.rebirth_stats.rebirth_count, 2);
    assert!(purchased_upgrades(&game.state.rebirth_stats).is_empty());
}

#[test]
fn check_accepts_what_the_library_builds() {
    let world = World::new();
    assert!(world.check());
    let state = new_game(&world);
    assert!(state.check());
    let mut game = Game::new();
    assert!(game.check());
    run_until_dead(&mut game);
    assert!(game.check());
    do_test_rebirth(&mut game);
    assert!(game.check());
}

#[test]
fn check_refuses_tables_out_of_order() {
    let mut game = Game::new();
    game.state.works.swap(0, 1);
    assert!(!game.state.check());
    assert!(!game.check());
    game.state.works.swap(0, 1);
    assert!(game.check());

    game.state.tombs.pop();
    assert!(!game.check());
    let mut game = Game::new();
    game.state.rebirth_stats.max_job_levels.push(0);
    assert!(!game.check());
    let mut game = Game::new();
    game.state.rebirth_stats.rebirth_upgrades.swap(1, 2);
    assert!(!game.check());
    let mut game = Game::new();
    game.state.items.boost_items.swap(3, 4);
    assert!(!game.check());
    let mut game = Game::new();
    game.state.stats.remove(0);
    assert!(!game.check());
    let mut game = Game::new();
    game.state.skills.swap(0, 1);
    assert!(!game.check());
    let mut game = Game::new();
    game.state.housing.clear();
    assert!(!game.check());
}

#[test]
fn check_refuses_a_world_with_negative_prices() {
    let mut world = World::new();
    world.boost_items[2].purchasing_cost = -1;
    assert!(!world.check());
    let mut world = World::new();
    world.tombs[0].purchasing_cost = -1;
    assert!(!world.check());
    let mut world = World::new();
    world.housing[4].upkeep = -1;
    assert!(!world.check());
    let mut world = World::new();
    world.housing[4].upkeep = 0;
    world.boost_items[2].purchasing_cost = 0;
    assert!(world.check());
    world.works.swap(2, 3);
    assert!(!world.check());
    let mut game = Game::new();
    game.world.rebirth_upgrades.pop();
    assert!(!game.check());
}

#[test]
fn a_world_with_other_prices_is_played_by_its_own_prices() {
    let mut game = Game::new();
    game.world.boost_items[0].purchasing_cost = 5;
    game.world.works[0].money = 7;
    assert!(game.check());
    incremental_core::engine::engine_run(&mut game);
    assert_eq!(game.state.items.money, 7);
    game.meta_data.options.auto_buy_item = true;
    incremental_core::engine::engine_run(&mut game);
    assert!(game.state.items.boost_items[0].is_purchased);
    assert_eq!(game.state.items.money, 14 - 5);
}
