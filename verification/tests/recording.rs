use incremental_core::engine::auto_functions::register_auto_settings;
use incremental_core::game::Game;
use incremental_core::input::activity::ActivityTypes;
use incremental_core::input::options::{AutoSettingTypes, Options};
use incremental_core::input::Recordable;
use incremental_core::input_recording::Inputs;
use incremental_core::meta::MetaData;
use incremental_core::util::{balance_activities, set_full_auto};

fn noted(inputs: &Inputs) -> Vec<(u32, String)> {
    inputs.events.iter().map(|event| (event.tick, event.key.clone())).collect()
}

#[test]
fn auto_settings_have_their_record_keys() {
    let expected = [
        (AutoSettingTypes::AutoWorkTrue, "Auto Work True"),
        (AutoSettingTypes::AutoWorkFalse, "Auto Work False"),
        (AutoSettingTypes::AutoLivingTrue, "Auto Living True"),
        (AutoSettingTypes::AutoLivingFalse, "Auto Living False"),
        (AutoSettingTypes::AutoBuyItemTrue, "Auto Buy Item True"),
        (AutoSettingTypes::AutoBuyItemFalse, "Auto Buy Item False"),
        (AutoSettingTypes::AutoBuyBlessingTrue, "Auto Buy Blessing True"),
        (AutoSettingTypes::AutoBuyBlessingFalse, "Auto Buy Blessing False"),
        (AutoSettingTypes::AutoBuyTombTrue, "Auto Buy Tomb True"),
        (AutoSettingTypes::AutoBuyTombFalse, "Auto Buy Tomb False"),
        (AutoSettingTypes::AutoRebirthTrue, "Auto Rebirth True"),
        (AutoSettingTypes::AutoRebirthFalse, "Auto Rebirth False"),
    ];
    for (setting, key) in expected {
        assert_eq!(setting.to_record_key(), key);
    }
}

#[test]
fn activities_have_their_record_keys() {
    assert_eq!(ActivityTypes::Training.to_record_key(), "Training");
    assert_eq!(ActivityTypes::Studying.to_record_key(), "Studying");
    assert_eq!(ActivityTypes::Flirting.to_record_key(), "Flirting");
    assert_eq!(ActivityTypes::Praying.to_record_key(), "Praying");
}

#[test]
fn register_input_on_tick_appends() {
    let mut inputs = Inputs::new();
    assert!(inputs.events.is_empty());
    inputs.register_input_on_tick(7, ActivityTypes::Praying);
    inputs.register_input_on_tick(3, AutoSettingTypes::AutoRebirthTrue);
    assert_eq!(
        noted(&inputs),
        vec![(7, "Praying".to_string()), (3, "Auto Rebirth True".to_string())]
    );
}

#[test]
fn register_input_notes_the_age_as_the_tick() {
    let mut game = Game::new();
    game.state.life_stats.age = 42;
    game.register_input(AutoSettingTypes::AutoBuyBlessingFalse);
    assert_eq!(noted(&game.inputs), vec![(42, "Auto Buy Blessing False".to_string())]);
}

#[test]
fn register_auto_settings_notes_all_four_toggles_off() {
    let mut game = Game::new();
    register_auto_settings(&mut game);
    assert_eq!(
        noted(&game.inputs),
        vec![
            (0, "Auto Work False".to_string()),
            (0, "Auto Living False".to_string()),
            (0, "Auto Buy Item False".to_string()),
            (0, "Auto Buy Tomb False".to_string()),
        ]
    );
    assert_eq!(game.state.items.money, 0);
    assert!(!game.meta_data.options.auto_work);
}

#[test]
fn register_auto_settings_notes_each_toggle_as_it_stands() {
    let mut game = Game::new();
    game.state.life_stats.age = 9;
    game.meta_data.options.auto_living = true;
    game.meta_data.options.auto_buy_tomb = true;
    game.meta_data.options.auto_rebirth = true;
    register_auto_settings(&mut game);
    set_full_auto(&mut game.meta_data.options);
    game.state.life_stats.age = 10;
    register_auto_settings(&mut game);
    assert_eq!(
        noted(&game.inputs),
        vec![
            (9, "Auto Work False".to_string()),
            (9, "Auto Living True".to_string()),
            (9, "Auto Buy Item False".to_string()),
            (9, "Auto Buy Tomb True".to_string()),
            (10, "Auto Work True".to_string()),
            (10, "Auto Living True".to_string()),
            (10, "Auto Buy Item True".to_string()),
            (10, "Auto Buy Tomb True".to_string()),
        ]
    );
}

#[test]
fn set_full_auto_switches_the_four_policies_on() {
    let mut options = Options::default();
    assert!(!options.auto_work && !options.auto_living);
    assert!(!options.auto_buy_item && !options.auto_buy_tomb);
    options.paused = true;
    options.auto_end_early_criteria = 77;
    set_full_auto(&mut options);
    assert!(options.auto_work && options.auto_living);
    assert!(options.auto_buy_item && options.auto_buy_tomb);
    assert!(!options.auto_buy_blessing && !options.auto_rebirth && !options.auto_end_early);
    assert!(!options.show_bought_items && !options.show_bought_upgrades && !options.show_recorded);
    assert!(options.paused);
    assert_eq!(options.auto_end_early_criteria, 77);
}

#[test]
fn meta_data_starts_with_everything_off() {
    let meta_data = MetaData::new();
    assert_eq!(meta_data.saved_ticks, 0);
    assert!(!meta_data.options.auto_work && !meta_data.options.paused);
}

#[test]
fn balance_activities_notes_one_every_200_ticks() {
    let mut inputs = Inputs::new();
    balance_activities(&mut inputs, 0, 1_000, &[ActivityTypes::Training, ActivityTypes::Studying]);
    assert_eq!(
        noted(&inputs),
        vec![
            (0, "Training".to_string()),
            (200, "Studying".to_string()),
            (400, "Training".to_string()),
            (600, "Studying".to_string()),
        ]
    );
}

#[test]
fn balance_activities_starts_where_it_is_told() {
    let mut inputs = Inputs::new();
    inputs.register_input_on_tick(1, AutoSettingTypes::AutoWorkTrue);
    balance_activities(
        &mut inputs,
        100,
        901,
        &[ActivityTypes::Praying, ActivityTypes::Flirting, ActivityTypes::Training],
    );
    assert_eq!(
        noted(&inputs),
        vec![
            (1, "Auto Work True".to_string()),
            (100, "Praying".to_string()),
            (300, "Flirting".to_string()),
            (500, "Training".to_string()),
            (700, "Praying".to_string()),
        ]
    );
}

#[test]
fn balance_activities_notes_nothing_in_a_short_span() {
    let mut inputs = Inputs::new();
    balance_activities(&mut inputs, 0, 200, &[ActivityTypes::Training]);
    balance_activities(&mut inputs, 500, 700, &[ActivityTypes::Training]);
    balance_activities(&mut inputs, 900, 300, &[]);
    assert!(inputs.events.is_empty());
    balance_activities(&mut inputs, 0, 201, &[ActivityTypes::Training]);
    assert_eq!(noted(&inputs), vec![(0, "Training".to_string())]);
}

#[test]
fn balance_activities_reaches_the_last_ticks() {
    let mut inputs = Inputs::new();
    balance_activities(&mut inputs, u32::MAX - 450, u32::MAX, &[ActivityTypes::Studying]);
    assert_eq!(
        noted(&inputs),
        vec![
            (u32::MAX - 450, "Studying".to_string()),
            (u32::MAX - 250, "Studying".to_string()),
        ]
    );
}
