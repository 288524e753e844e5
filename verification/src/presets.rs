use crate::input::rebirth_upgrade::RebirthUpgradeTypes;
use crate::input::work::WorkTypes;
use crate::input::{first_unlocked_housing, first_unlocked_work, Input};
use crate::meta::MetaData;
use crate::state::items::ItemsView;
use crate::state::life_stats::{LifeStats, LIFESPAN};
use crate::state::rebirth_stats::{RebirthStats, RebirthStatsView, RebirthUpgradeState};
use crate::state::state_container::{new_game, rebirth, StateContainer, StateView};
use crate::world_content::world::World;
use vstd::prelude::*;

verus! {

/// A character with ten units of money on the last day of the lifespan.
pub open spec fn poor_death() -> StateView {
    StateView {
        items: ItemsView { money: 10_000, ..ItemsView::fresh() },
        life_stats: LifeStats { age: LIFESPAN, ..LifeStats::fresh() },
        ..StateView::fresh()
    }
}

/// A character with ten million units of money on the last day of the
/// lifespan.
pub open spec fn rich_death() -> StateView {
    StateView {
        items: ItemsView { money: 10_000_000_000, ..ItemsView::fresh() },
        life_stats: LifeStats { age: LIFESPAN, ..LifeStats::fresh() },
        ..StateView::fresh()
    }
}

/// What a character of the second tier can be expected to carry over: eight
/// coins, eight rebirths, level thirty in the first five jobs, and the first
/// upgrade.
pub open spec fn t2_rebirth_stats() -> RebirthStatsView {
    let fresh = RebirthStatsView::fresh();
    RebirthStatsView {
        class_tier: 2,
        coins: 8_000,
        rebirth_count: 8,
        max_job_levels: Seq::new(
            fresh.max_job_levels.len(),
            |i: int|
                if i <= WorkTypes::Mill.rank() {
                    30u32
                } else {
                    0u32
                },
        ),
        rebirth_upgrades: fresh.rebirth_upgrades.update(
            RebirthUpgradeTypes::AcceptingDeath.rank() as int,
            RebirthUpgradeState { name: RebirthUpgradeTypes::AcceptingDeath, is_purchased: true },
        ),
        ..fresh
    }
}

/// A character of the third tier after the sixteenth rebirth, with ten
/// million units of money and as many coins.
pub open spec fn full_unlock() -> StateView {
    let carried = RebirthStatsView {
        class_tier: 3,
        coins: 10_000_000_000,
        rebirth_count: 16,
        ..RebirthStatsView::fresh()
    };
    StateView {
        items: ItemsView { money: 10_000_000_000, ..ItemsView::fresh() },
        ..StateView::starting_with(carried)
    }
}

/// Whether the choices are those that a run in `state` starts with.
pub open spec fn starts_in(input: Input, state: StateView) -> bool {
    input.work == first_unlocked_work(state) && input.housing == first_unlocked_housing(state)
}

/// The scenarios to start a game from, each under its name, in the order of
/// the names.
pub fn get_presets(
    world: &World,
) -> (presets: Vec<(&'static str, (StateContainer, Input, MetaData))>)
    ensures
        presets@.len() == 5,
        presets@[0].0@ == "1: poor death"@,
        presets@[0].1.0@ == poor_death(),
        presets@[1].0@ == "2: rich death"@,
        presets@[1].1.0@ == rich_death(),
        presets@[2].0@ == "3: T2 expected"@,
        presets@[2].1.0@ == StateView::starting_with(t2_rebirth_stats()),
        presets@[3].0@ == "4: full unlock"@,
        presets@[3].1.0@ == full_unlock(),
        presets@[4].0@ == "5: saved ticks"@,
        presets@[4].1.0@ == StateView::fresh(),
        forall|i: int| 0 <= i < 4 ==> (#[trigger] presets@[i]).1.2 == MetaData::fresh(),
        presets@[4].1.2 == (MetaData { saved_ticks: 100_000, ..MetaData::fresh() }),
        forall|i: int|
            0 <= i < 5 ==> (#[trigger] presets@[i]).1.0@.wf() && starts_in(
                presets@[i].1.1,
                presets@[i].1.0@,
            ),
{
    let mut presets = Vec::new();
    presets.push(("1: poor death", make_poor_death(world)));
    presets.push(("2: rich death", make_rich_death(world)));
    presets.push(("3: T2 expected", make_t2(world)));
    presets.push(("4: full unlock", make_full_unlock(world)));
    presets.push(("5: saved ticks", make_saved_ticks(world)));
    presets
}

fn make_poor_death(world: &World) -> (preset: (StateContainer, Input, MetaData))
    ensures
        preset.0@ == poor_death(),
        preset.0@.wf(),
        starts_in(preset.1, preset.0@),
        preset.2 == MetaData::fresh(),
{
    let mut state = new_game(world);
    let meta_data = MetaData::new();
    state.items.money = 10_000;
    state.life_stats.age = LIFESPAN;

    let input = Input::new(&state, world);
    (state, input, meta_data)
}

fn make_rich_death(world: &World) -> (preset: (StateContainer, Input, MetaData))
    ensures
        preset.0@ == rich_death(),
        preset.0@.wf(),
        starts_in(preset.1, preset.0@),
        preset.2 == MetaData::fresh(),
{
    let mut state = new_game(world);
    let meta_data = MetaData::new();
    state.items.money = 10_000_000_000;
    state.life_stats.age = LIFESPAN;

    let input = Input::new(&state, world);
    (state, input, meta_data)
}

fn make_t2(world: &World) -> (preset: (StateContainer, Input, MetaData))
    ensures
        preset.0@ == StateView::starting_with(t2_rebirth_stats()),
        preset.0@.wf(),
        starts_in(preset.1, preset.0@),
        preset.2 == MetaData::fresh(),
{
    let mut state = new_game(world);
    let meta_data = MetaData::new();
    state.rebirth_stats.class_tier = 2;
    state.rebirth_stats.coins = 8_000;
    state.rebirth_stats.rebirth_count = 8;

    state.rebirth_stats.max_job_levels.set(WorkTypes::Mines.index(), 30);
    state.rebirth_stats.max_job_levels.set(WorkTypes::Latrine.index(), 30);
    state.rebirth_stats.max_job_levels.set(WorkTypes::GalleyRower.index(), 30);
    state.rebirth_stats.max_job_levels.set(WorkTypes::Fields.index(), 30);
    state.rebirth_stats.max_job_levels.set(WorkTypes::Mill.index(), 30);

    let slot = RebirthUpgradeTypes::AcceptingDeath.index();
    let mut upgrade = state.rebirth_stats.rebirth_upgrades[slot];
    upgrade.is_purchased = true;
    state.rebirth_stats.rebirth_upgrades.set(slot, upgrade);
    proof {
        assert(state@.rebirth_stats.max_job_levels =~= t2_rebirth_stats().max_job_levels);
    }

    let input = Input::new(&state, world);
    (state, input, meta_data)
}

fn make_full_unlock(world: &World) -> (preset: (StateContainer, Input, MetaData))
    ensures
        preset.0@ == full_unlock(),
        preset.0@.wf(),
        starts_in(preset.1, preset.0@),
        preset.2 == MetaData::fresh(),
{
    let mut state = new_game(world);
    let meta_data = MetaData::new();
    state.rebirth_stats.class_tier = 3;
    state.rebirth_stats.coins = 8_000;
    state.rebirth_stats.rebirth_count = 16;
    let mut carried = RebirthStats::new();
    core::mem::swap(&mut state.rebirth_stats, &mut carried);
    state = rebirth(world, carried);
    state.items.money = 10_000_000_000;
    state.rebirth_stats.coins = 10_000_000_000;

    let input = Input::new(&state, world);
    (state, input, meta_data)
}

fn make_saved_ticks(world: &World) -> (preset: (StateContainer, Input, MetaData))
    ensures
        preset.0@ == StateView::fresh(),
        preset.0@.wf(),
        starts_in(preset.1, preset.0@),
        preset.2 == (MetaData { saved_ticks: 100_000, ..MetaData::fresh() }),
{
    let state = new_game(world);
    let mut meta_data = MetaData::new();
    meta_data.saved_ticks = 100_000;

    let input = Input::new(&state, world);
    (state, input, meta_data)
}

} // verus!
