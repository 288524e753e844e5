use crate::engine::{character_death_update, died, engine_run, ticked_input, ticked_state};
use crate::game::Game;
use crate::input::activity::ActivityTypes;
use crate::input::options::Options;
use crate::input::{first_unlocked_housing, first_unlocked_work, Input, Recordable};
use crate::input_recording::Inputs;
use crate::state::life_stats::LIFESPAN;
use crate::state::rebirth_stats::{RebirthStats, RebirthStatsView, RebirthUpgradeState};
use crate::state::state_container::{rebirth, StateView};
use crate::world_content::world::World;
use crate::world_content::rebirth_upgrade::{rebirth_upgrade_record, translate_rebirth_upgrade};
use vstd::prelude::*;

verus! {

/// Whether the content puts the upgrade within reach of a character who asks
/// for all upgrades below `min_tier` that cost `max_cost` at most.
pub open spec fn is_granted(upgrade: RebirthUpgradeState, min_tier: u32, max_cost: i64) -> bool {
    &&& rebirth_upgrade_record(upgrade.name).required_tier < min_tier
    &&& rebirth_upgrade_record(upgrade.name).purchasing_cost <= max_cost
}

/// What is carried over once every upgrade within reach is marked as
/// purchased. Nothing that was purchased is lost.
pub open spec fn with_upgrades(
    stats: RebirthStatsView,
    min_tier: u32,
    max_cost: i64,
) -> RebirthStatsView {
    RebirthStatsView {
        rebirth_upgrades: Seq::new(
            stats.rebirth_upgrades.len(),
            |i: int|
                RebirthUpgradeState {
                    is_purchased: stats.rebirth_upgrades[i].is_purchased || is_granted(
                        stats.rebirth_upgrades[i],
                        min_tier,
                        max_cost,
                    ),
                    ..stats.rebirth_upgrades[i]
                },
        ),
        ..stats
    }
}

/// Marks as purchased every upgrade that asks for a tier below the one that
/// the character has.
pub fn get_upgrades_up_to_current_tier(rebirth_stats: &mut RebirthStats)
    ensures
        final(rebirth_stats)@ == with_upgrades(
            old(rebirth_stats)@,
            old(rebirth_stats).class_tier,
            i64::MAX,
        ),
        old(rebirth_stats)@.kept_by(final(rebirth_stats)@),
{
    let tier = rebirth_stats.class_tier;
    get_upgrades_up_to_tier(rebirth_stats, tier)
}

/// Marks as purchased every upgrade that asks for a tier below `min_tier`,
/// whatever it costs.
pub fn get_upgrades_up_to_tier(rebirth_stats: &mut RebirthStats, min_tier: u32)
    ensures
        final(rebirth_stats)@ == with_upgrades(old(rebirth_stats)@, min_tier, i64::MAX),
        old(rebirth_stats)@.kept_by(final(rebirth_stats)@),
{
    get_upgrades_up_to_tier_max_cost(rebirth_stats, min_tier, i64::MAX)
}

/// Marks as purchased every upgrade that costs `max_cost` at most, whatever
/// tier it asks for.
pub fn get_upgrades_by_max_cost(rebirth_stats: &mut RebirthStats, max_cost: i64)
    ensures
        final(rebirth_stats)@ == with_upgrades(old(rebirth_stats)@, u32::MAX, max_cost),
        old(rebirth_stats)@.kept_by(final(rebirth_stats)@),
{
    get_upgrades_up_to_tier_max_cost(rebirth_stats, 99, max_cost);
    assert(final(rebirth_stats)@.rebirth_upgrades =~= with_upgrades(
        old(rebirth_stats)@,
        u32::MAX,
        max_cost,
    ).rebirth_upgrades);
}

/// Marks as purchased every upgrade that asks for a tier below `min_tier`
/// and costs `max_cost` at most.
pub fn get_upgrades_up_to_tier_max_cost(
    rebirth_stats: &mut RebirthStats,
    min_tier: u32,
    max_cost: i64,
)
    ensures
        final(rebirth_stats)@ == with_upgrades(old(rebirth_stats)@, min_tier, max_cost),
        old(rebirth_stats)@.kept_by(final(rebirth_stats)@),
{
    let ghost before = rebirth_stats@;
    let mut i: usize = 0;
    while i < rebirth_stats.rebirth_upgrades.len()
        invariant
            before == old(rebirth_stats)@,
            i <= before.rebirth_upgrades.len(),
            rebirth_stats@ == (RebirthStatsView {
                rebirth_upgrades: rebirth_stats@.rebirth_upgrades,
                ..before
            }),
            rebirth_stats@.rebirth_upgrades.len() == before.rebirth_upgrades.len(),
            forall|j: int|
                0 <= j < i ==> #[trigger] rebirth_stats@.rebirth_upgrades[j] == with_upgrades(
                    before,
                    min_tier,
                    max_cost,
                ).rebirth_upgrades[j],
            forall|j: int|
                i <= j < before.rebirth_upgrades.len() ==> #[trigger] rebirth_stats@.rebirth_upgrades[j]
                    == before.rebirth_upgrades[j],
        decreases before.rebirth_upgrades.len() - i,
    {
        let mut upgrade = rebirth_stats.rebirth_upgrades[i];
        let upgrade_world = translate_rebirth_upgrade(upgrade.name);
        if upgrade_world.required_tier < min_tier && upgrade_world.purchasing_cost <= max_cost {
            upgrade.is_purchased = true;
            rebirth_stats.rebirth_upgrades.set(i, upgrade);
        }
        i = i + 1;
    }
    assert(rebirth_stats@.rebirth_upgrades =~= with_upgrades(
        before,
        min_tier,
        max_cost,
    ).rebirth_upgrades);
}

/// The state and the choices after `ticks` ticks of a living character.
pub open spec fn played(
    world: World,
    state: StateView,
    input: Input,
    options: Options,
    ticks: nat,
) -> (StateView, Input)
    decreases ticks,
{
    if ticks == 0 {
        (state, input)
    } else {
        let before = played(world, state, input, options, (ticks - 1) as nat);
        (
            ticked_state(world, before.0, before.1, options),
            ticked_input(world, before.0, before.1, options),
        )
    }
}

/// Whether the character lives through the first `ticks` ticks and is no
/// longer alive after the last of them.
pub open spec fn lives_for(
    world: World,
    state: StateView,
    input: Input,
    options: Options,
    ticks: nat,
) -> bool {
    &&& forall|earlier: nat|
        earlier < ticks ==> (#[trigger] played(
            world,
            state,
            input,
            options,
            earlier,
        )).0.life_stats.is_alive()
    &&& !played(world, state, input, options, ticks).0.life_stats.is_alive()
}

/// Plays the game until the character has died: tick by tick as long as the
/// character is alive, and then the step that turns the dying into the
/// dead. The loop ends because a living character ages by a day with every
/// tick and no life is longer than the lifespan.
pub fn run_until_dead(game: &mut Game)
    requires
        old(game).wf(),
    ensures
        final(game).state.life_stats.dead,
        final(game).wf(),
        final(game).world == old(game).world,
        final(game).meta_data == old(game).meta_data,
        final(game).inputs == old(game).inputs,
        old(game).state.life_stats.dead ==> final(game).state@ == old(game).state@,
        exists|ticks: nat|
            {
                &&& lives_for(
                    old(game).world,
                    old(game).state@,
                    old(game).input,
                    old(game).meta_data.options,
                    ticks,
                )
                &&& final(game).state@ == died(
                    played(
                        old(game).world,
                        old(game).state@,
                        old(game).input,
                        old(game).meta_data.options,
                        ticks,
                    ).0,
                )
                &&& final(game).input == played(
                    old(game).world,
                    old(game).state@,
                    old(game).input,
                    old(game).meta_data.options,
                    ticks,
                ).1
            },
{
    let ghost mut ticks: nat = 0;
    while game.state.life_stats.is_alive_now()
        invariant
            game.wf(),
            game.world == old(game).world,
            game.meta_data == old(game).meta_data,
            game.inputs == old(game).inputs,
            old(game).state.life_stats.dead ==> game.state@ == old(game).state@,
            (game.state@, game.input) == played(
                old(game).world,
                old(game).state@,
                old(game).input,
                old(game).meta_data.options,
                ticks,
            ),
            forall|earlier: nat|
                earlier < ticks ==> (#[trigger] played(
                    old(game).world,
                    old(game).state@,
                    old(game).input,
                    old(game).meta_data.options,
                    earlier,
                )).0.life_stats.is_alive(),
        decreases
                (if game.state.life_stats.is_alive() {
                    1int
                } else {
                    0int
                }) + (if game.state.life_stats.age <= LIFESPAN {
                    LIFESPAN + 1 - game.state.life_stats.age
                } else {
                    0int
                }),
    {
        engine_run(game);
        proof {
            ticks = ticks + 1;
        }
    }
    character_death_update(game);
    assert(lives_for(
        old(game).world,
        old(game).state@,
        old(game).input,
        old(game).meta_data.options,
        ticks,
    ));
}

/// The state that a rebirth leaves: what is carried over, with one more
/// rebirth counted and the upgrades within reach purchased, and everything
/// else as at the start of a game.
pub open spec fn reborn(state: StateView, min_tier: u32, max_cost: i64) -> StateView {
    StateView::starting_with(
        with_upgrades(
            RebirthStatsView {
                rebirth_count: (state.rebirth_stats.rebirth_count + 1) as u32,
                ..state.rebirth_stats
            },
            min_tier,
            max_cost,
        ),
    )
}

/// A rebirth never lowers the tier, counts exactly one more rebirth, and
/// keeps every upgrade that was purchased.
pub proof fn lemma_rebirth_keeps_progress(state: StateView, min_tier: u32, max_cost: i64)
    requires
        state.rebirth_stats.rebirth_count < u32::MAX,
    ensures
        reborn(state, min_tier, max_cost).rebirth_stats.class_tier >= state.rebirth_stats.class_tier,
        reborn(state, min_tier, max_cost).rebirth_stats.rebirth_count
            == state.rebirth_stats.rebirth_count + 1,
        state.rebirth_stats.kept_by(reborn(state, min_tier, max_cost).rebirth_stats),
        reborn(state, min_tier, max_cost).rebirth_stats.coins == state.rebirth_stats.coins,
        reborn(state, min_tier, max_cost).rebirth_stats.max_job_levels
            == state.rebirth_stats.max_job_levels,
        reborn(state, min_tier, max_cost).rebirth_stats.unlocks == state.rebirth_stats.unlocks,
{
}

/// Ends the run and starts the next: one more rebirth is counted, what
/// outlasts a life is carried over, every upgrade that asks for a tier below
/// `min_tier` and costs `max_cost` at most is purchased again, everything
/// else starts afresh, and the choices are made anew for the new state.
pub fn do_rebirth(game: &mut Game, min_tier: u32, max_cost: i64)
    requires
        old(game).wf(),
        old(game).state.rebirth_stats.rebirth_count < u32::MAX,
    ensures
        final(game).state@ == reborn(old(game).state@, min_tier, max_cost),
        final(game).input.work == first_unlocked_work(final(game).state@),
        final(game).input.housing == first_unlocked_housing(final(game).state@),
        final(game).world == old(game).world,
        final(game).meta_data == old(game).meta_data,
        final(game).intermediate_state == old(game).intermediate_state,
        final(game).inputs == old(game).inputs,
        final(game).wf(),
{
    let mut carried = RebirthStats::new();
    core::mem::swap(&mut game.state.rebirth_stats, &mut carried);
    carried.rebirth_count = carried.rebirth_count + 1;
    get_upgrades_up_to_tier_max_cost(&mut carried, min_tier, max_cost);
    game.state = rebirth(&game.world, carried);
    game.input = Input::new(&game.state, &game.world);
}

/// Ends the run and starts the next without purchasing any upgrade again.
pub fn do_test_rebirth(game: &mut Game)
    requires
        old(game).wf(),
        old(game).state.rebirth_stats.rebirth_count < u32::MAX,
    ensures
        final(game).state@ == StateView::starting_with(
            RebirthStatsView {
                rebirth_count: (old(game).state.rebirth_stats.rebirth_count + 1) as u32,
                ..old(game).state@.rebirth_stats
            },
        ),
        old(game).state@.rebirth_stats.kept_by(final(game).state@.rebirth_stats),
        final(game).input.work == first_unlocked_work(final(game).state@),
        final(game).input.housing == first_unlocked_housing(final(game).state@),
        final(game).world == old(game).world,
        final(game).meta_data == old(game).meta_data,
        final(game).intermediate_state == old(game).intermediate_state,
        final(game).inputs == old(game).inputs,
        final(game).wf(),
{
    let mut carried = RebirthStats::new();
    core::mem::swap(&mut game.state.rebirth_stats, &mut carried);
    carried.rebirth_count = carried.rebirth_count + 1;
    game.state = rebirth(&game.world, carried);
    game.input = Input::new(&game.state, &game.world);
}

/// Switches on the four automation policies and leaves the other options
/// as they are.
pub fn set_full_auto(options: &mut Options)
    ensures
        *final(options) == (Options {
            auto_work: true,
            auto_living: true,
            auto_buy_item: true,
            auto_buy_tomb: true,
            ..*old(options)
        }),
{
    options.auto_work = true;
    options.auto_living = true;
    options.auto_buy_item = true;
    options.auto_buy_tomb = true;
}

/// The ticks between two changes of activity.
pub const BALANCE_INCREMENT: u32 = 200;

/// How many changes of activity are noted from `start_tick` on: one every
/// 200 ticks, as long as the tick is more than 200 short of `end_tick`.
pub open spec fn balance_count(start_tick: u32, end_tick: u32) -> nat {
    if start_tick < end_tick - BALANCE_INCREMENT {
        ((end_tick - BALANCE_INCREMENT - start_tick + BALANCE_INCREMENT - 1)
            / BALANCE_INCREMENT as int) as nat
    } else {
        0
    }
}

/// The changes of activity that are noted: the activities in turn, starting
/// over after the last, one every 200 ticks from `start_tick` on.
pub open spec fn balanced(
    start_tick: u32,
    end_tick: u32,
    activities: Seq<ActivityTypes>,
) -> Seq<(u32, Seq<char>)> {
    Seq::new(
        balance_count(start_tick, end_tick),
        |k: int|
            (
                (start_tick + BALANCE_INCREMENT * k) as u32,
                activities[k % activities.len() as int].record_key(),
            ),
    )
}

/// Notes in the recording a change of activity every 200 ticks from
/// `start_tick` on, as long as the tick is more than 200 short of
/// `end_tick`, going through `activities` in turn.
pub fn balance_activities(
    inputs: &mut Inputs,
    start_tick: u32,
    end_tick: u32,
    activities: &[ActivityTypes],
)
    requires
        end_tick >= BALANCE_INCREMENT,
        start_tick < end_tick - BALANCE_INCREMENT ==> activities@.len() > 0,
    ensures
        final(inputs)@ == old(inputs)@ + balanced(start_tick, end_tick, activities@),
{
    let increment = BALANCE_INCREMENT;
    let mut tick = start_tick;
    let mut i: usize = 0;
    while tick < end_tick - increment
        invariant
            increment == BALANCE_INCREMENT,
            end_tick >= BALANCE_INCREMENT,
            start_tick < end_tick - BALANCE_INCREMENT ==> activities@.len() > 0,
            tick == start_tick + BALANCE_INCREMENT * i,
            i <= balance_count(start_tick, end_tick),
            tick < end_tick - increment ==> i < balance_count(start_tick, end_tick),
            tick >= end_tick - increment ==> i == balance_count(start_tick, end_tick),
            inputs@ == old(inputs)@ + balanced(start_tick, end_tick, activities@).take(i as int),
        decreases end_tick - tick,
    {
        inputs.register_input_on_tick(tick, activities[i % activities.len()]);
        tick += increment;
        i += 1;
    }
}

} // verus!
