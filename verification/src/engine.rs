use crate::engine::auto_functions::{
    after_buying_items,
    after_buying_tombs,
    auto_buy_item,
    auto_buy_tomb,
    auto_living,
    auto_work,
    best_home,
    best_work,
};
use crate::engine::intermediate_state::{
    lemma_resolve_order_independent,
    resolved,
    Contribution,
    Gain,
    IntermediateState,
};
use crate::engine::value_keys::{stat_key, work_key, KeyValues};
use crate::fixed::{add_stored, at_most, stored, sub_stored, UNIT};
use crate::game::Game;
use crate::input::options::Options;
use crate::input::Input;
use crate::state::housing::HousingState;
use crate::state::items::{BoostItemState, ItemsView};
use crate::state::life_stats::LifeStats;
use crate::state::rebirth_stats::RebirthStatsView;
use crate::state::skill::SkillState;
use crate::state::state_container::StateView;
use crate::state::tomb::TombState;
use crate::state::work::WorkState;
use crate::world_content::boost_item::{
    boost_item_unlocked,
    boost_item_visible,
    should_be_visible_boost_item,
    should_unlock_boost_item,
};
use crate::world_content::housing::{housing_unlocked, should_unlock_housing};
use crate::world_content::skill::{should_be_visible_skill, skill_visible};
use crate::world_content::tomb::{should_be_visible_tomb, tomb_visible};
use crate::world_content::work::{
    should_be_visible_work,
    should_unlock_work,
    work_unlocked,
    work_visible,
    Work,
    WorkCategories,
};
use crate::world_content::world::World;
use vstd::prelude::*;

pub mod auto_functions;
pub mod intermediate_state;
pub mod value_keys;

verus! {

/// The key on which a job gathers its experience: its own, for a labour
/// job; the one that all soldier ranks share, for a soldier.
pub open spec fn xp_key(work: Work) -> KeyValues {
    match work.work_type {
        WorkCategories::Labor => work_key(work.name),
        WorkCategories::Soldier => KeyValues::SoldierXp,
    }
}

/// What a tick in a job contributes: what the job does to health, its pay,
/// one unit of experience in the job, and one unit of experience in the stat
/// that the job trains.
pub open spec fn work_contributions(work: Work) -> Seq<Contribution> {
    work.gains() + seq![
        Contribution::Base { key: KeyValues::Money, amount: work.money },
        Contribution::Base { key: xp_key(work), amount: UNIT },
        Contribution::Base { key: stat_key(work.main_stat), amount: UNIT },
    ]
}

/// One entity of a family, as the collection of a tick sees it: whether it
/// is active, and what it contributes if it is.
pub struct Entry {
    pub active: bool,
    pub gains: Seq<Contribution>,
}

/// The contributions of the active ones among the first `n` entries, in the
/// order of the entries. An entity that is not active contributes nothing.
pub open spec fn active_gains(entries: Seq<Entry>, n: nat) -> Seq<Contribution>
    decreases n,
{
    if n == 0 {
        Seq::empty()
    } else if entries[n - 1].active {
        active_gains(entries, (n - 1) as nat) + entries[n - 1].gains
    } else {
        active_gains(entries, (n - 1) as nat)
    }
}

/// The items: active when purchased.
pub open spec fn item_entries(world: World, state: StateView) -> Seq<Entry> {
    Seq::new(
        state.items.boost_items.len(),
        |i: int|
            Entry {
                active: state.items.boost_items[i].is_purchased,
                gains: world.boost_items@[i].gains(),
            },
    )
}

/// The skills: active when the character has a level in them.
pub open spec fn skill_entries(world: World, state: StateView) -> Seq<Entry> {
    Seq::new(
        state.skills.len(),
        |i: int|
            Entry {
                active: state.skills[i].level > 0,
                gains: seq![world.skills@[i].effect(state.skills[i].level)],
            },
    )
}

/// The tombs: active when purchased.
pub open spec fn tomb_entries(world: World, state: StateView) -> Seq<Entry> {
    Seq::new(
        state.tombs.len(),
        |i: int| Entry { active: state.tombs[i].is_purchased, gains: world.tombs@[i].gains() },
    )
}

/// The permanent upgrades: active when purchased.
pub open spec fn upgrade_entries(world: World, state: StateView) -> Seq<Entry> {
    Seq::new(
        state.rebirth_stats.rebirth_upgrades.len(),
        |i: int|
            Entry {
                active: state.rebirth_stats.rebirth_upgrades[i].is_purchased,
                gains: world.rebirth_upgrades@[i].gains(),
            },
    )
}

/// Everything that one tick contributes: the selected job, the selected
/// housing, the purchased items, the skills with a level, the purchased
/// tombs and the purchased upgrades.
pub open spec fn tick_contributions(world: World, state: StateView, input: Input) -> Seq<
    Contribution,
> {
    work_contributions(world.works@[input.work.rank() as int])
        + world.housing@[input.housing.rank() as int].gains()
        + active_gains(item_entries(world, state), state.items.boost_items.len())
        + active_gains(skill_entries(world, state), state.skills.len())
        + active_gains(tomb_entries(world, state), state.tombs.len())
        + active_gains(upgrade_entries(world, state), state.rebirth_stats.rebirth_upgrades.len())
}

/// Starts the accumulator of the tick afresh and lets every entity that
/// is active hand in its contributions.
pub fn collect_contributions(game: &mut Game)
    requires
        old(game).wf(),
    ensures
        final(game).differs_in_accumulator_only(old(game)),
        final(game).intermediate_state@ == tick_contributions(
            old(game).world,
            old(game).state@,
            old(game).input,
        ),
{
    let ghost world = game.world;
    let ghost state = game.state@;
    game.intermediate_state = IntermediateState::new();
    let work = game.world.works[game.input.work.index()];
    work.gain(&mut game.intermediate_state);
    game.intermediate_state.add_base(KeyValues::Money, work.money);
    match work.work_type {
        WorkCategories::Labor => {
            game.intermediate_state.add_base(KeyValues::from(work.name), UNIT);
        },
        WorkCategories::Soldier => {
            game.intermediate_state.add_base(KeyValues::SoldierXp, UNIT);
        },
    }
    game.intermediate_state.add_base(KeyValues::from(work.main_stat), UNIT);
    let housing = game.world.housing[game.input.housing.index()];
    housing.gain(&mut game.intermediate_state);
    let ghost base = game.intermediate_state@;

    let mut i: usize = 0;
    while i < game.state.items.boost_items.len()
        invariant
            game.wf(),
            game.differs_in_accumulator_only(old(game)),
            world == game.world,
            state == game.state@,
            i <= state.items.boost_items.len(),
            game.intermediate_state@ == base + active_gains(item_entries(world, state), i as nat),
        decreases state.items.boost_items.len() - i,
    {
        if game.state.items.boost_items[i].is_purchased {
            let item = game.world.boost_items[i];
            item.gain(&mut game.intermediate_state);
        }
        i = i + 1;
    }
    let ghost base = game.intermediate_state@;

    let mut i: usize = 0;
    while i < game.state.skills.len()
        invariant
            game.wf(),
            game.differs_in_accumulator_only(old(game)),
            world == game.world,
            state == game.state@,
            i <= state.skills.len(),
            game.intermediate_state@ == base + active_gains(skill_entries(world, state), i as nat),
        decreases state.skills.len() - i,
    {
        if game.state.skills[i].level > 0 {
            let skill = game.world.skills[i];
            skill.get_skills_gains(game);
        }
        i = i + 1;
    }
    let ghost base = game.intermediate_state@;

    let mut i: usize = 0;
    while i < game.state.tombs.len()
        invariant
            game.wf(),
            game.differs_in_accumulator_only(old(game)),
            world == game.world,
            state == game.state@,
            i <= state.tombs.len(),
            game.intermediate_state@ == base + active_gains(tomb_entries(world, state), i as nat),
        decreases state.tombs.len() - i,
    {
        if game.state.tombs[i].is_purchased {
            let tomb = game.world.tombs[i];
            tomb.gain(&mut game.intermediate_state);
        }
        i = i + 1;
    }
    let ghost base = game.intermediate_state@;

    let mut i: usize = 0;
    while i < game.state.rebirth_stats.rebirth_upgrades.len()
        invariant
            game.wf(),
            game.differs_in_accumulator_only(old(game)),
            world == game.world,
            state == game.state@,
            i <= state.rebirth_stats.rebirth_upgrades.len(),
            game.intermediate_state@ == base + active_gains(
                upgrade_entries(world, state),
                i as nat,
            ),
        decreases state.rebirth_stats.rebirth_upgrades.len() - i,
    {
        if game.state.rebirth_stats.rebirth_upgrades[i].is_purchased {
            let upgrade = game.world.rebirth_upgrades[i];
            upgrade.gain(&mut game.intermediate_state);
        }
        i = i + 1;
    }
}

/// The experience that a resolved value stands for: the value itself, or
/// nothing where it is below zero. Experience is never taken away.
pub open spec fn experience(value: int) -> u64 {
    if value > 0 {
        value as u64
    } else {
        0
    }
}

/// The executable form of `experience`.
pub fn experience_of(value: i64) -> (xp: u64)
    ensures
        xp == experience(value as int),
{
    if value > 0 {
        value as u64
    } else {
        0
    }
}

/// The larger of two levels.
pub open spec fn higher(a: u32, b: u32) -> u32 {
    if a > b {
        a
    } else {
        b
    }
}

/// The state after the contributions of a tick are folded into it.
/// Money grows by the resolved income and shrinks by the upkeep of the
/// selected housing; health, happiness and coins grow by their resolved
/// values; every stat and the selected job gain their resolved experience;
/// and the best level ever reached in the selected job keeps up with it.
pub open spec fn folded(
    world: World,
    state: StateView,
    input: Input,
    log: Seq<Contribution>,
) -> StateView {
    let income = resolved(log, KeyValues::Money);
    let upkeep = world.housing@[input.housing.rank() as int].upkeep;
    let slot = input.work.rank() as int;
    let job = state.works[slot].trained(experience(resolved(log, xp_key(world.works@[slot]))));
    StateView {
        items: ItemsView {
            money: stored(stored(state.items.money + income) - upkeep) as i64,
            income: income as i64,
            ..state.items
        },
        life_stats: LifeStats {
            health: stored(state.life_stats.health + resolved(log, KeyValues::Health)) as i64,
            happiness: stored(state.life_stats.happiness + resolved(log, KeyValues::Happiness))
                as i64,
            ..state.life_stats
        },
        stats: Seq::new(
            state.stats.len(),
            |i: int|
                state.stats[i].trained(experience(resolved(log, stat_key(state.stats[i].name)))),
        ),
        works: state.works.update(slot, job),
        rebirth_stats: RebirthStatsView {
            coins: stored(state.rebirth_stats.coins + resolved(log, KeyValues::Coins)) as i64,
            max_job_levels: state.rebirth_stats.max_job_levels.update(
                slot,
                higher(state.rebirth_stats.max_job_levels[slot], job.level),
            ),
            ..state.rebirth_stats
        },
        ..state
    }
}

/// The state that a tick folds its contributions into does not depend on
/// the order in which the entities handed them in.
pub proof fn lemma_fold_order_independent(
    world: World,
    state: StateView,
    input: Input,
    first: Seq<Contribution>,
    second: Seq<Contribution>,
)
    requires
        first.to_multiset() == second.to_multiset(),
    ensures
        folded(world, state, input, first) == folded(world, state, input, second),
{
    assert forall|key: KeyValues| resolved(first, key) == resolved(second, key) by {
        lemma_resolve_order_independent(first, second, key);
    }
    assert(folded(world, state, input, first).stats =~= folded(
        world,
        state,
        input,
        second,
    ).stats);
}

/// Resolves every key that the state depends on and folds the values into
/// the state.
pub fn apply_contributions(game: &mut Game)
    requires
        old(game).wf(),
    ensures
        final(game).differs_in_state_only(old(game)),
        final(game).state@ == folded(
            old(game).world,
            old(game).state@,
            old(game).input,
            old(game).intermediate_state@,
        ),
        final(game).wf(),
{
    let ghost before = game.state@;
    let ghost log = game.intermediate_state@;
    let income = game.intermediate_state.resolve(KeyValues::Money);
    let upkeep = game.world.housing[game.input.housing.index()].upkeep;
    game.state.items.income = income;
    game.state.items.money = sub_stored(add_stored(game.state.items.money, income), upkeep);
    game.state.life_stats.health = add_stored(
        game.state.life_stats.health,
        game.intermediate_state.resolve(KeyValues::Health),
    );
    game.state.life_stats.happiness = add_stored(
        game.state.life_stats.happiness,
        game.intermediate_state.resolve(KeyValues::Happiness),
    );
    game.state.rebirth_stats.coins = add_stored(
        game.state.rebirth_stats.coins,
        game.intermediate_state.resolve(KeyValues::Coins),
    );
    let ghost target = folded(game.world, before, game.input, log);

    let mut i: usize = 0;
    while i < game.state.stats.len()
        invariant
            game.wf(),
            old(game).wf(),
            game.differs_in_state_only(old(game)),
            log == game.intermediate_state@,
            before == old(game).state@,
            target == folded(game.world, before, game.input, log),
            i <= before.stats.len(),
            game.state@.stats.len() == before.stats.len(),
            game.state@ == (StateView {
                items: target.items,
                life_stats: target.life_stats,
                stats: game.state@.stats,
                rebirth_stats: RebirthStatsView {
                    coins: target.rebirth_stats.coins,
                    ..before.rebirth_stats
                },
                ..before
            }),
            forall|j: int| 0 <= j < i ==> #[trigger] game.state@.stats[j] == target.stats[j],
            forall|j: int|
                i <= j < before.stats.len() ==> #[trigger] game.state@.stats[j] == before.stats[j],
        decreases before.stats.len() - i,
    {
        let mut stat = game.state.stats[i];
        let value = game.intermediate_state.resolve(KeyValues::from(stat.name));
        stat.train(experience_of(value));
        game.state.stats.set(i, stat);
        i = i + 1;
    }
    assert(game.state@.stats =~= target.stats);

    let slot = game.input.work.index();
    let work = game.world.works[slot];
    let value = match work.work_type {
        WorkCategories::Labor => game.intermediate_state.resolve(KeyValues::from(work.name)),
        WorkCategories::Soldier => game.intermediate_state.resolve(KeyValues::SoldierXp),
    };
    let mut job = game.state.works[slot];
    job.train(experience_of(value));
    game.state.works.set(slot, job);
    if job.level > game.state.rebirth_stats.max_job_levels[slot] {
        game.state.rebirth_stats.max_job_levels.set(slot, job.level);
    }
    assert(game.state@.rebirth_stats.max_job_levels =~= target.rebirth_stats.max_job_levels);
}

/// The state one day later. The age stops at the largest that its counter
/// holds.
pub open spec fn aged(state: StateView) -> StateView {
    StateView {
        life_stats: LifeStats {
            age: at_most(state.life_stats.age + 1, u32::MAX as int) as u32,
            ..state.life_stats
        },
        ..state
    }
}

/// Lets one day pass.
pub fn advance_age(game: &mut Game)
    ensures
        final(game).differs_in_state_only(old(game)),
        final(game).state@ == aged(old(game).state@),
{
    if game.state.life_stats.age < u32::MAX {
        game.state.life_stats.age = game.state.life_stats.age + 1;
    }
}

/// The state with the unlock flags of the upgrades brought up to date.
pub open spec fn with_unlocks(state: StateView) -> StateView {
    StateView {
        rebirth_stats: RebirthStatsView {
            unlocks: state.rebirth_stats.unlocked(),
            ..state.rebirth_stats
        },
        ..state
    }
}

/// The state with every flag brought up to date: what the upgrades open
/// up, and then, judged by that and by the levels, the tier and the
/// purchases, which jobs, items and housing options are unlocked and which
/// jobs, items, skills and tombs are shown. No flag is judged by another
/// flag, so the order of the judging does not matter.
pub open spec fn refreshed(world: World, state: StateView) -> StateView {
    let s = with_unlocks(state);
    StateView {
        items: ItemsView {
            boost_items: Seq::new(
                s.items.boost_items.len(),
                |i: int|
                    BoostItemState {
                        is_unlocked: boost_item_unlocked(s.items.boost_items[i].name, world, s),
                        is_visible: boost_item_visible(s.items.boost_items[i].name, world, s),
                        ..s.items.boost_items[i]
                    },
            ),
            ..s.items
        },
        works: Seq::new(
            s.works.len(),
            |i: int|
                WorkState {
                    is_unlocked: work_unlocked(s.works[i].name, world, s),
                    is_visible: work_visible(s.works[i].name, world, s),
                    ..s.works[i]
                },
        ),
        housing: Seq::new(
            s.housing.len(),
            |i: int|
                HousingState {
                    is_unlocked: housing_unlocked(s.housing[i].name, world, s),
                    ..s.housing[i]
                },
        ),
        skills: Seq::new(
            s.skills.len(),
            |i: int|
                SkillState { is_visible: skill_visible(s.skills[i].name, world, s), ..s.skills[i] },
        ),
        tombs: Seq::new(
            s.tombs.len(),
            |i: int|
                TombState { is_visible: tomb_visible(s.tombs[i].name, world, s), ..s.tombs[i] },
        ),
        ..s
    }
}

/// Brings every unlock and visibility flag of the state up to date.
pub fn refresh_flags(game: &mut Game)
    requires
        old(game).wf(),
    ensures
        final(game).differs_in_state_only(old(game)),
        final(game).state@ == refreshed(old(game).world, old(game).state@),
        final(game).wf(),
{
    game.state.rebirth_stats.refresh_unlocks();
    let ghost world = game.world;
    let ghost s = game.state@;
    let ghost target = refreshed(world, old(game).state@);

    let mut i: usize = 0;
    while i < game.state.items.boost_items.len()
        invariant
            game.wf(),
            s.wf(),
            game.differs_in_state_only(old(game)),
            world == game.world,
            target == refreshed(world, old(game).state@),
            s == with_unlocks(old(game).state@),
            i <= s.items.boost_items.len(),
            game.state@.items.boost_items.len() == s.items.boost_items.len(),
            game.state@ == (StateView {
                items: ItemsView { boost_items: game.state@.items.boost_items, ..s.items },
                ..s
            }),
            forall|j: int|
                0 <= j < i ==> #[trigger] game.state@.items.boost_items[j]
                    == target.items.boost_items[j],
            forall|j: int|
                i <= j < s.items.boost_items.len() ==> #[trigger] game.state@.items.boost_items[j]
                    == s.items.boost_items[j],
        decreases s.items.boost_items.len() - i,
    {
        let mut item = game.state.items.boost_items[i];
        item.is_unlocked = should_unlock_boost_item(item.name, game);
        item.is_visible = should_be_visible_boost_item(item.name, game);
        game.state.items.boost_items.set(i, item);
        i = i + 1;
    }
    assert(game.state@.items.boost_items =~= target.items.boost_items);
    let ghost s1 = game.state@;

    let mut i: usize = 0;
    while i < game.state.works.len()
        invariant
            game.wf(),
            s.wf(),
            game.differs_in_state_only(old(game)),
            world == game.world,
            target == refreshed(world, old(game).state@),
            s == with_unlocks(old(game).state@),
            s1 == (StateView { items: target.items, ..s }),
            i <= s.works.len(),
            game.state@.works.len() == s.works.len(),
            game.state@ == (StateView { works: game.state@.works, ..s1 }),
            forall|j: int| 0 <= j < i ==> #[trigger] game.state@.works[j] == target.works[j],
            forall|j: int| i <= j < s.works.len() ==> #[trigger] game.state@.works[j] == s.works[j],
        decreases s.works.len() - i,
    {
        let mut work = game.state.works[i];
        work.is_unlocked = should_unlock_work(work.name, game);
        work.is_visible = should_be_visible_work(work.name, game);
        game.state.works.set(i, work);
        i = i + 1;
    }
    assert(game.state@.works =~= target.works);
    let ghost s2 = game.state@;

    let mut i: usize = 0;
    while i < game.state.housing.len()
        invariant
            game.wf(),
            s.wf(),
            game.differs_in_state_only(old(game)),
            world == game.world,
            target == refreshed(world, old(game).state@),
            s == with_unlocks(old(game).state@),
            s2 == (StateView { items: target.items, works: target.works, ..s }),
            i <= s.housing.len(),
            game.state@.housing.len() == s.housing.len(),
            game.state@ == (StateView { housing: game.state@.housing, ..s2 }),
            forall|j: int| 0 <= j < i ==> #[trigger] game.state@.housing[j] == target.housing[j],
            forall|j: int|
                i <= j < s.housing.len() ==> #[trigger] game.state@.housing[j] == s.housing[j],
        decreases s.housing.len() - i,
    {
        let mut housing = game.state.housing[i];
        housing.is_unlocked = should_unlock_housing(housing.name, game);
        game.state.housing.set(i, housing);
        i = i + 1;
    }
    assert(game.state@.housing =~= target.housing);
    let ghost s3 = game.state@;

    let mut i: usize = 0;
    while i < game.state.skills.len()
        invariant
            game.wf(),
            s.wf(),
            game.differs_in_state_only(old(game)),
            world == game.world,
            target == refreshed(world, old(game).state@),
            s == with_unlocks(old(game).state@),
            s3 == (StateView {
                items: target.items,
                works: target.works,
                housing: target.housing,
                ..s
            }),
            i <= s.skills.len(),
            game.state@.skills.len() == s.skills.len(),
            game.state@ == (StateView { skills: game.state@.skills, ..s3 }),
            forall|j: int| 0 <= j < i ==> #[trigger] game.state@.skills[j] == target.skills[j],
            forall|j: int|
                i <= j < s.skills.len() ==> #[trigger] game.state@.skills[j] == s.skills[j],
        decreases s.skills.len() - i,
    {
        let mut skill = game.state.skills[i];
        skill.is_visible = should_be_visible_skill(skill.name, game);
        game.state.skills.set(i, skill);
        i = i + 1;
    }
    assert(game.state@.skills =~= target.skills);
    let ghost s4 = game.state@;

    let mut i: usize = 0;
    while i < game.state.tombs.len()
        invariant
            game.wf(),
            s.wf(),
            game.differs_in_state_only(old(game)),
            world == game.world,
            target == refreshed(world, old(game).state@),
            s == with_unlocks(old(game).state@),
            s4 == (StateView {
                items: target.items,
                works: target.works,
                housing: target.housing,
                skills: target.skills,
                ..s
            }),
            i <= s.tombs.len(),
            game.state@.tombs.len() == s.tombs.len(),
            game.state@ == (StateView { tombs: game.state@.tombs, ..s4 }),
            forall|j: int| 0 <= j < i ==> #[trigger] game.state@.tombs[j] == target.tombs[j],
            forall|j: int| i <= j < s.tombs.len() ==> #[trigger] game.state@.tombs[j] == s.tombs[j],
        decreases s.tombs.len() - i,
    {
        let mut tomb = game.state.tombs[i];
        tomb.is_visible = should_be_visible_tomb(tomb.name, game);
        game.state.tombs.set(i, tomb);
        i = i + 1;
    }
    assert(game.state@.tombs =~= target.tombs);
}

/// The state after the buying passes that the toggles ask for: first the
/// items, then the tombs.
pub open spec fn after_policies_state(
    world: World,
    state: StateView,
    options: Options,
) -> StateView {
    let s = if options.auto_buy_item {
        after_buying_items(world, state)
    } else {
        state
    };
    if options.auto_buy_tomb {
        after_buying_tombs(world, s)
    } else {
        s
    }
}

/// The choices after the selecting policies that the toggles ask for.
pub open spec fn after_policies_input(
    world: World,
    state: StateView,
    input: Input,
    options: Options,
) -> Input {
    Input {
        work: if options.auto_work {
            best_work(world, state, input.work)
        } else {
            input.work
        },
        housing: if options.auto_living {
            best_home(world, state, input.housing)
        } else {
            input.housing
        },
    }
}

/// Runs each automation policy whose toggle is on. The policies that select
/// judge by the state as it is before anything is bought.
pub fn run_policies(game: &mut Game)
    requires
        old(game).wf(),
    ensures
        final(game).world == old(game).world,
        final(game).meta_data == old(game).meta_data,
        final(game).intermediate_state == old(game).intermediate_state,
        final(game).inputs == old(game).inputs,
        final(game).input == after_policies_input(
            old(game).world,
            old(game).state@,
            old(game).input,
            old(game).meta_data.options,
        ),
        final(game).state@ == after_policies_state(
            old(game).world,
            old(game).state@,
            old(game).meta_data.options,
        ),
        final(game).wf(),
{
    if game.meta_data.options.auto_work {
        auto_work(game);
    }
    if game.meta_data.options.auto_living {
        auto_living(game);
    }
    if game.meta_data.options.auto_buy_item {
        auto_buy_item(game);
    }
    if game.meta_data.options.auto_buy_tomb {
        auto_buy_tomb(game);
    }
}

/// The state with the character dying where the life has run out.
pub open spec fn judged(state: StateView) -> StateView {
    StateView {
        life_stats: LifeStats { is_dying: state.life_stats.has_run_out(), ..state.life_stats },
        ..state
    }
}

/// The state one step after death has set in: a dying character is dead.
pub open spec fn died(state: StateView) -> StateView {
    StateView {
        life_stats: LifeStats {
            dead: state.life_stats.dead || state.life_stats.is_dying,
            ..state.life_stats
        },
        ..state
    }
}

/// The state that a tick leaves a living character in.
pub open spec fn ticked_state(
    world: World,
    state: StateView,
    input: Input,
    options: Options,
) -> StateView {
    let log = tick_contributions(world, state, input);
    let s = refreshed(world, aged(folded(world, state, input, log)));
    judged(after_policies_state(world, s, options))
}

/// The choices that a tick leaves a living character with.
pub open spec fn ticked_input(
    world: World,
    state: StateView,
    input: Input,
    options: Options,
) -> Input {
    let log = tick_contributions(world, state, input);
    let s = refreshed(world, aged(folded(world, state, input, log)));
    after_policies_input(world, s, input, options)
}

/// Turns a dying character into a dead one. It does nothing to a character
/// who is not dying.
pub fn character_death_update(game: &mut Game)
    ensures
        final(game).differs_in_state_only(old(game)),
        final(game).state@ == died(old(game).state@),
{
    if game.state.life_stats.is_dying {
        game.state.life_stats.dead = true;
    }
}

/// One step of the simulation. A living character lives one tick: the
/// contributions are collected and folded into the state, a day passes, the
/// flags are brought up to date, the automation policies run, and the
/// character starts dying where the life has run out. A dying character
/// dies. For a dead character nothing happens any more.
pub fn engine_run(game: &mut Game)
    requires
        old(game).wf(),
    ensures
        final(game).wf(),
        final(game).world == old(game).world,
        final(game).meta_data == old(game).meta_data,
        final(game).inputs == old(game).inputs,
        old(game).state.life_stats.is_alive() ==> {
            &&& final(game).intermediate_state@ == tick_contributions(
                old(game).world,
                old(game).state@,
                old(game).input,
            )
            &&& final(game).state@ == ticked_state(
                old(game).world,
                old(game).state@,
                old(game).input,
                old(game).meta_data.options,
            )
            &&& final(game).input == ticked_input(
                old(game).world,
                old(game).state@,
                old(game).input,
                old(game).meta_data.options,
            )
            &&& final(game).state.life_stats.age == at_most(
                old(game).state.life_stats.age + 1,
                u32::MAX as int,
            )
            &&& final(game).state.life_stats.is_dying == final(game).state.life_stats.has_run_out()
            &&& !final(game).state.life_stats.dead
        },
        !old(game).state.life_stats.is_alive() ==> {
            &&& final(game).intermediate_state == old(game).intermediate_state
            &&& final(game).input == old(game).input
            &&& final(game).state@ == died(old(game).state@)
        },
        old(game).state.life_stats.dead ==> final(game).state@ == old(game).state@,
        old(game).state@.rebirth_stats.kept_by(final(game).state@.rebirth_stats),
{
    if game.state.life_stats.is_dying || game.state.life_stats.dead {
        character_death_update(game);
        return ;
    }
    collect_contributions(game);
    apply_contributions(game);
    advance_age(game);
    refresh_flags(game);
    run_policies(game);
    game.state.life_stats.is_dying = game.state.life_stats.should_die();
}

} // verus!
