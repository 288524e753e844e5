use crate::game::Game;
use crate::input::housing::{HousingTypes, HOUSING_SIZE};
use crate::input::options::AutoSettingTypes;
use crate::input::work::{WorkTypes, WORK_SIZE};
use crate::input::Recordable;
use crate::state::items::{BoostItemState, ItemsView};
use crate::state::state_container::StateView;
use crate::state::tomb::TombState;
use crate::world_content::world::World;
use vstd::prelude::*;

verus! {

/// Whether the job in slot `rank` is a step up for a character who works as
/// `current`: it ranks higher, it belongs to the same career, and it is
/// unlocked and visible.
pub open spec fn is_promotion(
    rank: int,
    world: World,
    state: StateView,
    current: WorkTypes,
) -> bool {
    &&& current.rank() < rank < WORK_SIZE
    &&& world.works@[rank].work_type == world.works@[current.rank() as int].work_type
    &&& state.works[rank].is_unlocked
    &&& state.works[rank].is_visible
}

/// The job that automation selects for a character who works as `current`:
/// the highest-ranked step up, or `current` where there is none.
pub open spec fn best_work(world: World, state: StateView, current: WorkTypes) -> WorkTypes {
    if exists|rank: int| is_promotion(rank, world, state, current) {
        WorkTypes::of_rank(
            choose|rank: int|
                is_promotion(rank, world, state, current) && forall|other: int|
                    is_promotion(other, world, state, current) ==> other <= rank,
        )
    } else {
        current
    }
}

/// Selecting the best job a second time, with no tick in between, changes
/// nothing, and the selection never ranks below the job that it started
/// from.
pub proof fn lemma_auto_work_idempotent(world: World, state: StateView, current: WorkTypes)
    ensures
        best_work(world, state, best_work(world, state, current)) == best_work(
            world,
            state,
            current,
        ),
        best_work(world, state, current).rank() >= current.rank(),
{
    WorkTypes::lemma_of_rank();
    let best = best_work(world, state, current);
    if exists|rank: int| is_promotion(rank, world, state, current) {
        let top = choose|rank: int|
            is_promotion(rank, world, state, current) && forall|other: int|
                is_promotion(other, world, state, current) ==> other <= rank;
        assert(best.rank() == top);
        assert forall|rank: int| !is_promotion(rank, world, state, best) by {
            if is_promotion(rank, world, state, best) {
                assert(is_promotion(rank, world, state, current));
            }
        }
    }
}

/// Moves the character to the highest-ranked job that is a step up from the
/// selected one. Where there is none, the selection stays: the character is
/// never moved down.
pub fn auto_work(game: &mut Game)
    requires
        old(game).wf(),
    ensures
        final(game).differs_in_input_only(old(game)),
        final(game).input.housing == old(game).input.housing,
        final(game).input.work == old(game).input.work || is_promotion(
            final(game).input.work.rank() as int,
            old(game).world,
            old(game).state@,
            old(game).input.work,
        ),
        forall|rank: int|
            is_promotion(rank, old(game).world, old(game).state@, old(game).input.work) ==> rank
                <= final(game).input.work.rank(),
        final(game).input.work == best_work(
            old(game).world,
            old(game).state@,
            old(game).input.work,
        ),
        final(game).input.work.rank() >= old(game).input.work.rank(),
{
    let current = game.input.work;
    let current_type = game.world.works[current.index()].work_type;
    let mut i: usize = 0;
    while i < game.state.works.len()
        invariant
            game.wf(),
            game.differs_in_input_only(old(game)),
            game.input.housing == old(game).input.housing,
            current == old(game).input.work,
            current_type == game.world.works@[current.rank() as int].work_type,
            i <= WORK_SIZE,
            game.input.work == current || (game.input.work.rank() < i && is_promotion(
                game.input.work.rank() as int,
                game.world,
                game.state@,
                current,
            )),
            forall|rank: int|
                rank < i && is_promotion(rank, game.world, game.state@, current) ==> rank
                    <= game.input.work.rank(),
        decreases WORK_SIZE - i,
    {
        let work = game.state.works[i];
        let same_type = current_type == game.world.works[work.name.index()].work_type;
        if work.name.index() > current.index() && same_type && work.is_unlocked && work.is_visible {
            game.input.work = work.name;
        }
        i = i + 1;
    }
    proof {
        WorkTypes::lemma_of_rank();
        let chosen = game.input.work.rank() as int;
        if chosen != current.rank() {
            let best = choose|rank: int|
                is_promotion(rank, game.world, game.state@, current) && forall|other: int|
                    is_promotion(other, game.world, game.state@, current) ==> other <= rank;
            assert(best == chosen);
        }
    }
}

/// Whether the housing option in slot `rank` is a step up that a character
/// living in `current` can afford: it ranks higher, it is unlocked, and its
/// upkeep is no more than the income.
pub open spec fn is_better_home(
    rank: int,
    world: World,
    state: StateView,
    current: HousingTypes,
) -> bool {
    &&& current.rank() < rank < HOUSING_SIZE
    &&& state.housing[rank].is_unlocked
    &&& world.housing@[rank].upkeep <= state.items.income
}

/// The housing option that automation selects for a character living in
/// `current`: the highest-ranked affordable step up, or `current` where there
/// is none.
pub open spec fn best_home(world: World, state: StateView, current: HousingTypes) -> HousingTypes {
    if exists|rank: int| is_better_home(rank, world, state, current) {
        HousingTypes::of_rank(
            choose|rank: int|
                is_better_home(rank, world, state, current) && forall|other: int|
                    is_better_home(other, world, state, current) ==> other <= rank,
        )
    } else {
        current
    }
}

/// Selecting the best housing a second time, with no tick in between,
/// changes nothing, and the selection never ranks below the housing that it
/// started from.
pub proof fn lemma_auto_living_idempotent(world: World, state: StateView, current: HousingTypes)
    ensures
        best_home(world, state, best_home(world, state, current)) == best_home(
            world,
            state,
            current,
        ),
        best_home(world, state, current).rank() >= current.rank(),
{
    HousingTypes::lemma_of_rank();
    let best = best_home(world, state, current);
    if exists|rank: int| is_better_home(rank, world, state, current) {
        let top = choose|rank: int|
            is_better_home(rank, world, state, current) && forall|other: int|
                is_better_home(other, world, state, current) ==> other <= rank;
        assert(best.rank() == top);
        assert forall|rank: int| !is_better_home(rank, world, state, best) by {
            if is_better_home(rank, world, state, best) {
                assert(is_better_home(rank, world, state, current));
            }
        }
    }
}

/// Moves the character to the highest-ranked housing option that is an
/// affordable step up from the selected one. Where there is none, the
/// selection stays.
pub fn auto_living(game: &mut Game)
    requires
        old(game).wf(),
    ensures
        final(game).differs_in_input_only(old(game)),
        final(game).input.work == old(game).input.work,
        final(game).input.housing == old(game).input.housing || is_better_home(
            final(game).input.housing.rank() as int,
            old(game).world,
            old(game).state@,
            old(game).input.housing,
        ),
        forall|rank: int|
            is_better_home(rank, old(game).world, old(game).state@, old(game).input.housing)
                ==> rank <= final(game).input.housing.rank(),
        final(game).input.housing == best_home(
            old(game).world,
            old(game).state@,
            old(game).input.housing,
        ),
        final(game).input.housing.rank() >= old(game).input.housing.rank(),
{
    let current = game.input.housing;
    let mut i: usize = 0;
    while i < game.state.housing.len()
        invariant
            game.wf(),
            game.differs_in_input_only(old(game)),
            game.input.work == old(game).input.work,
            current == old(game).input.housing,
            i <= HOUSING_SIZE,
            game.input.housing == current || (game.input.housing.rank() < i && is_better_home(
                game.input.housing.rank() as int,
                game.world,
                game.state@,
                current,
            )),
            forall|rank: int|
                rank < i && is_better_home(rank, game.world, game.state@, current) ==> rank
                    <= game.input.housing.rank(),
        decreases HOUSING_SIZE - i,
    {
        let housing = game.state.housing[i];
        let can_afford = game.world.housing[housing.name.index()].upkeep <= game.state.items.income;
        let better_housing = housing.name.index() > current.index();
        if better_housing && housing.is_unlocked && can_afford {
            game.input.housing = housing.name;
        }
        i = i + 1;
    }
    proof {
        HousingTypes::lemma_of_rank();
        let chosen = game.input.housing.rank() as int;
        if chosen != current.rank() {
            let best = choose|rank: int|
                is_better_home(rank, game.world, game.state@, current) && forall|other: int|
                    is_better_home(other, game.world, game.state@, current) ==> other <= rank;
            assert(best == chosen);
        }
    }
}

/// Something that a buying pass may buy: what it costs, and whether it is
/// open to purchase, that is, on offer and not yet owned.
pub struct Offer {
    pub cost: int,
    pub open: bool,
}

/// The money that is left when a buying pass has considered the first `n`
/// offers, having started with `money`.
pub open spec fn money_after(offers: Seq<Offer>, money: int, n: nat) -> int
    decreases n,
{
    if n == 0 {
        money
    } else {
        let left = money_after(offers, money, (n - 1) as nat);
        if offers[n - 1].open && left >= offers[n - 1].cost {
            left - offers[n - 1].cost
        } else {
            left
        }
    }
}

/// Whether a buying pass that starts with `money` buys the offer in slot
/// `i`: it is open, and what the earlier purchases of the same pass have
/// left covers its cost.
pub open spec fn is_bought(offers: Seq<Offer>, money: int, i: int) -> bool {
    offers[i].open && money_after(offers, money, i as nat) >= offers[i].cost
}

/// The offers as they stand after a buying pass that started with `money`.
pub open spec fn offers_after(offers: Seq<Offer>, money: int) -> Seq<Offer> {
    Seq::new(
        offers.len(),
        |i: int| Offer { cost: offers[i].cost, open: offers[i].open && !is_bought(offers, money, i) },
    )
}

/// A buying pass never leaves more money than it had at an earlier offer,
/// where no cost is below zero.
pub proof fn lemma_money_only_falls(offers: Seq<Offer>, money: int, earlier: nat, later: nat)
    requires
        earlier <= later <= offers.len(),
        forall|i: int| 0 <= i < offers.len() ==> (#[trigger] offers[i]).cost >= 0,
    ensures
        money_after(offers, money, later) <= money_after(offers, money, earlier),
    decreases later,
{
    if earlier < later {
        lemma_money_only_falls(offers, money, earlier, (later - 1) as nat);
    }
}

/// A buying pass that follows another, with no tick in between, buys nothing
/// and spends nothing, where no cost is below zero.
pub proof fn lemma_buying_twice_buys_nothing(offers: Seq<Offer>, money: int, n: nat)
    requires
        n <= offers.len(),
        forall|i: int| 0 <= i < offers.len() ==> (#[trigger] offers[i]).cost >= 0,
    ensures
        money_after(offers_after(offers, money), money_after(offers, money, offers.len()), n)
            == money_after(offers, money, offers.len()),
        forall|i: int|
            0 <= i < n ==> !is_bought(
                offers_after(offers, money),
                money_after(offers, money, offers.len()),
                i,
            ),
    decreases n,
{
    if n > 0 {
        let second = offers_after(offers, money);
        let left = money_after(offers, money, offers.len());
        lemma_buying_twice_buys_nothing(offers, money, (n - 1) as nat);
        lemma_money_only_falls(offers, money, (n - 1) as nat, offers.len());
        assert(!is_bought(second, left, n - 1));
    }
}

/// What the items of a state offer to a buying pass, at the prices of the
/// world.
pub open spec fn item_offers(world: World, state: StateView) -> Seq<Offer> {
    Seq::new(
        state.items.boost_items.len(),
        |i: int|
            Offer {
                cost: world.boost_items@[i].purchasing_cost as int,
                open: !state.items.boost_items[i].is_purchased
                    && state.items.boost_items[i].is_visible,
            },
    )
}

/// What the tombs of a state offer to a buying pass, at the prices of the
/// world.
pub open spec fn tomb_offers(world: World, state: StateView) -> Seq<Offer> {
    Seq::new(
        state.tombs.len(),
        |i: int|
            Offer {
                cost: world.tombs@[i].purchasing_cost as int,
                open: !state.tombs[i].is_purchased && state.tombs[i].is_visible,
            },
    )
}

/// The state after a buying pass over the items: in the order of their
/// slots, each item that is on offer, not yet owned, and covered by the money
/// that is left at its turn, is purchased and paid for.
pub open spec fn after_buying_items(world: World, state: StateView) -> StateView {
    let offers = item_offers(world, state);
    let money = state.items.money as int;
    StateView {
        items: ItemsView {
            money: money_after(offers, money, offers.len()) as i64,
            income: state.items.income,
            boost_items: Seq::new(
                state.items.boost_items.len(),
                |i: int|
                    BoostItemState {
                        is_purchased: state.items.boost_items[i].is_purchased || is_bought(
                            offers,
                            money,
                            i,
                        ),
                        ..state.items.boost_items[i]
                    },
            ),
        },
        ..state
    }
}

/// The state after a buying pass over the tombs, which goes as the pass over
/// the items does.
pub open spec fn after_buying_tombs(world: World, state: StateView) -> StateView {
    let offers = tomb_offers(world, state);
    let money = state.items.money as int;
    StateView {
        items: ItemsView { money: money_after(offers, money, offers.len()) as i64, ..state.items },
        tombs: Seq::new(
            state.tombs.len(),
            |i: int|
                TombState {
                    is_purchased: state.tombs[i].is_purchased || is_bought(offers, money, i),
                    ..state.tombs[i]
                },
        ),
        ..state
    }
}

/// Buys every item that is on offer, not yet owned and affordable, in the
/// order of the slots: an early purchase can leave too little for a later
/// item of the same pass.
pub fn auto_buy_item(game: &mut Game)
    requires
        old(game).wf(),
    ensures
        final(game).differs_in_state_only(old(game)),
        final(game).state@ == after_buying_items(old(game).world, old(game).state@),
        final(game).wf(),
{
    let ghost before = game.state@;
    let ghost offers = item_offers(game.world, before);
    let mut i: usize = 0;
    while i < game.state.items.boost_items.len()
        invariant
            game.wf(),
            old(game).wf(),
            before == old(game).state@,
            offers == item_offers(game.world, before),
            game.differs_in_state_only(old(game)),
            i <= before.items.boost_items.len(),
            game.state@.items.boost_items.len() == before.items.boost_items.len(),
            game.state@.items.money == money_after(offers, before.items.money as int, i as nat),
            game.state@ == (StateView {
                items: ItemsView {
                    money: game.state@.items.money,
                    boost_items: game.state@.items.boost_items,
                    ..before.items
                },
                ..before
            }),
            forall|j: int|
                0 <= j < i ==> #[trigger] game.state@.items.boost_items[j] == (BoostItemState {
                    is_purchased: before.items.boost_items[j].is_purchased || is_bought(
                        offers,
                        before.items.money as int,
                        j,
                    ),
                    ..before.items.boost_items[j]
                }),
            forall|j: int|
                i <= j < before.items.boost_items.len() ==> #[trigger] game.state@.items.boost_items[j]
                    == before.items.boost_items[j],
        decreases before.items.boost_items.len() - i,
    {
        let mut item = game.state.items.boost_items[i];
        let cost = game.world.boost_items[item.name.index()].purchasing_cost;
        let can_afford = game.state.items.money >= cost;
        if !item.is_purchased && can_afford && item.is_visible {
            item.is_purchased = true;
            game.state.items.boost_items.set(i, item);
            game.state.items.money = game.state.items.money - cost;
        }
        i = i + 1;
    }
    assert(game.state@.items.boost_items =~= after_buying_items(
        old(game).world,
        before,
    ).items.boost_items);
}

/// Buys every tomb that is on offer, not yet owned and affordable, in the
/// order of the slots.
pub fn auto_buy_tomb(game: &mut Game)
    requires
        old(game).wf(),
    ensures
        final(game).differs_in_state_only(old(game)),
        final(game).state@ == after_buying_tombs(old(game).world, old(game).state@),
        final(game).wf(),
{
    let ghost before = game.state@;
    let ghost offers = tomb_offers(game.world, before);
    let mut i: usize = 0;
    while i < game.state.tombs.len()
        invariant
            game.wf(),
            old(game).wf(),
            before == old(game).state@,
            offers == tomb_offers(game.world, before),
            game.differs_in_state_only(old(game)),
            i <= before.tombs.len(),
            game.state@.tombs.len() == before.tombs.len(),
            game.state@.items.money == money_after(offers, before.items.money as int, i as nat),
            game.state@ == (StateView {
                items: ItemsView { money: game.state@.items.money, ..before.items },
                tombs: game.state@.tombs,
                ..before
            }),
            forall|j: int|
                0 <= j < i ==> #[trigger] game.state@.tombs[j] == (TombState {
                    is_purchased: before.tombs[j].is_purchased || is_bought(
                        offers,
                        before.items.money as int,
                        j,
                    ),
                    ..before.tombs[j]
                }),
            forall|j: int|
                i <= j < before.tombs.len() ==> #[trigger] game.state@.tombs[j] == before.tombs[j],
        decreases before.tombs.len() - i,
    {
        let mut tomb = game.state.tombs[i];
        let cost = game.world.tombs[tomb.name.index()].purchasing_cost;
        let can_afford = game.state.items.money >= cost;
        if !tomb.is_purchased && can_afford && tomb.is_visible {
            tomb.is_purchased = true;
            game.state.tombs.set(i, tomb);
            game.state.items.money = game.state.items.money - cost;
        }
        i = i + 1;
    }
    assert(game.state@.tombs =~= after_buying_tombs(old(game).world, before).tombs);
}

/// A second pass over the items, with no tick in between, changes nothing.
pub proof fn lemma_auto_buy_item_idempotent(world: World, state: StateView)
    requires
        world.wf(),
        state.wf(),
    ensures
        after_buying_items(world, after_buying_items(world, state)) == after_buying_items(
            world,
            state,
        ),
{
    let offers = item_offers(world, state);
    let money = state.items.money as int;
    let once = after_buying_items(world, state);
    lemma_money_only_falls(offers, money, 0, offers.len());
    lemma_money_stays_stored(offers, money, offers.len());
    assert(item_offers(world, once) =~= offers_after(offers, money));
    lemma_buying_twice_buys_nothing(offers, money, offers.len());
    let twice = after_buying_items(world, once);
    assert(twice.items.boost_items =~= once.items.boost_items);
}

/// A second pass over the tombs, with no tick in between, changes nothing.
pub proof fn lemma_auto_buy_tomb_idempotent(world: World, state: StateView)
    requires
        world.wf(),
        state.wf(),
    ensures
        after_buying_tombs(world, after_buying_tombs(world, state)) == after_buying_tombs(
            world,
            state,
        ),
{
    let offers = tomb_offers(world, state);
    let money = state.items.money as int;
    let once = after_buying_tombs(world, state);
    lemma_money_only_falls(offers, money, 0, offers.len());
    lemma_money_stays_stored(offers, money, offers.len());
    assert(tomb_offers(world, once) =~= offers_after(offers, money));
    lemma_buying_twice_buys_nothing(offers, money, offers.len());
    let twice = after_buying_tombs(world, once);
    assert(twice.tombs =~= once.tombs);
}

/// What a buying pass leaves is never negative where it has bought
/// anything, and never more than it started with: it can be stored.
pub proof fn lemma_money_stays_stored(offers: Seq<Offer>, money: int, n: nat)
    requires
        n <= offers.len(),
        i64::MIN <= money <= i64::MAX,
        forall|i: int| 0 <= i < offers.len() ==> (#[trigger] offers[i]).cost >= 0,
    ensures
        i64::MIN <= money_after(offers, money, n) <= money,
        money_after(offers, money, n) >= 0 || money_after(offers, money, n) == money,
    decreases n,
{
    if n > 0 {
        lemma_money_stays_stored(offers, money, (n - 1) as nat);
    }
}

/// Notes in the recording how each of the four automation toggles stands,
/// on or off, whatever the toggles do to the run.
pub fn register_auto_settings(game: &mut Game)
    ensures
        final(game).inputs@ == old(game).inputs@ + seq![
            (
                old(game).state.life_stats.age,
                if old(game).meta_data.options.auto_work {
                    AutoSettingTypes::AutoWorkTrue.record_key()
                } else {
                    AutoSettingTypes::AutoWorkFalse.record_key()
                },
            ),
            (
                old(game).state.life_stats.age,
                if old(game).meta_data.options.auto_living {
                    AutoSettingTypes::AutoLivingTrue.record_key()
                } else {
                    AutoSettingTypes::AutoLivingFalse.record_key()
                },
            ),
            (
                old(game).state.life_stats.age,
                if old(game).meta_data.options.auto_buy_item {
                    AutoSettingTypes::AutoBuyItemTrue.record_key()
                } else {
                    AutoSettingTypes::AutoBuyItemFalse.record_key()
                },
            ),
            (
                old(game).state.life_stats.age,
                if old(game).meta_data.options.auto_buy_tomb {
                    AutoSettingTypes::AutoBuyTombTrue.record_key()
                } else {
                    AutoSettingTypes::AutoBuyTombFalse.record_key()
                },
            ),
        ],
        final(game).differs_in_recording_only(old(game)),
{
    if game.meta_data.options.auto_work {
        game.register_input(AutoSettingTypes::AutoWorkTrue)
    } else {
        game.register_input(AutoSettingTypes::AutoWorkFalse)
    };
    if game.meta_data.options.auto_living {
        game.register_input(AutoSettingTypes::AutoLivingTrue)
    } else {
        game.register_input(AutoSettingTypes::AutoLivingFalse)
    };
    if game.meta_data.options.auto_buy_item {
        game.register_input(AutoSettingTypes::AutoBuyItemTrue)
    } else {
        game.register_input(AutoSettingTypes::AutoBuyItemFalse)
    };
    if game.meta_data.options.auto_buy_tomb {
        game.register_input(AutoSettingTypes::AutoBuyTombTrue)
    } else {
        game.register_input(AutoSettingTypes::AutoBuyTombFalse)
    };
}

} // verus!
