use crate::input::boost_item::{BoostItemTypes, BOOST_ITEM_SIZE};
use crate::table::{is_table, Slotted};
use vstd::prelude::*;

verus! {

/// Whether a character owns an item, and may see it on offer.
#[derive(Clone, Copy, Debug)]
pub struct BoostItemState {
    pub name: BoostItemTypes,
    pub is_purchased: bool,
    pub is_unlocked: bool,
    pub is_visible: bool,
}

impl Slotted for BoostItemState {
    open spec fn slot(&self) -> nat {
        self.name.rank()
    }

    fn slot_index(&self) -> (i: usize) {
        self.name.index()
    }
}

impl BoostItemState {
    /// The record of a item at the start of a life.
    pub open spec fn fresh(name: BoostItemTypes) -> BoostItemState {
        BoostItemState {
            name,
            is_purchased: false,
            is_unlocked: false,
            is_visible: false,
        }
    }

    /// The record of a item at the start of a life.
    pub fn new(name: BoostItemTypes) -> (record: BoostItemState)
        ensures
            record == BoostItemState::fresh(name),
    {
        BoostItemState {
            name,
            is_purchased: false,
            is_unlocked: false,
            is_visible: false,
        }
    }
}

/// A table with the fresh record of every item.
pub fn fresh_boost_items() -> (items: Vec<BoostItemState>)
    ensures
        is_table(items@, BOOST_ITEM_SIZE as nat),
        forall|i: int|
            0 <= i < items@.len() ==> #[trigger] items@[i] == BoostItemState::fresh(items@[i].name),
{
    let names = BoostItemTypes::all();
    let mut items: Vec<BoostItemState> = Vec::new();
    let mut i: usize = 0;
    while i < names.len()
        invariant
            i <= names@.len(),
            names@.len() == BOOST_ITEM_SIZE,
            forall|j: int| 0 <= j < names@.len() ==> (#[trigger] names@[j]).rank() == j,
            items@.len() == i,
            forall|j: int| 0 <= j < i ==> #[trigger] items@[j] == BoostItemState::fresh(names@[j]),
        decreases names@.len() - i,
    {
        items.push(BoostItemState::new(names[i]));
        i = i + 1;
    }
    items
}

/// What a character owns. Amounts are in thousandths of a unit.
pub struct Items {
    pub money: i64,
    /// What the last tick earned, before upkeep.
    pub income: i64,
    pub boost_items: Vec<BoostItemState>,
}

/// What a character owns, as contracts see it: the table as a sequence.
pub struct ItemsView {
    pub money: i64,
    pub income: i64,
    pub boost_items: Seq<BoostItemState>,
}

impl View for Items {
    type V = ItemsView;

    open spec fn view(&self) -> ItemsView {
        ItemsView { money: self.money, income: self.income, boost_items: self.boost_items@ }
    }
}

impl ItemsView {
    /// Nothing owned and nothing earned.
    pub open spec fn fresh() -> ItemsView {
        ItemsView {
            money: 0,
            income: 0,
            boost_items: Seq::new(
                BOOST_ITEM_SIZE as nat,
                |i: int| BoostItemState::fresh(BoostItemTypes::of_rank(i)),
            ),
        }
    }

    pub open spec fn wf(self) -> bool {
        is_table(self.boost_items, BOOST_ITEM_SIZE as nat)
    }
}

impl Items {
    /// Nothing owned and nothing earned.
    pub fn new() -> (items: Items)
        ensures
            items@ == ItemsView::fresh(),
            items@.wf(),
    {
        let boost_items = fresh_boost_items();
        proof {
            BoostItemTypes::lemma_of_rank();
            assert(boost_items@ =~= ItemsView::fresh().boost_items);
        }
        Items { money: 0, income: 0, boost_items }
    }
}

} // verus!
