use crate::input::housing::HOUSING_SIZE;
use crate::input::skill::SKILL_SIZE;
use crate::input::stat::{StatTypes, STAT_SIZE};
use crate::input::tomb::TOMB_SIZE;
use crate::input::work::WORK_SIZE;
use crate::input::housing::HousingTypes;
use crate::input::skill::SkillTypes;
use crate::input::tomb::TombTypes;
use crate::input::work::WorkTypes;
use crate::state::housing::{fresh_housing, HousingState};
use crate::state::items::{Items, ItemsView};
use crate::state::life_stats::LifeStats;
use crate::state::rebirth_stats::{RebirthStats, RebirthStatsView};
use crate::state::skill::{fresh_skills, SkillState};
use crate::state::stats::{get_stats, Stat};
use crate::state::tomb::{fresh_tombs, TombState};
use crate::state::work::{fresh_works, WorkState};
use crate::input::boost_item::BOOST_ITEM_SIZE;
use crate::input::rebirth_upgrade::REBIRTH_UPGRADE_SIZE;
use crate::table::{check_table, is_table};
use crate::world_content::world::World;
use vstd::prelude::*;

verus! {

/// The whole save of one run: what a life has come to, and, inside
/// `rebirth_stats`, what outlasts it.
pub struct StateContainer {
    pub items: Items,
    pub life_stats: LifeStats,
    pub stats: Vec<Stat>,
    pub works: Vec<WorkState>,
    pub housing: Vec<HousingState>,
    pub skills: Vec<SkillState>,
    pub tombs: Vec<TombState>,
    pub rebirth_stats: RebirthStats,
}

/// The save of one run, as contracts see it: each table as a sequence.
pub struct StateView {
    pub items: ItemsView,
    pub life_stats: LifeStats,
    pub stats: Seq<Stat>,
    pub works: Seq<WorkState>,
    pub housing: Seq<HousingState>,
    pub skills: Seq<SkillState>,
    pub tombs: Seq<TombState>,
    pub rebirth_stats: RebirthStatsView,
}

impl View for StateContainer {
    type V = StateView;

    open spec fn view(&self) -> StateView {
        StateView {
            items: self.items@,
            life_stats: self.life_stats,
            stats: self.stats@,
            works: self.works@,
            housing: self.housing@,
            skills: self.skills@,
            tombs: self.tombs@,
            rebirth_stats: self.rebirth_stats@,
        }
    }
}

impl StateView {
    /// Every table holds one record for each name, in the name's slot.
    pub open spec fn wf(self) -> bool {
        &&& self.items.wf()
        &&& is_table(self.stats, STAT_SIZE as nat)
        &&& is_table(self.works, WORK_SIZE as nat)
        &&& is_table(self.housing, HOUSING_SIZE as nat)
        &&& is_table(self.skills, SKILL_SIZE as nat)
        &&& is_table(self.tombs, TOMB_SIZE as nat)
        &&& self.rebirth_stats.wf()
    }

    /// The run that starts with `rebirth_stats` carried over: everything else
    /// is at its starting value.
    pub open spec fn starting_with(rebirth_stats: RebirthStatsView) -> StateView {
        StateView {
            items: ItemsView::fresh(),
            life_stats: LifeStats::fresh(),
            stats: Seq::new(STAT_SIZE as nat, |i: int| Stat::fresh(StatTypes::of_rank(i), 0)),
            works: Seq::new(WORK_SIZE as nat, |i: int| WorkState::fresh(WorkTypes::of_rank(i))),
            housing: Seq::new(
                HOUSING_SIZE as nat,
                |i: int| HousingState::fresh(HousingTypes::of_rank(i)),
            ),
            skills: Seq::new(SKILL_SIZE as nat, |i: int| SkillState::fresh(SkillTypes::of_rank(i))),
            tombs: Seq::new(TOMB_SIZE as nat, |i: int| TombState::fresh(TombTypes::of_rank(i))),
            rebirth_stats,
        }
    }

    /// The very first run.
    pub open spec fn fresh() -> StateView {
        StateView::starting_with(RebirthStatsView::fresh())
    }
}

impl StateContainer {
    /// Whether the state is well formed, for a state that was put together
    /// by hand or read from a save.
    pub fn check(&self) -> (ok: bool)
        ensures
            ok == self@.wf(),
    {
        check_table(&self.items.boost_items, BOOST_ITEM_SIZE) && check_table(
            &self.stats,
            STAT_SIZE,
        ) && check_table(&self.works, WORK_SIZE) && check_table(&self.housing, HOUSING_SIZE)
            && check_table(&self.skills, SKILL_SIZE) && check_table(&self.tombs, TOMB_SIZE)
            && self.rebirth_stats.max_job_levels.len() == WORK_SIZE && check_table(
            &self.rebirth_stats.rebirth_upgrades,
            REBIRTH_UPGRADE_SIZE,
        )
    }
}

/// A run that starts with `rebirth_stats` is well formed where they are.
pub proof fn lemma_starting_wf(rebirth_stats: RebirthStatsView)
    requires
        rebirth_stats.wf(),
    ensures
        StateView::starting_with(rebirth_stats).wf(),
{
    StatTypes::lemma_of_rank();
    WorkTypes::lemma_of_rank();
    HousingTypes::lemma_of_rank();
    SkillTypes::lemma_of_rank();
    TombTypes::lemma_of_rank();
    crate::input::boost_item::BoostItemTypes::lemma_of_rank();
}

/// The run that starts with `rebirth_stats` carried over.
fn start_run(rebirth_stats: RebirthStats) -> (state: StateContainer)
    ensures
        state@ == StateView::starting_with(rebirth_stats@),
{
    let items = Items::new();
    let stats = get_stats([0, 0, 0, 0, 0, 0]);
    let works = fresh_works();
    let housing = fresh_housing();
    let skills = fresh_skills();
    let tombs = fresh_tombs();
    proof {
        let target = StateView::starting_with(rebirth_stats@);
        WorkTypes::lemma_of_rank();
        HousingTypes::lemma_of_rank();
        SkillTypes::lemma_of_rank();
        TombTypes::lemma_of_rank();
        assert(stats@ =~= target.stats);
        assert(works@ =~= target.works);
        assert(housing@ =~= target.housing);
        assert(skills@ =~= target.skills);
        assert(tombs@ =~= target.tombs);
    }
    StateContainer {
        items,
        life_stats: LifeStats::new(),
        stats,
        works,
        housing,
        skills,
        tombs,
        rebirth_stats,
    }
}

/// The state of a game that has just begun: nothing earned, nothing learned,
/// nothing carried over. The state is the same in every world.
pub fn new_game(_world: &World) -> (state: StateContainer)
    ensures
        state@ == StateView::fresh(),
        state@.wf(),
{
    proof {
        lemma_starting_wf(RebirthStatsView::fresh());
    }
    start_run(RebirthStats::new())
}

/// The state of the run that follows a rebirth: `rebirth_stats` is carried
/// over as it is, and everything else starts again, the same in every world.
pub fn rebirth(_world: &World, rebirth_stats: RebirthStats) -> (state: StateContainer)
    ensures
        state@ == StateView::starting_with(rebirth_stats@),
        rebirth_stats@.wf() ==> state@.wf(),
{
    proof {
        if rebirth_stats@.wf() {
            lemma_starting_wf(rebirth_stats@);
        }
    }
    start_run(rebirth_stats)
}

} // verus!
