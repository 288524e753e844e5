use crate::fixed::at_most;
use crate::input::stat::{StatTypes, STAT_SIZE};
use crate::table::{is_table, Slotted};
use vstd::prelude::*;

verus! {

/// The experience that the first level takes, in thousandths. Each further
/// level takes as much again on top.
pub const XP_PER_LEVEL: u64 = 10_000;

/// The experience that it takes to leave `level` for the next.
pub open spec fn xp_required(level: int) -> int {
    (level + 1) * XP_PER_LEVEL
}

/// `1 + 2 + ... + n`.
pub open spec fn triangle(n: nat) -> nat
    decreases n,
{
    if n == 0 {
        0
    } else {
        n + triangle((n - 1) as nat)
    }
}

/// All the experience that went into reaching `level` and gathering
/// `progress` beyond it.
pub open spec fn total_xp(level: int, progress: int) -> int {
    XP_PER_LEVEL * triangle(level as nat) + progress
}

/// The level and the progress after `gained` experience: the progress grows,
/// and where it covers what the level takes, the level goes up by one and
/// what is left over carries on. A tick raises a level by one at most.
pub open spec fn leveled(level: u32, progress: u64, gained: u64) -> (u32, u64) {
    let gathered = at_most(progress + gained, u64::MAX as int);
    if level < u32::MAX && gathered >= xp_required(level as int) {
        ((level + 1) as u32, (gathered - xp_required(level as int)) as u64)
    } else {
        (level, gathered as u64)
    }
}

/// How far along the progress is toward the next level, in hundredths, and
/// never more than a hundred of them.
pub open spec fn percentage(level: u32, progress: u64) -> u64 {
    at_most(progress * 100 / xp_required(level as int), 100) as u64
}

/// Adds `gained` experience to a level and its progress.
pub fn level_up(level: u32, progress: u64, gained: u64) -> (after: (u32, u64))
    ensures
        after == leveled(level, progress, gained),
{
    let gathered: u64 = if gained > u64::MAX - progress {
        u64::MAX
    } else {
        progress + gained
    };
    let required: u64 = (level as u64 + 1) * XP_PER_LEVEL;
    if level < u32::MAX && gathered >= required {
        (level + 1, gathered - required)
    } else {
        (level, gathered)
    }
}

/// The executable form of `percentage`.
pub fn percent_of(level: u32, progress: u64) -> (percent: u64)
    ensures
        percent == percentage(level, progress),
{
    let required: u64 = (level as u64 + 1) * XP_PER_LEVEL;
    let percent: u128 = (progress as u128) * 100 / (required as u128);
    if percent > 100 {
        100
    } else {
        percent as u64
    }
}

/// Across a level boundary no experience is lost and none is counted twice,
/// as long as the progress fits its counter and the level is not the last.
pub proof fn lemma_level_up_keeps_experience(level: u32, progress: u64, gained: u64)
    requires
        progress + gained <= u64::MAX,
        level < u32::MAX,
    ensures
        total_xp(
            leveled(level, progress, gained).0 as int,
            leveled(level, progress, gained).1 as int,
        ) == total_xp(level as int, progress as int) + gained,
{
}

/// The values that the six stats start a life with.
pub struct BaseStats {
    pub str: u32,
    pub int: u32,
    pub cha: u32,
    pub con: u32,
    pub dex: u32,
    pub faith: u32,
}

/// One stat of a character.
#[derive(Clone, Copy, Debug)]
pub struct Stat {
    pub name: StatTypes,
    /// The level of the stat.
    pub value: u32,
    /// The experience gathered toward the next level, in thousandths.
    pub next_level_progress: u64,
    /// The same progress in hundredths of what the next level takes.
    pub next_level_percentage: u64,
}

impl Slotted for Stat {
    open spec fn slot(&self) -> nat {
        self.name.rank()
    }

    fn slot_index(&self) -> (i: usize) {
        self.name.index()
    }
}

impl Stat {
    /// A stat at `init_value`, with no progress beyond it.
    pub open spec fn fresh(stat: StatTypes, init_value: u32) -> Stat {
        Stat { name: stat, value: init_value, next_level_progress: 0, next_level_percentage: 0 }
    }

    /// A stat at `init_value`, with no progress beyond it.
    pub fn new(stat: StatTypes, init_value: u32) -> (made: Stat)
        ensures
            made == Stat::fresh(stat, init_value),
    {
        Stat { name: stat, value: init_value, next_level_progress: 0, next_level_percentage: 0 }
    }

    /// The stat after `gained` experience.
    pub open spec fn trained(self, gained: u64) -> Stat {
        let after = leveled(self.value, self.next_level_progress, gained);
        Stat {
            name: self.name,
            value: after.0,
            next_level_progress: after.1,
            next_level_percentage: percentage(after.0, after.1),
        }
    }

    /// Adds `gained` experience to the stat.
    pub fn train(&mut self, gained: u64)
        ensures
            *final(self) == old(self).trained(gained),
    {
        let after = level_up(self.value, self.next_level_progress, gained);
        self.value = after.0;
        self.next_level_progress = after.1;
        self.next_level_percentage = percent_of(after.0, after.1);
    }
}

/// The stat table of a character whose stats start at `initial_values`, which
/// lists them in declaration order.
pub fn get_stats(initial_values: [u32; STAT_SIZE]) -> (stats: Vec<Stat>)
    ensures
        is_table(stats@, STAT_SIZE as nat),
        forall|i: int|
            0 <= i < STAT_SIZE ==> #[trigger] stats@[i] == Stat::fresh(
                StatTypes::of_rank(i),
                initial_values@[i],
            ),
{
    let names = StatTypes::all();
    let mut stats: Vec<Stat> = Vec::new();
    let mut i: usize = 0;
    while i < names.len()
        invariant
            i <= names@.len(),
            names@.len() == STAT_SIZE,
            forall|j: int| 0 <= j < names@.len() ==> #[trigger] names@[j] == StatTypes::of_rank(j),
            forall|j: int| 0 <= j < names@.len() ==> (#[trigger] names@[j]).rank() == j,
            stats@.len() == i,
            forall|j: int|
                0 <= j < i ==> #[trigger] stats@[j] == Stat::fresh(
                    StatTypes::of_rank(j),
                    initial_values@[j],
                ),
        decreases names@.len() - i,
    {
        stats.push(Stat::new(names[i], initial_values[i]));
        i = i + 1;
    }
    stats
}

/// The stat table of a character whose stats start at `base`.
pub fn get_stats_base(base: BaseStats) -> (stats: Vec<Stat>)
    ensures
        is_table(stats@, STAT_SIZE as nat),
        stats@[0] == Stat::fresh(StatTypes::Str, base.str),
        stats@[1] == Stat::fresh(StatTypes::Int, base.int),
        stats@[2] == Stat::fresh(StatTypes::Cha, base.cha),
        stats@[3] == Stat::fresh(StatTypes::Con, base.con),
        stats@[4] == Stat::fresh(StatTypes::Dex, base.dex),
        stats@[5] == Stat::fresh(StatTypes::Faith, base.faith),
{
    let initial_values = [base.str, base.int, base.cha, base.con, base.dex, base.faith];
    get_stats(initial_values)
}

} // verus!
