use vstd::prelude::*;

verus! {

/// The days that a life can last: seventy years of 365 days.
pub const LIFESPAN: u32 = 25_550;

/// The health that a life starts with, in thousandths.
pub const STARTING_HEALTH: i64 = 100_000_000;

/// The health at which a character dies, in thousandths.
pub const DEATH_THRESHOLD: i64 = 0;

/// How a life stands. A character is alive, then dying for one step, then
/// dead for good.
#[derive(Clone, Copy, Debug)]
pub struct LifeStats {
    /// The age in days. One tick is one day.
    pub age: u32,
    pub health: i64,
    pub happiness: i64,
    pub is_dying: bool,
    pub dead: bool,
}

impl LifeStats {
    /// A life at its start.
    pub open spec fn fresh() -> LifeStats {
        LifeStats { age: 0, health: STARTING_HEALTH, happiness: 0, is_dying: false, dead: false }
    }

    /// A life at its start.
    pub fn new() -> (life: LifeStats)
        ensures
            life == LifeStats::fresh(),
    {
        LifeStats { age: 0, health: STARTING_HEALTH, happiness: 0, is_dying: false, dead: false }
    }

    /// Whether the character can go on: neither dying nor dead.
    pub open spec fn is_alive(self) -> bool {
        !self.is_dying && !self.dead
    }

    /// Whether the life has run out: health is down to the threshold, or
    /// the age is past the lifespan.
    pub open spec fn has_run_out(self) -> bool {
        self.health <= DEATH_THRESHOLD || self.age > LIFESPAN
    }

    /// The executable form of `is_alive`.
    pub fn is_alive_now(&self) -> (alive: bool)
        ensures
            alive == self.is_alive(),
    {
        !self.is_dying && !self.dead
    }

    /// The executable form of `has_run_out`.
    pub fn should_die(&self) -> (run_out: bool)
        ensures
            run_out == self.has_run_out(),
    {
        self.health <= DEATH_THRESHOLD || self.age > LIFESPAN
    }
}

} // verus!
