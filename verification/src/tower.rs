use vstd::prelude::*;
use std::collections::VecDeque;
use crate::stuff::Posion;

verus! {

/// Hit points a tower has at the start of a game and after a restart.
pub const TOWER_HP: i32 = 10;

/// Shared state of the tower: its hit points and the potions the witch has
/// brewed and put on it, oldest first, waiting for the bird to fetch them.
pub struct ResourceTower {
    pub hp: i32,
    pub posions: VecDeque<Posion>,
}

impl ResourceTower {
    /// A tower with full hit points and no potions.
    pub fn new() -> (tower: Self)
        ensures
            tower.hp == TOWER_HP,
            tower.posions@ == Seq::<Posion>::empty(),
    {
        ResourceTower { hp: TOWER_HP, posions: VecDeque::with_capacity(10) }
    }

    /// Number of potions waiting on the tower.
    pub fn posion_count(&self) -> (n: usize)
        ensures
            n == self.posions@.len(),
    {
        self.posions.len()
    }
}

/// The tower as the slimes see it: hit points, the hits of slimes that reached
/// it and have not been counted yet, and whether it is flashing from a hit.
#[derive(PartialEq, Eq, Structural, Clone, Copy, Debug)]
pub struct Tower {
    pub hp: i32,
    pub hits: i32,
    pub flashing: bool,
}

impl Tower {
    /// An undamaged tower with full hit points.
    pub fn new() -> (tower: Self)
        ensures
            tower == (Tower { hp: TOWER_HP, hits: 0, flashing: false }),
    {
        Tower { hp: TOWER_HP, hits: 0, flashing: false }
    }
}

/// A slime reached the tower: one more hit is waiting to be counted.
pub fn slime_reached_tower(tower: &mut Tower)
    requires
        old(tower).hits < i32::MAX,
    ensures
        final(tower).hits == old(tower).hits + 1,
        final(tower).hp == old(tower).hp,
        final(tower).flashing == old(tower).flashing,
{
    tower.hits = tower.hits + 1;
}

/// Whether the tower has hits to count (only then does its flash timer run).
pub fn tower_hit_pending(tower: &Tower) -> (pending: bool)
    ensures
        pending == (tower.hits > 0),
{
    tower.hits > 0
}

/// The tower after one update of its flash: when a hit is waiting and the flash
/// timer fired, a steady tower starts flashing, and a flashing tower stops and
/// loses one hit point for the hit.
pub open spec fn spec_tower_hit(tower: Tower, timer_finished: bool) -> Tower {
    if tower.hits > 0 && timer_finished {
        if !tower.flashing {
            Tower { flashing: true, ..tower }
        } else {
            Tower { hp: (tower.hp - 1) as i32, hits: (tower.hits - 1) as i32, flashing: false }
        }
    } else {
        tower
    }
}

/// Counts the hits of slimes on the tower, one flash at a time.
pub fn tower_hit(tower: &mut Tower, timer_finished: bool)
    requires
        old(tower).hits > 0 && timer_finished && old(tower).flashing ==> old(tower).hp > i32::MIN,
    ensures
        *final(tower) == spec_tower_hit(*old(tower), timer_finished),
        !timer_finished ==> *final(tower) == *old(tower),
        old(tower).hits <= 0 ==> *final(tower) == *old(tower),
{
    if tower.hits > 0 && timer_finished {
        if !tower.flashing {
            tower.flashing = true;
        } else {
            tower.flashing = false;
            tower.hits = tower.hits - 1;
            tower.hp = tower.hp - 1;
        }
    }
}

/// The game is over once the tower's hit points drop below zero.
pub fn is_game_over(tower: &Tower) -> (over: bool)
    ensures
        over == (tower.hp < 0),
{
    tower.hp < 0
}

/// Counting hits never changes the tower's balance of hit points minus the hits
/// still to count, and never makes the number of waiting hits negative.
pub proof fn lemma_tower_hit_keeps_balance(tower: Tower, timer_finished: bool)
    requires
        tower.hits >= 0,
        tower.hp > i32::MIN,
    ensures
        spec_tower_hit(tower, timer_finished).hp - spec_tower_hit(tower, timer_finished).hits
            == tower.hp - tower.hits,
        spec_tower_hit(tower, timer_finished).hits >= 0,
{
}

/// Every hit costs the tower exactly one hit point, after two firings of the
/// flash timer: from a steady tower with a hit waiting, two updates leave it
/// steady with one hit point and one waiting hit less.
pub proof fn lemma_hit_costs_one_hp(tower: Tower)
    requires
        tower.hits > 0,
        tower.hp > i32::MIN,
        !tower.flashing,
    ensures
        spec_tower_hit(spec_tower_hit(tower, true), true) == (Tower {
            hp: (tower.hp - 1) as i32,
            hits: (tower.hits - 1) as i32,
            flashing: false,
        }),
{
}

/// A slime that reaches the tower is eventually paid for with one hit point:
/// counting its hit (two timer firings on a steady tower) brings the tower back
/// to its state before the slime arrived, one hit point lower.
pub proof fn lemma_slime_costs_one_hp(tower: Tower)
    requires
        0 <= tower.hits < i32::MAX,
        tower.hp > i32::MIN,
        !tower.flashing,
    ensures
        ({
            let arrived = Tower { hits: (tower.hits + 1) as i32, ..tower };
            spec_tower_hit(spec_tower_hit(arrived, true), true) == Tower {
                hp: (tower.hp - 1) as i32,
                ..tower
            }
        }),
{
}

/// The tower changes only when its flash timer fires and a hit is waiting:
/// a frame in which the timer did not fire, or with no hit to count, leaves the
/// tower exactly as it was.
pub proof fn lemma_tower_still_without_timer(tower: Tower, timer_finished: bool)
    ensures
        spec_tower_hit(tower, false) == tower,
        tower.hits <= 0 ==> spec_tower_hit(tower, timer_finished) == tower,
{
}

/// Flashing in between: frames in which the timer does not fire do not undo a
/// started flash, so the next firing counts the hit.
pub proof fn lemma_flash_survives_quiet_frames(tower: Tower, quiet: nat)
    requires
        tower.hits > 0,
        tower.hp > i32::MIN,
        tower.flashing,
    ensures
        quiet_frames(tower, quiet) == tower,
        spec_tower_hit(quiet_frames(tower, quiet), true) == (Tower {
            hp: (tower.hp - 1) as i32,
            hits: (tower.hits - 1) as i32,
            flashing: false,
        }),
    decreases quiet,
{
    if quiet > 0 {
        lemma_flash_survives_quiet_frames(tower, (quiet - 1) as nat);
    }
}

/// The tower after `n` frames in which the flash timer did not fire.
pub open spec fn quiet_frames(tower: Tower, n: nat) -> Tower
    decreases n,
{
    if n == 0 {
        tower
    } else {
        spec_tower_hit(quiet_frames(tower, (n - 1) as nat), false)
    }
}

} // verus!
