use vstd::prelude::*;
use crate::stuff::{Posion, Stuff, spec_stuff_from_index, stuff_from_index};

verus! {

/// Upper bound (exclusive) on the number of slimes in the wave of `level`:
/// a fifth of the level, but at least 2 and at most 5.
pub open spec fn spec_wave_bound(level: int) -> int {
    let fifth = level / 5;
    let at_least = if fifth > 2 {
        fifth
    } else {
        2
    };
    if at_least < 5 {
        at_least
    } else {
        5
    }
}

/// The exclusive upper bound on the size of the wave of `level`.
pub fn wave_bound(level: i32) -> (bound: i32)
    ensures
        bound == spec_wave_bound(level as int),
        2 <= bound <= 5,
{
    let fifth = level / 5;
    let at_least = if fifth > 2 {
        fifth
    } else {
        2
    };
    if at_least < 5 {
        at_least
    } else {
        5
    }
}

/// Largest index drawn for the element of a new slime (indices `0..=3`).
pub const SLIME_STUFF_DRAW_MAX: u32 = 3;

/// The elements of a wave of slimes from the indices drawn for them.
pub fn wave_from_draws(draws: &Vec<u32>) -> (stuffs: Vec<Stuff>)
    ensures
        stuffs@.len() == draws@.len(),
        forall|i: int| 0 <= i < draws@.len() ==> #[trigger] stuffs@[i] == spec_stuff_from_index(draws@[i]),
{
    let mut stuffs: Vec<Stuff> = Vec::new();
    let mut i: usize = 0;
    while i < draws.len()
        invariant
            i <= draws@.len(),
            stuffs@.len() == i,
            forall|k: int| 0 <= k < i ==> #[trigger] stuffs@[k] == spec_stuff_from_index(draws@[k]),
        decreases draws@.len() - i,
    {
        stuffs.push(stuff_from_index(draws[i]));
        i = i + 1;
    }
    stuffs
}

/// Starts the next wave: the level goes up by one, and between one slime and
/// one less than the new level's wave bound are spawned, each of a random element.
/// Returns the elements of the new slimes.
pub fn next_wave(level: &mut i32) -> (stuffs: Vec<Stuff>)
    requires
        *old(level) < i32::MAX,
    ensures
        *final(level) == *old(level) + 1,
        1 <= stuffs@.len() < spec_wave_bound(*final(level) as int),
{
    *level = *level + 1;
    let bound = wave_bound(*level);
    let mut rng = crate::random::thread_rng();
    let count = crate::random::gen_range_inclusive(&mut rng, 1, (bound - 1) as u32);
    let mut draws: Vec<u32> = Vec::new();
    let mut i: u32 = 0;
    while i < count
        invariant
            i <= count,
            draws@.len() == i,
        decreases count - i,
    {
        draws.push(crate::random::gen_range_inclusive(&mut rng, 0, SLIME_STUFF_DRAW_MAX));
        i = i + 1;
    }
    wave_from_draws(&draws)
}

/// A falling potion kills a slime it touches when they share an element.
pub fn poop_hits_slime(poop: &Posion, slime: Stuff) -> (kills: bool)
    ensures
        kills == (poop.property == slime),
{
    poop.property == slime
}

/// The reach of the explosion of a potion that lands: sixteen units per level
/// of strength.
pub fn blast_radius(poop: &Posion) -> (radius: i64)
    ensures
        radius == poop.stronger * 16,
{
    poop.stronger as i64 * 16
}

/// An explosion kills a slime within its reach that shares its element.
pub fn explosion_kills(in_reach: bool, blast: Stuff, slime: Stuff) -> (kills: bool)
    ensures
        kills == (in_reach && blast == slime),
{
    in_reach && blast == slime
}

/// Smallest and largest number of pieces a dying slime bursts into.
pub const DEBRIS_MIN: u32 = 3;

pub const DEBRIS_MAX: u32 = 10;

/// The number of pieces a dying slime bursts into, drawn at random.
pub fn debris_count() -> (n: u32)
    ensures
        DEBRIS_MIN <= n <= DEBRIS_MAX,
{
    let mut rng = crate::random::thread_rng();
    crate::random::gen_range_inclusive(&mut rng, DEBRIS_MIN, DEBRIS_MAX)
}

/// Every element can be drawn for a new slime: each of the four is the element
/// of some index in the drawn range `0..=SLIME_STUFF_DRAW_MAX`, poison included.
pub proof fn lemma_every_slime_stuff_drawable(stuff: Stuff)
    ensures
        exists|i: u32| i <= SLIME_STUFF_DRAW_MAX && #[trigger] spec_stuff_from_index(i) == stuff,
{
    match stuff {
        Stuff::Fire => assert(spec_stuff_from_index(0) == stuff),
        Stuff::Water => assert(spec_stuff_from_index(1) == stuff),
        Stuff::Light => assert(spec_stuff_from_index(2) == stuff),
        Stuff::Poison => assert(spec_stuff_from_index(3) == stuff),
    }
}

/// The wave bound follows the level: 2 up to level 9, a fifth of the level
/// (rounded down) from 10 to 24, and 5 from level 25 on.
pub proof fn lemma_wave_bound_by_level(level: int)
    ensures
        level < 10 ==> spec_wave_bound(level) == 2,
        10 <= level < 25 ==> 5 * spec_wave_bound(level) <= level < 5 * spec_wave_bound(level) + 5,
        level >= 25 ==> spec_wave_bound(level) == 5,
{
}

/// Each index in `0..=3` names a different element, and any larger index
/// gives fire.
pub proof fn lemma_slime_draws_distinct(i: u32, j: u32)
    ensures
        i <= 3 && j <= 3 && i != j ==> spec_stuff_from_index(i) != spec_stuff_from_index(j),
        i > 3 ==> spec_stuff_from_index(i) == Stuff::Fire,
        spec_stuff_from_index(0) == Stuff::Fire,
{
}

} // verus!
