use vstd::prelude::*;
use std::collections::VecDeque;
use crate::stuff::Posion;
use crate::tower::{ResourceTower, Tower, TOWER_HP};

verus! {

/// Most potions the bird carries at a time.
pub const BIRD_CAPACITY: usize = 3;

/// The way the bird flies along the top of the screen.
#[derive(PartialEq, Eq, Structural, Clone, Copy, Debug)]
pub enum Turn {
    Right,
    Left,
}

/// The bird: the potions it carries, first to drop first, and its heading.
pub struct Bird {
    pub poops: VecDeque<Posion>,
    pub turn: Turn,
}

impl Bird {
    /// A bird with empty claws, flying right.
    pub fn new() -> (bird: Self)
        ensures
            bird.poops@ == Seq::<Posion>::empty(),
            bird.turn == Turn::Right,
    {
        Bird { poops: VecDeque::with_capacity(BIRD_CAPACITY), turn: Turn::Right }
    }
}

/// How many potions a bird carrying `carried` takes from a tower holding `waiting`.
pub open spec fn spec_loaded_count(carried: nat, waiting: nat) -> nat {
    if carried >= 3 {
        0
    } else if 3 - carried <= waiting {
        (3 - carried) as nat
    } else {
        waiting
    }
}

/// How many potions are taken off the tower and lost because the bird was
/// already full when it reached for them (at most one, on the same visit).
pub open spec fn spec_lost_count(carried: nat, waiting: nat) -> nat {
    let k = spec_loaded_count(carried, waiting);
    if k < 3 && waiting > k && carried + k >= 3 {
        1
    } else {
        0
    }
}

/// Loads the bird at the tower: it reaches for a potion up to three times,
/// and stops when the tower is empty or its claws are full. A potion it reaches
/// for with full claws falls and is lost. Returns each loaded potion with the
/// slot it takes on the bird (the number of potions it carried before).
pub fn load_bird(bird: &mut Bird, tower: &mut ResourceTower) -> (loaded: Vec<(Posion, usize)>)
    ensures
        ({
            let b = old(bird).poops@.len();
            let t = old(tower).posions@;
            let k = spec_loaded_count(b, t.len());
            let lost = spec_lost_count(b, t.len());
            &&& final(bird).poops@ == old(bird).poops@ + t.take(k as int)
            &&& final(tower).posions@ == t.skip((k + lost) as int)
            &&& loaded@.len() == k
            &&& forall|j: int|
                0 <= j < k ==> #[trigger] loaded@[j] == (t[j], (b + j) as usize)
        }),
        final(bird).turn == old(bird).turn,
        final(tower).hp == old(tower).hp,
{
    let ghost b = bird.poops@.len();
    let ghost t = tower.posions@;
    let mut loaded: Vec<(Posion, usize)> = Vec::new();
    let mut i: usize = 0;
    let mut lost = false;
    while i < BIRD_CAPACITY
        invariant_except_break
            b == old(bird).poops@.len(),
            t == old(tower).posions@,
            i <= 3,
            i <= t.len(),
            i == 0 || b + i <= 3,
            bird.poops@ == old(bird).poops@ + t.take(i as int),
            tower.posions@ == t.skip(i as int),
            loaded@.len() == i,
            forall|j: int| 0 <= j < i ==> #[trigger] loaded@[j] == (t[j], (b + j) as usize),
            bird.turn == old(bird).turn,
            tower.hp == old(tower).hp,
            !lost,
        ensures
            b == old(bird).poops@.len(),
            t == old(tower).posions@,
            i <= 3,
            i <= t.len(),
            i == 0 || b + i <= 3,
            bird.poops@ == old(bird).poops@ + t.take(i as int),
            loaded@.len() == i,
            forall|j: int| 0 <= j < i ==> #[trigger] loaded@[j] == (t[j], (b + j) as usize),
            bird.turn == old(bird).turn,
            tower.hp == old(tower).hp,
            lost ==> i < 3 && i < t.len() && b + i >= 3 && tower.posions@ == t.skip(i + 1),
            !lost ==> tower.posions@ == t.skip(i as int) && (i == 3 || i == t.len()),
        decreases 3 - i,
    {
        let posion = tower.posions.pop_front();
        let len = bird.poops.len();
        match posion {
            None => {
                break;
            },
            Some(p) => {
                if len >= BIRD_CAPACITY {
                    proof {
                        assert(i < t.len());
                        assert(t.skip(i as int).subrange(1, t.skip(i as int).len() as int) =~= t.skip(
                            i + 1,
                        ));
                    }
                    lost = true;
                    break;
                }
                loaded.push((p, len));
                bird.poops.push_back(p);
                proof {
                    assert(t.skip(i as int).subrange(1, t.skip(i as int).len() as int) =~= t.skip(
                        i + 1,
                    ));
                    assert(old(bird).poops@ + t.take(i + 1) =~= (old(bird).poops@ + t.take(
                        i as int,
                    )).push(p));
                }
                i = i + 1;
            },
        }
    }
    loaded
}

/// The bird's decisions for one frame: flying right and past the tower, it
/// loads potions and turns left; past the left edge it turns right.
/// Returns the potions loaded on this frame with their slots.
pub fn bird_turn(bird: &mut Bird, tower: &mut ResourceTower, past_right: bool, past_left: bool) -> (loaded: Vec<(Posion, usize)>)
    ensures
        ({
            let b = old(bird).poops@.len();
            let t = old(tower).posions@;
            let k = spec_loaded_count(b, t.len());
            let lost = spec_lost_count(b, t.len());
            if old(bird).turn == Turn::Right && past_right {
                &&& final(bird).turn == Turn::Left
                &&& final(bird).poops@ == old(bird).poops@ + t.take(k as int)
                &&& final(tower).posions@ == t.skip((k + lost) as int)
                &&& loaded@.len() == k
                &&& forall|j: int|
                    0 <= j < k ==> #[trigger] loaded@[j] == (t[j], (b + j) as usize)
            } else {
                &&& final(bird).turn == (if past_left { Turn::Right } else { old(bird).turn })
                &&& final(bird).poops@ == old(bird).poops@
                &&& final(tower).posions@ == t
                &&& loaded@.len() == 0
            }
        }),
        final(tower).hp == old(tower).hp,
{
    let heading_right = match bird.turn {
        Turn::Right => true,
        Turn::Left => false,
    };
    if heading_right && past_right {
        let loaded = load_bird(bird, tower);
        bird.turn = Turn::Left;
        loaded
    } else {
        if past_left {
            bird.turn = Turn::Right;
        }
        Vec::new()
    }
}

/// The bird drops the first potion it carries, if any.
pub fn bird_drop(bird: &mut Bird) -> (poop: Option<Posion>)
    ensures
        match poop {
            Some(p) => old(bird).poops@.len() > 0 && p == old(bird).poops@[0]
                && final(bird).poops@ == old(bird).poops@.drop_first(),
            None => old(bird).poops@.len() == 0 && final(bird).poops@ == old(bird).poops@,
        },
        final(bird).turn == old(bird).turn,
{
    bird.poops.pop_front()
}

/// Restarts a lost game: the tower is repaired to full hit points and the
/// bird lets go of everything it carries.
pub fn restart_game(tower: &mut Tower, bird: &mut Bird)
    ensures
        final(tower).hp == TOWER_HP,
        final(tower).hits == old(tower).hits,
        final(tower).flashing == old(tower).flashing,
        final(bird).poops@ == Seq::<Posion>::empty(),
        final(bird).turn == old(bird).turn,
{
    tower.hp = TOWER_HP;
    bird.poops.clear();
}

/// The bird never carries more than three potions, and a visit to the tower
/// loses no potion: those it takes off the tower are the ones it loaded plus
/// at most one that fell.
pub proof fn lemma_bird_load_accounting(carried: nat, waiting: nat)
    ensures
        carried <= 3 ==> carried + spec_loaded_count(carried, waiting) <= 3,
        spec_loaded_count(carried, waiting) + spec_lost_count(carried, waiting) <= waiting,
        spec_lost_count(carried, waiting) <= 1,
        spec_loaded_count(carried, waiting) <= 3,
{
}

/// A bird that arrives with free claws at a tower with potions always loads
/// at least one potion.
pub proof fn lemma_bird_loads_when_possible(carried: nat, waiting: nat)
    requires
        carried < 3,
        waiting > 0,
    ensures
        spec_loaded_count(carried, waiting) >= 1,
{
}

/// Potions travel first in, first out: a bird with empty claws loading at a
/// tower drops first the potion that was put on the tower first.
pub proof fn lemma_first_brewed_first_dropped(waiting: Seq<Posion>)
    requires
        waiting.len() > 0,
    ensures
        ({
            let k = spec_loaded_count(0, waiting.len());
            let carried = Seq::<Posion>::empty() + waiting.take(k as int);
            carried.len() > 0 && carried[0] == waiting[0]
        }),
{
}

/// A visit to the tower ends with full claws or an empty tower: the bird takes
/// as many potions as fit, and loses one more exactly when potions remain
/// after its claws filled up before its third reach (never when it came empty).
pub proof fn lemma_bird_fills_up_or_empties_tower(carried: nat, waiting: nat)
    requires
        carried <= 3,
    ensures
        carried + spec_loaded_count(carried, waiting) == 3 || spec_loaded_count(carried, waiting) == waiting,
        carried == 0 ==> spec_lost_count(carried, waiting) == 0,
        carried > 0 ==> (spec_lost_count(carried, waiting) == 1 <==> waiting > spec_loaded_count(
            carried,
            waiting,
        )),
{
}

} // verus!
