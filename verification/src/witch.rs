use vstd::prelude::*;
use crate::animation::AnimationIndices;
use crate::stuff::{Posion, Stuff};
use crate::tower::ResourceTower;

verus! {

/// Sprite-sheet row of the witch standing idle.
pub const IDLE_ROW: usize = 0;

/// Sprite-sheet row of the witch holding the dial down while it turns.
pub const WIND_ROW: usize = 1;

/// Sprite-sheet row of the witch stirring a chosen element.
pub const BREW_ROW: usize = 2;

/// The witch's brewing state: the element she is brewing (if any), an unused
/// second element, and how many times the brew was strengthened.
#[derive(PartialEq, Eq, Structural, Clone, Copy, Debug)]
pub struct ResourceWitch {
    pub stuff: Option<Stuff>,
    pub property: Option<Stuff>,
    pub stronger: i32,
}

impl ResourceWitch {
    /// A witch brewing nothing.
    pub fn new() -> (witch: Self)
        ensures
            witch == (ResourceWitch { stuff: None, property: None, stronger: 0 }),
    {
        ResourceWitch { stuff: None, property: None, stronger: 0 }
    }
}

/// The dial's key state: whether the brew key is held down, and whether the
/// dial is unlocked (it is locked while the witch recovers from a failure).
#[derive(PartialEq, Eq, Structural, Clone, Copy, Debug)]
pub struct ResourcePosion {
    pub push: bool,
    pub lock: bool,
}

impl ResourcePosion {
    /// Key released, dial usable.
    pub fn new() -> (p: Self)
        ensures
            p == (ResourcePosion { push: false, lock: true }),
    {
        ResourcePosion { push: false, lock: true }
    }
}

/// Where the dial's handle stands inside its quarter of a turn, measured from
/// the quarter's start: up to 0.8 rad, between 0.8 and 0.9 rad, or beyond.
#[derive(PartialEq, Eq, Structural, Clone, Copy, Debug)]
pub enum Settle {
    Early,
    Window,
    Late,
}

/// A reading of the dial's handle: the number of quarter turns it has passed
/// (0 to 3 within a turn, 4 once it has passed a full turn) and where it
/// stands inside the current quarter.
#[derive(PartialEq, Eq, Structural, Clone, Copy, Debug)]
pub struct HandleReading {
    pub quarter: u32,
    pub settle: Settle,
}

/// The element of each quarter of the dial, in turning order: fire, water,
/// poison, light; none past a full turn.
pub open spec fn spec_sector_stuff(quarter: u32) -> Option<Stuff> {
    if quarter == 0 {
        Some(Stuff::Fire)
    } else if quarter == 1 {
        Some(Stuff::Water)
    } else if quarter == 2 {
        Some(Stuff::Poison)
    } else if quarter == 3 {
        Some(Stuff::Light)
    } else {
        None
    }
}

/// The element of the dial's quarter the handle is in.
pub fn sector_stuff(quarter: u32) -> (stuff: Option<Stuff>)
    ensures
        stuff == spec_sector_stuff(quarter),
{
    match quarter {
        0 => Some(Stuff::Fire),
        1 => Some(Stuff::Water),
        2 => Some(Stuff::Poison),
        3 => Some(Stuff::Light),
        _ => None,
    }
}

/// A brew of `stuff` is finished once the handle has turned 0.8 rad past the
/// end of that element's quarter; light, whose quarter ends at a full turn,
/// finishes only while the handle is between 0.8 and 0.9 rad into the turn.
pub open spec fn spec_brew_done(stuff: Stuff, r: HandleReading) -> bool {
    match stuff {
        Stuff::Fire => r.quarter >= 2 || (r.quarter == 1 && r.settle != Settle::Early),
        Stuff::Water => r.quarter >= 3 || (r.quarter == 2 && r.settle != Settle::Early),
        Stuff::Poison => r.quarter >= 4 || (r.quarter == 3 && r.settle != Settle::Early),
        Stuff::Light => r.quarter == 0 && r.settle == Settle::Window,
    }
}

fn settle_past_early(settle: Settle) -> (past: bool)
    ensures
        past == (settle != Settle::Early),
{
    match settle {
        Settle::Early => false,
        _ => true,
    }
}

/// Whether a brew of `stuff` is finished at the handle reading `r`.
pub fn brew_done(stuff: Stuff, r: HandleReading) -> (done: bool)
    ensures
        done == spec_brew_done(stuff, r),
{
    match stuff {
        Stuff::Fire => r.quarter >= 2 || (r.quarter == 1 && settle_past_early(r.settle)),
        Stuff::Water => r.quarter >= 3 || (r.quarter == 2 && settle_past_early(r.settle)),
        Stuff::Poison => r.quarter >= 4 || (r.quarter == 3 && settle_past_early(r.settle)),
        Stuff::Light => r.quarter == 0 && match r.settle {
            Settle::Window => true,
            _ => false,
        },
    }
}

/// The dial turns while the dial is unlocked and either an element is being
/// brewed or the brew key is held.
pub fn rollat_active(witch: &ResourceWitch, posion: &ResourcePosion) -> (active: bool)
    ensures
        active == ((witch.stuff is Some || posion.push) && posion.lock),
{
    (witch.stuff.is_some() || posion.push) && posion.lock
}

/// The potion that a brew yields at reading `r`, if it finishes there.
pub open spec fn spec_brewed(witch: ResourceWitch, r: HandleReading) -> Option<Posion> {
    match witch.stuff {
        Some(s) => if spec_brew_done(s, r) {
            Some(Posion { property: s, stronger: witch.stronger })
        } else {
            None
        },
        None => None,
    }
}

/// Checks the brew after the dial turned: when the brewed element is finished,
/// the potion (its element and strength) goes to the back of the tower's
/// queue, and the witch goes back to idle with nothing brewing.
/// Returns whether a potion was made.
pub fn brew_step(
    witch: &mut ResourceWitch,
    tower: &mut ResourceTower,
    indices: &mut AnimationIndices,
    frame: &mut usize,
    r: HandleReading,
) -> (made: bool)
    ensures
        made == (spec_brewed(*old(witch), r) is Some),
        made == (match old(witch).stuff {
            Some(s) => spec_brew_done(s, r),
            None => false,
        }),
        made ==> final(tower).posions@ == old(tower).posions@.push(
            Posion { property: old(witch).stuff.unwrap(), stronger: old(witch).stronger },
        ),
        !made ==> final(tower).posions@ == old(tower).posions@ && *final(witch) == *old(witch),
        match spec_brewed(*old(witch), r) {
            Some(p) => {
                &&& final(tower).posions@ == old(tower).posions@.push(p)
                &&& *final(witch) == (ResourceWitch { stuff: None, stronger: 0, ..*old(witch) })
                &&& *final(indices) == (AnimationIndices { row: IDLE_ROW, ..*old(indices) })
                &&& *final(frame) == 0
            },
            None => {
                &&& final(tower).posions@ == old(tower).posions@
                &&& *final(witch) == *old(witch)
                &&& *final(indices) == *old(indices)
                &&& *final(frame) == *old(frame)
            },
        },
        final(tower).hp == old(tower).hp,
{
    match witch.stuff {
        Some(s) => {
            if brew_done(s, r) {
                tower.posions.push_back(Posion { property: s, stronger: witch.stronger });
                indices.row = IDLE_ROW;
                *frame = 0;
                witch.stuff = None;
                witch.stronger = 0;
                true
            } else {
                false
            }
        },
        None => false,
    }
}

/// What pressing the brew key did.
#[derive(PartialEq, Eq, Structural, Clone, Copy, Debug)]
pub enum PressOutcome {
    /// The press came while the handle was in the brewed element's quarter:
    /// the brew got stronger.
    Stronger,
    /// The press came outside that quarter: the brew fails.
    Failed,
    /// Nothing was brewing: the witch takes hold of the dial.
    Winding,
}

/// The witch's answer to the brew key going down at reading `r`.
pub fn press_s(
    witch: &mut ResourceWitch,
    posion: &mut ResourcePosion,
    indices: &mut AnimationIndices,
    frame: &mut usize,
    r: HandleReading,
) -> (outcome: PressOutcome)
    requires
        old(witch).stuff is Some && spec_sector_stuff(r.quarter) == old(witch).stuff
            ==> old(witch).stronger < i32::MAX,
    ensures
        *final(posion) == (ResourcePosion { push: true, ..*old(posion) }),
        match old(witch).stuff {
            Some(s) => if spec_sector_stuff(r.quarter) == Some(s) {
                &&& outcome == PressOutcome::Stronger
                &&& *final(witch) == (ResourceWitch {
                    stronger: (old(witch).stronger + 1) as i32,
                    ..*old(witch)
                })
                &&& *final(indices) == *old(indices)
                &&& *final(frame) == *old(frame)
            } else {
                &&& outcome == PressOutcome::Failed
                &&& *final(witch) == *old(witch)
                &&& *final(indices) == *old(indices)
                &&& *final(frame) == *old(frame)
            },
            None => {
                &&& outcome == PressOutcome::Winding
                &&& *final(witch) == *old(witch)
                &&& *final(indices) == (AnimationIndices { row: WIND_ROW, ..*old(indices) })
                &&& *final(frame) == WIND_ROW * old(indices).last
            },
        },
{
    posion.push = true;
    match witch.stuff {
        Some(s) => {
            let in_quarter = match (s, sector_stuff(r.quarter)) {
                (Stuff::Fire, Some(Stuff::Fire)) => true,
                (Stuff::Water, Some(Stuff::Water)) => true,
                (Stuff::Poison, Some(Stuff::Poison)) => true,
                (Stuff::Light, Some(Stuff::Light)) => true,
                _ => false,
            };
            if in_quarter {
                witch.stronger = witch.stronger + 1;
                PressOutcome::Stronger
            } else {
                PressOutcome::Failed
            }
        },
        None => {
            indices.row = WIND_ROW;
            *frame = indices.row * indices.last;
            PressOutcome::Winding
        },
    }
}

/// The element the witch brews after the brew key comes up at quarter
/// `quarter`: an unlocked, idle witch picks the quarter's element.
pub open spec fn spec_released_stuff(witch: ResourceWitch, lock: bool, quarter: u32) -> Option<Stuff> {
    if lock && witch.stuff is None {
        spec_sector_stuff(quarter)
    } else {
        witch.stuff
    }
}

/// The witch's answer to the brew key coming up at reading `r`: if she was
/// idle and the dial is unlocked she picks the element of the handle's
/// quarter; she then stirs if she has an element and stands idle otherwise.
pub fn release_s(
    witch: &mut ResourceWitch,
    posion: &mut ResourcePosion,
    indices: &mut AnimationIndices,
    frame: &mut usize,
    r: HandleReading,
)
    requires
        2 * old(indices).last <= usize::MAX,
    ensures
        *final(posion) == (ResourcePosion { push: false, ..*old(posion) }),
        old(witch).stuff is Some ==> final(witch).stuff == old(witch).stuff,
        !old(posion).lock ==> final(witch).stuff == old(witch).stuff,
        old(posion).lock && old(witch).stuff is None ==> final(witch).stuff == spec_sector_stuff(
            r.quarter,
        ),
        final(witch).stronger == old(witch).stronger,
        *final(witch) == (ResourceWitch {
            stuff: spec_released_stuff(*old(witch), old(posion).lock, r.quarter),
            ..*old(witch)
        }),
        if (final(witch).stuff is Some) {
            &&& *final(indices) == (AnimationIndices { row: BREW_ROW, ..*old(indices) })
            &&& *final(frame) == BREW_ROW * old(indices).last
        } else {
            &&& *final(indices) == (AnimationIndices { row: IDLE_ROW, ..*old(indices) })
            &&& *final(frame) == 0
        },
{
    posion.push = false;
    if posion.lock && witch.stuff.is_none() {
        witch.stuff = sector_stuff(r.quarter);
    }
    if witch.stuff.is_some() {
        indices.row = BREW_ROW;
        *frame = indices.row * indices.last;
    } else {
        indices.row = IDLE_ROW;
        *frame = 0;
    }
}

/// Where the witch is in recovering from a failed brew.
#[derive(PartialEq, Eq, Structural, Clone, Copy, Debug)]
pub enum FailPhase {
    /// The failure just happened.
    Start,
    /// The recovery time is over.
    Over,
    /// Still recovering.
    Ongoing,
}

/// A failed brew: the element is thrown away and the dial locks; once the
/// recovery time is over the dial unlocks again.
pub fn witch_failed_step(witch: &mut ResourceWitch, posion: &mut ResourcePosion, phase: FailPhase)
    ensures
        match phase {
            FailPhase::Start => {
                &&& *final(witch) == (ResourceWitch { stuff: None, ..*old(witch) })
                &&& *final(posion) == (ResourcePosion { lock: false, ..*old(posion) })
            },
            FailPhase::Over => {
                &&& *final(witch) == *old(witch)
                &&& *final(posion) == (ResourcePosion { lock: true, ..*old(posion) })
            },
            FailPhase::Ongoing => {
                &&& *final(witch) == *old(witch)
                &&& *final(posion) == *old(posion)
            },
        },
{
    match phase {
        FailPhase::Start => {
            witch.stuff = None;
            posion.lock = false;
        },
        FailPhase::Over => {
            posion.lock = true;
        },
        FailPhase::Ongoing => {},
    }
}


/// Sparkles around the dial while a brew is going on.
#[derive(PartialEq, Eq, Structural, Clone, Copy, Debug)]
pub enum RollatEffect {
    /// Nothing to show this frame.
    Nothing,
    /// The sparkle timer fired: one spark of the brewed element.
    Spark(Stuff),
    /// The brew just got stronger: a burst of this many sparks.
    Burst(Stuff, u32),
}

/// The effect shown for a brew, given the strength the effect last showed
/// (`seen`), whether the sparkle timer fired and the size a burst would have;
/// paired with the strength the effect has seen afterwards.
pub open spec fn spec_rollat_effect(witch: ResourceWitch, seen: i32, timer_finished: bool, burst: u32) -> (
    RollatEffect,
    i32,
) {
    match witch.stuff {
        Some(s) => if timer_finished {
            (RollatEffect::Spark(s), seen)
        } else if seen < witch.stronger {
            (RollatEffect::Burst(s, burst), witch.stronger)
        } else {
            (RollatEffect::Nothing, seen)
        },
        None => if witch.stronger == 0 {
            (RollatEffect::Nothing, 0)
        } else {
            (RollatEffect::Nothing, seen)
        },
    }
}

/// Chooses the dial's sparkle effect for one frame: a spark whenever the
/// timer fires during a brew, a burst of `burst` sparks when the brew got
/// stronger since last shown, and forgets the shown strength once the witch
/// holds no strength.
pub fn rollat_effect(witch: &ResourceWitch, seen: &mut i32, timer_finished: bool, burst: u32) -> (effect: RollatEffect)
    ensures
        (effect, *final(seen)) == spec_rollat_effect(*witch, *old(seen), timer_finished, burst),
{
    match witch.stuff {
        Some(s) => {
            if timer_finished {
                RollatEffect::Spark(s)
            } else if *seen < witch.stronger {
                *seen = witch.stronger;
                RollatEffect::Burst(s, burst)
            } else {
                RollatEffect::Nothing
            }
        },
        None => {
            if witch.stronger == 0 {
                *seen = 0;
            }
            RollatEffect::Nothing
        },
    }
}

/// Smallest and largest number of sparks in a burst.
pub const BURST_MIN: u32 = 4;

pub const BURST_MAX: u32 = 9;

/// The dial's sparkle effect for one frame, with the size of a burst drawn at
/// random between four and nine sparks.
pub fn rollat_effect_step(witch: &ResourceWitch, seen: &mut i32, timer_finished: bool) -> (effect: RollatEffect)
    ensures
        exists|n: u32|
            BURST_MIN <= n <= BURST_MAX && (effect, *final(seen)) == #[trigger] spec_rollat_effect(
                *witch,
                *old(seen),
                timer_finished,
                n,
            ),
{
    let burst = if witch.stuff.is_some() && !timer_finished && *seen < witch.stronger {
        let mut rng = crate::random::thread_rng();
        crate::random::gen_range_inclusive(&mut rng, BURST_MIN, BURST_MAX)
    } else {
        BURST_MIN
    };
    let effect = rollat_effect(witch, seen, timer_finished, burst);
    effect
}

/// How the potion row on the tower is redrawn: for each potion sprite already
/// shown, the element to color it with (or `None` to remove it), and the
/// sprites to add, each with its slot and element.
pub struct PosionDisplay {
    pub existing: Vec<Option<Stuff>>,
    pub spawned: Vec<(usize, Stuff)>,
}

/// Redraws the tower's potion row when the number of potions differs from the
/// number last shown (`shown`), given how many potion sprites exist. Every
/// existing sprite takes the element of the potion in its slot or goes away
/// when there is no such potion; the missing sprites are added, all in the
/// element of the potion in the first new slot.
pub fn posion_display(shown: usize, sprites: usize, tower: &ResourceTower) -> (plan: Option<PosionDisplay>)
    ensures
        ({
            let q = tower.posions@;
            match plan {
                None => shown == q.len(),
                Some(d) => {
                    &&& shown != q.len()
                    &&& d.existing@.len() == sprites
                    &&& forall|i: int|
                        0 <= i < sprites ==> #[trigger] d.existing@[i] == (if i < q.len() {
                            Some(q[i].property)
                        } else {
                            None::<Stuff>
                        })
                    &&& d.spawned@.len() == (if sprites < q.len() {
                        q.len() - sprites
                    } else {
                        0
                    })
                    &&& forall|j: int|
                        0 <= j < d.spawned@.len() ==> #[trigger] d.spawned@[j] == (
                            (sprites + j) as usize,
                            q[sprites as int].property,
                        )
                },
            }
        }),
{
    let count = tower.posions.len();
    if shown == count {
        return None;
    }
    let mut existing: Vec<Option<Stuff>> = Vec::new();
    let mut i: usize = 0;
    while i < sprites
        invariant
            i <= sprites,
            count == tower.posions@.len(),
            existing@.len() == i,
            forall|k: int|
                0 <= k < i ==> #[trigger] existing@[k] == (if k < count {
                    Some(tower.posions@[k].property)
                } else {
                    None::<Stuff>
                }),
        decreases sprites - i,
    {
        if i >= count {
            existing.push(None);
        } else {
            existing.push(Some(tower.posions[i].property));
        }
        i = i + 1;
    }
    let mut spawned: Vec<(usize, Stuff)> = Vec::new();
    let mut slot: usize = sprites;
    while slot < count
        invariant
            sprites <= slot <= count || (slot == sprites && count <= sprites),
            count == tower.posions@.len(),
            spawned@.len() == slot - sprites,
            forall|j: int|
                0 <= j < spawned@.len() ==> #[trigger] spawned@[j] == (
                    (sprites + j) as usize,
                    tower.posions@[sprites as int].property,
                ),
        decreases count - slot,
    {
        spawned.push((slot, tower.posions[sprites].property));
        slot = slot + 1;
    }
    Some(PosionDisplay { existing, spawned })
}

/// The dial's quarters name each element exactly once: quarters 0 to 3 are
/// fire, water, poison and light, all different, and past a full turn there
/// is no element.
pub proof fn lemma_quarters_name_each_stuff(stuff: Stuff)
    ensures
        exists|q: u32| q < 4 && #[trigger] spec_sector_stuff(q) == Some(stuff),
        forall|q1: u32, q2: u32|
            q1 < 4 && q2 < 4 && q1 != q2 ==> #[trigger] spec_sector_stuff(q1) != #[trigger] spec_sector_stuff(q2),
        forall|q: u32| q >= 4 ==> #[trigger] spec_sector_stuff(q) is None,
{
    match stuff {
        Stuff::Fire => assert(spec_sector_stuff(0) == Some(stuff)),
        Stuff::Water => assert(spec_sector_stuff(1) == Some(stuff)),
        Stuff::Poison => assert(spec_sector_stuff(2) == Some(stuff)),
        Stuff::Light => assert(spec_sector_stuff(3) == Some(stuff)),
    }
}

/// A brew never finishes while the handle is still in its own element's
/// quarter, where pressing the key strengthens it.
pub proof fn lemma_brew_never_done_in_own_quarter(stuff: Stuff, r: HandleReading)
    requires
        spec_brew_done(stuff, r),
    ensures
        spec_sector_stuff(r.quarter) != Some(stuff),
{
}

/// The potion the witch brews carries the element she picked when the key
/// came up (the element of the handle's quarter then) and the strength she
/// gathered, and she is left with nothing brewing and no strength.
pub proof fn lemma_brew_yields_picked_stuff(witch: ResourceWitch, lock: bool, pick: u32, r: HandleReading)
    requires
        lock,
        witch.stuff is None,
        pick < 4,
        spec_brew_done(spec_sector_stuff(pick).unwrap(), r),
    ensures
        ({
            let picked = ResourceWitch { stuff: spec_released_stuff(witch, lock, pick), ..witch };
            spec_brewed(picked, r) == Some(
                Posion { property: spec_sector_stuff(pick).unwrap(), stronger: witch.stronger },
            )
        }),
{
}

/// While the dial is locked (after a failed brew) it does not turn for an idle
/// witch, and letting the key up picks no element.
pub proof fn lemma_locked_dial_picks_nothing(witch: ResourceWitch, quarter: u32)
    ensures
        spec_released_stuff(witch, false, quarter) == witch.stuff,
{
}

/// The witch is shown stirring whenever she brews an element.
pub open spec fn witch_pose_ok(stuff: Option<Stuff>, row: usize) -> bool {
    stuff is Some ==> row == BREW_ROW
}

/// Every step of the witch keeps her pose in line with her brew: after the key
/// comes up, after a finished or unfinished brew check, after the key goes
/// down with nothing brewing, and after a failure.
pub proof fn lemma_pose_follows_brew(witch: ResourceWitch, row: usize, lock: bool, r: HandleReading)
    requires
        witch_pose_ok(witch.stuff, row),
    ensures
        ({
            let picked = spec_released_stuff(witch, lock, r.quarter);
            witch_pose_ok(
                picked,
                if picked is Some {
                    BREW_ROW
                } else {
                    IDLE_ROW
                },
            )
        }),
        spec_brewed(witch, r) is Some ==> witch_pose_ok(None, IDLE_ROW),
        spec_brewed(witch, r) is None ==> witch_pose_ok(witch.stuff, row),
        witch.stuff is None ==> witch_pose_ok(witch.stuff, WIND_ROW),
        witch_pose_ok(None, row),
{
}

/// How far the handle has come: quarters passed, then the place inside the
/// quarter (before the 0.8 rad mark, in the 0.8 to 0.9 rad window, beyond).
pub open spec fn reading_rank(r: HandleReading) -> int {
    3 * r.quarter + match r.settle {
        Settle::Early => 0int,
        Settle::Window => 1int,
        Settle::Late => 2int,
    }
}

/// A fire, water or poison brew is finished exactly at the readings that lie
/// at or beyond the 0.8 rad mark of the quarter after its own: never before,
/// always from there on (so finishing cannot be undone by turning further).
pub proof fn lemma_brew_done_past_next_quarter_mark(quarter: u32, r: HandleReading)
    requires
        quarter < 3,
    ensures
        spec_brew_done(spec_sector_stuff(quarter).unwrap(), r) <==> reading_rank(r)
            >= reading_rank(HandleReading { quarter: (quarter + 1) as u32, settle: Settle::Window }),
{
}

/// A light brew is finished only in the 0.8 to 0.9 rad window just after the
/// dial wraps to a new turn: at no other reading, in particular not as soon as
/// the handle wraps, nor once it is past 0.9 rad.
pub proof fn lemma_light_done_only_in_window(r: HandleReading)
    ensures
        spec_brew_done(Stuff::Light, r) <==> (r.quarter == 0 && r.settle == Settle::Window),
        r.settle == Settle::Early ==> !spec_brew_done(Stuff::Light, r),
{
}

/// Fire, water and poison brews stay finished as the handle turns on:
/// finished at one reading, finished at every later reading.
pub proof fn lemma_brew_done_monotone(stuff: Stuff, r1: HandleReading, r2: HandleReading)
    requires
        stuff != Stuff::Light,
        spec_brew_done(stuff, r1),
        reading_rank(r1) <= reading_rank(r2),
    ensures
        spec_brew_done(stuff, r2),
{
}

/// A brew check makes a potion exactly when the brewed element is finished
/// at the reading, and the potion is that element with the gathered strength.
pub proof fn lemma_brewed_iff_done(witch: ResourceWitch, r: HandleReading)
    ensures
        spec_brewed(witch, r) is Some <==> (witch.stuff is Some && spec_brew_done(witch.stuff.unwrap(), r)),
        spec_brewed(witch, r) is Some ==> spec_brewed(witch, r).unwrap() == (Posion {
            property: witch.stuff.unwrap(),
            stronger: witch.stronger,
        }),
{
}

/// Letting the key up never changes a brew in progress, and picks nothing
/// while the dial is locked; only an idle witch at an unlocked dial picks,
/// and she picks the element of the handle's quarter.
pub proof fn lemma_release_keeps_brew(witch: ResourceWitch, lock: bool, quarter: u32)
    ensures
        witch.stuff is Some ==> spec_released_stuff(witch, lock, quarter) == witch.stuff,
        !lock ==> spec_released_stuff(witch, lock, quarter) == witch.stuff,
        lock && witch.stuff is None ==> spec_released_stuff(witch, lock, quarter) == spec_sector_stuff(
            quarter,
        ),
{
}

/// The dial's sparkles follow the brew: during a brew a firing timer always
/// gives one spark of the brewed element, a burst comes only when the brew got
/// stronger than last shown and then records that strength, the shown strength
/// never drops during a brew, and without a brew nothing is shown.
pub proof fn lemma_sparkles_follow_brew(witch: ResourceWitch, seen: i32, timer_finished: bool, burst: u32)
    ensures
        ({
            let (effect, after) = spec_rollat_effect(witch, seen, timer_finished, burst);
            &&& witch.stuff is Some && timer_finished ==> effect == RollatEffect::Spark(witch.stuff.unwrap())
            &&& effect is Burst ==> witch.stuff is Some && !timer_finished && seen < witch.stronger
                && after == witch.stronger && effect == RollatEffect::Burst(witch.stuff.unwrap(), burst)
            &&& witch.stuff is Some && !timer_finished && seen < witch.stronger ==> effect is Burst
            &&& witch.stuff is Some ==> after >= seen
            &&& witch.stuff is None ==> effect == RollatEffect::Nothing
            &&& witch.stuff is None ==> after == (if witch.stronger == 0 { 0 } else { seen })
        }),
{
}

} // verus!
