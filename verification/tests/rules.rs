use std::collections::BTreeSet;

use bevygame::animation::{animation_over, next_frame, row_first_frame, AnimationIndices};
use bevygame::bird::{bird_drop, bird_turn, load_bird, restart_game, Bird, Turn};
use bevygame::slime::{
    blast_radius, debris_count, explosion_kills, next_wave, poop_hits_slime, wave_bound, wave_from_draws,
};
use bevygame::stuff::{stuff_from_index, Posion, Stuff};
use bevygame::tower::{is_game_over, slime_reached_tower, tower_hit, tower_hit_pending, ResourceTower, Tower};
use bevygame::witch::{
    brew_done, brew_step, posion_display, press_s, release_s, rollat_active, rollat_effect, rollat_effect_step,
    sector_stuff, witch_failed_step, FailPhase, HandleReading, PressOutcome, ResourcePosion, ResourceWitch,
    RollatEffect, Settle,
};

fn potion(property: Stuff, stronger: i32) -> Posion {
    Posion { property, stronger }
}

fn tower_with(potions: &[Posion]) -> ResourceTower {
    let mut tower = ResourceTower::new();
    for p in potions {
        tower.posions.push_back(*p);
    }
    tower
}

fn bird_with(potions: &[Posion]) -> Bird {
    let mut bird = Bird::new();
    for p in potions {
        bird.poops.push_back(*p);
    }
    bird
}

fn reading(quarter: u32, settle: Settle) -> HandleReading {
    HandleReading { quarter, settle }
}

// ---- animation ----

#[test]
fn bird_animation_cycles_through_its_eight_frames() {
    let ix = AnimationIndices { first: 0, last: 8, row: 0 };
    let mut frame = 0;
    let mut seen = Vec::new();
    for _ in 0..8 {
        seen.push(frame);
        frame = next_frame(frame, &ix);
    }
    assert_eq!(seen, vec![0, 1, 2, 3, 4, 5, 6, 7]);
    assert_eq!(frame, 0);
}

#[test]
fn witch_animation_stays_in_its_row() {
    let ix = AnimationIndices { first: 0, last: 4, row: 2 };
    assert_eq!(next_frame(8, &ix), 9);
    assert_eq!(next_frame(10, &ix), 11);
    assert_eq!(next_frame(11, &ix), 8);
    let mut frame = 8;
    for _ in 0..20 {
        frame = next_frame(frame, &ix);
        assert!((8..12).contains(&frame));
    }
}

#[test]
fn frame_outside_the_row_jumps_back_to_its_start() {
    let ix = AnimationIndices { first: 1, last: 4, row: 1 };
    assert_eq!(next_frame(20, &ix), 5);
    assert_eq!(next_frame(6, &ix), 7);
}

#[test]
fn row_first_frame_is_row_times_last() {
    assert_eq!(row_first_frame(&AnimationIndices { first: 0, last: 4, row: 2 }), 8);
    assert_eq!(row_first_frame(&AnimationIndices { first: 3, last: 4, row: 0 }), 0);
}

#[test]
fn one_shot_animation_ends_at_second_to_last_index() {
    let ix = AnimationIndices { first: 0, last: 7, row: 0 };
    assert!(!animation_over(5, &ix));
    assert!(animation_over(6, &ix));
    assert!(animation_over(7, &ix));
}

// ---- tower ----

#[test]
fn tower_starts_with_ten_hit_points() {
    let tower = Tower::new();
    assert_eq!(tower, Tower { hp: 10, hits: 0, flashing: false });
    let queue = ResourceTower::new();
    assert_eq!(queue.hp, 10);
    assert_eq!(queue.posion_count(), 0);
}

#[test]
fn each_slime_costs_one_hit_point_after_two_flashes() {
    let mut tower = Tower::new();
    slime_reached_tower(&mut tower);
    slime_reached_tower(&mut tower);
    assert_eq!(tower.hits, 2);
    assert!(tower_hit_pending(&tower));
    tower_hit(&mut tower, false);
    assert_eq!(tower, Tower { hp: 10, hits: 2, flashing: false });
    tower_hit(&mut tower, true);
    assert_eq!(tower, Tower { hp: 10, hits: 2, flashing: true });
    tower_hit(&mut tower, true);
    assert_eq!(tower, Tower { hp: 9, hits: 1, flashing: false });
    tower_hit(&mut tower, true);
    tower_hit(&mut tower, true);
    assert_eq!(tower, Tower { hp: 8, hits: 0, flashing: false });
    assert!(!tower_hit_pending(&tower));
    tower_hit(&mut tower, true);
    assert_eq!(tower, Tower { hp: 8, hits: 0, flashing: false });
}

#[test]
fn hit_points_minus_waiting_hits_is_kept_by_flashes() {
    let mut tower = Tower { hp: 3, hits: 4, flashing: false };
    for _ in 0..8 {
        tower_hit(&mut tower, true);
        assert_eq!(tower.hp - tower.hits, -1);
        assert!(tower.hits >= 0);
    }
    assert_eq!(tower.hp, -1);
}

#[test]
fn game_over_below_zero_and_restart() {
    let mut tower = Tower { hp: 0, hits: 0, flashing: false };
    assert!(!is_game_over(&tower));
    tower.hp = -1;
    assert!(is_game_over(&tower));
    let mut bird = bird_with(&[potion(Stuff::Fire, 0)]);
    restart_game(&mut tower, &mut bird);
    assert_eq!(tower.hp, 10);
    assert!(bird.poops.is_empty());
    assert!(!is_game_over(&tower));
}

// ---- bird ----

#[test]
fn empty_bird_takes_three_potions_in_order() {
    let ps = [
        potion(Stuff::Fire, 1),
        potion(Stuff::Water, 2),
        potion(Stuff::Light, 3),
        potion(Stuff::Poison, 4),
        potion(Stuff::Fire, 5),
    ];
    let mut tower = tower_with(&ps);
    let mut bird = Bird::new();
    let loaded = load_bird(&mut bird, &mut tower);
    assert_eq!(loaded, vec![(ps[0], 0), (ps[1], 1), (ps[2], 2)]);
    assert_eq!(bird.poops.iter().copied().collect::<Vec<_>>(), ps[..3].to_vec());
    assert_eq!(tower.posions.iter().copied().collect::<Vec<_>>(), ps[3..].to_vec());
}

#[test]
fn filling_the_bird_loses_the_next_potion() {
    let ps = [potion(Stuff::Fire, 1), potion(Stuff::Water, 2), potion(Stuff::Light, 3)];
    let mut tower = tower_with(&ps);
    let mut bird = bird_with(&[potion(Stuff::Poison, 0)]);
    let loaded = load_bird(&mut bird, &mut tower);
    assert_eq!(loaded, vec![(ps[0], 1), (ps[1], 2)]);
    assert_eq!(bird.poops.len(), 3);
    assert!(tower.posions.is_empty());
}

#[test]
fn full_bird_drops_one_potion_from_the_tower() {
    let ps = [potion(Stuff::Fire, 1), potion(Stuff::Water, 2)];
    let mut tower = tower_with(&ps);
    let mut bird = bird_with(&[potion(Stuff::Poison, 0); 3]);
    let loaded = load_bird(&mut bird, &mut tower);
    assert!(loaded.is_empty());
    assert_eq!(bird.poops.len(), 3);
    assert_eq!(tower.posions.iter().copied().collect::<Vec<_>>(), vec![ps[1]]);
}

#[test]
fn bird_takes_what_there_is() {
    let ps = [potion(Stuff::Light, 7)];
    let mut tower = tower_with(&ps);
    let mut bird = bird_with(&[potion(Stuff::Fire, 0)]);
    let loaded = load_bird(&mut bird, &mut tower);
    assert_eq!(loaded, vec![(ps[0], 1)]);
    assert!(tower.posions.is_empty());
    let mut empty = ResourceTower::new();
    assert!(load_bird(&mut bird, &mut empty).is_empty());
}

#[test]
fn bird_turns_at_both_edges() {
    let mut tower = tower_with(&[potion(Stuff::Water, 0)]);
    let mut bird = Bird::new();
    assert!(bird_turn(&mut bird, &mut tower, false, false).is_empty());
    assert_eq!(bird.turn, Turn::Right);
    let loaded = bird_turn(&mut bird, &mut tower, true, false);
    assert_eq!(loaded.len(), 1);
    assert_eq!(bird.turn, Turn::Left);
    tower.posions.push_back(potion(Stuff::Fire, 0));
    assert!(bird_turn(&mut bird, &mut tower, true, false).is_empty());
    assert_eq!(bird.turn, Turn::Left);
    assert_eq!(tower.posions.len(), 1);
    assert!(bird_turn(&mut bird, &mut tower, false, true).is_empty());
    assert_eq!(bird.turn, Turn::Right);
}

#[test]
fn bird_drops_first_potion_first() {
    let mut bird = bird_with(&[potion(Stuff::Fire, 1), potion(Stuff::Light, 2)]);
    assert_eq!(bird_drop(&mut bird), Some(potion(Stuff::Fire, 1)));
    assert_eq!(bird_drop(&mut bird), Some(potion(Stuff::Light, 2)));
    assert_eq!(bird_drop(&mut bird), None);
}

// ---- slimes ----

#[test]
fn slime_elements_by_draw() {
    assert_eq!(stuff_from_index(0), Stuff::Fire);
    assert_eq!(stuff_from_index(1), Stuff::Water);
    assert_eq!(stuff_from_index(2), Stuff::Light);
    assert_eq!(stuff_from_index(3), Stuff::Poison);
    assert_eq!(stuff_from_index(7), Stuff::Fire);
    assert_eq!(wave_from_draws(&vec![3, 2, 1, 0]), vec![Stuff::Poison, Stuff::Light, Stuff::Water, Stuff::Fire]);
}

#[test]
fn wave_bound_grows_with_level() {
    assert_eq!(wave_bound(0), 2);
    assert_eq!(wave_bound(14), 2);
    assert_eq!(wave_bound(15), 3);
    assert_eq!(wave_bound(20), 4);
    assert_eq!(wave_bound(25), 5);
    assert_eq!(wave_bound(1000), 5);
    assert_eq!(wave_bound(-12), 2);
}

#[test]
fn waves_raise_the_level_and_stay_in_bounds() {
    let mut level = 0;
    let mut sizes = BTreeSet::new();
    for _ in 0..400 {
        let before = level;
        let wave = next_wave(&mut level);
        assert_eq!(level, before + 1);
        assert!(!wave.is_empty());
        assert!((wave.len() as i32) < wave_bound(level));
        sizes.insert(wave.len());
    }
    assert!(sizes.len() > 1);
}

#[test]
fn potions_kill_slimes_of_their_element() {
    assert!(poop_hits_slime(&potion(Stuff::Water, 0), Stuff::Water));
    assert!(!poop_hits_slime(&potion(Stuff::Water, 0), Stuff::Fire));
    assert!(explosion_kills(true, Stuff::Light, Stuff::Light));
    assert!(!explosion_kills(false, Stuff::Light, Stuff::Light));
    assert!(!explosion_kills(true, Stuff::Light, Stuff::Poison));
}

#[test]
fn blast_radius_is_sixteen_per_strength() {
    assert_eq!(blast_radius(&potion(Stuff::Fire, 0)), 0);
    assert_eq!(blast_radius(&potion(Stuff::Fire, 3)), 48);
    assert_eq!(blast_radius(&potion(Stuff::Fire, i32::MAX)), i32::MAX as i64 * 16);
}

#[test]
fn debris_counts_vary_between_three_and_ten() {
    let mut seen = BTreeSet::new();
    for _ in 0..2000 {
        let n = debris_count();
        assert!((3..=10).contains(&n));
        seen.insert(n);
    }
    assert!(seen.len() > 2);
}

// ---- witch ----

#[test]
fn dial_quarters_are_fire_water_poison_light() {
    assert_eq!(sector_stuff(0), Some(Stuff::Fire));
    assert_eq!(sector_stuff(1), Some(Stuff::Water));
    assert_eq!(sector_stuff(2), Some(Stuff::Poison));
    assert_eq!(sector_stuff(3), Some(Stuff::Light));
    assert_eq!(sector_stuff(4), None);
}

#[test]
fn brews_finish_past_the_end_of_their_quarter() {
    assert!(!brew_done(Stuff::Fire, reading(1, Settle::Early)));
    assert!(brew_done(Stuff::Fire, reading(1, Settle::Window)));
    assert!(brew_done(Stuff::Fire, reading(1, Settle::Late)));
    assert!(brew_done(Stuff::Fire, reading(3, Settle::Early)));
    assert!(!brew_done(Stuff::Water, reading(1, Settle::Late)));
    assert!(brew_done(Stuff::Water, reading(2, Settle::Late)));
    assert!(brew_done(Stuff::Poison, reading(3, Settle::Window)));
    assert!(!brew_done(Stuff::Poison, reading(3, Settle::Early)));
    assert!(brew_done(Stuff::Light, reading(0, Settle::Window)));
    assert!(!brew_done(Stuff::Light, reading(0, Settle::Late)));
    assert!(!brew_done(Stuff::Light, reading(1, Settle::Window)));
    for q in 0..5 {
        for s in [Settle::Early, Settle::Window, Settle::Late] {
            for stuff in [Stuff::Fire, Stuff::Water, Stuff::Poison, Stuff::Light] {
                if brew_done(stuff, reading(q, s)) {
                    assert_ne!(sector_stuff(q), Some(stuff));
                }
            }
        }
    }
}

#[test]
fn dial_turns_only_when_unlocked_and_in_use() {
    let mut witch = ResourceWitch::new();
    let mut keys = ResourcePosion::new();
    assert!(!rollat_active(&witch, &keys));
    keys.push = true;
    assert!(rollat_active(&witch, &keys));
    keys.push = false;
    witch.stuff = Some(Stuff::Fire);
    assert!(rollat_active(&witch, &keys));
    keys.lock = false;
    assert!(!rollat_active(&witch, &keys));
}

#[test]
fn a_full_brew_of_water_with_two_good_presses() {
    let mut witch = ResourceWitch::new();
    let mut keys = ResourcePosion::new();
    let mut ix = AnimationIndices { first: 0, last: 4, row: 0 };
    let mut frame = 0;
    let mut tower = ResourceTower::new();

    // Holding the key with nothing brewing: the witch winds the dial.
    let out = press_s(&mut witch, &mut keys, &mut ix, &mut frame, reading(0, Settle::Early));
    assert_eq!(out, PressOutcome::Winding);
    assert!(keys.push);
    assert_eq!((ix.row, frame), (1, 4));

    // Letting go in the second quarter picks water.
    release_s(&mut witch, &mut keys, &mut ix, &mut frame, reading(1, Settle::Late));
    assert!(!keys.push);
    assert_eq!(witch.stuff, Some(Stuff::Water));
    assert_eq!((ix.row, frame), (2, 8));

    // Two presses while the handle is in the water quarter.
    for _ in 0..2 {
        let out = press_s(&mut witch, &mut keys, &mut ix, &mut frame, reading(1, Settle::Late));
        assert_eq!(out, PressOutcome::Stronger);
        release_s(&mut witch, &mut keys, &mut ix, &mut frame, reading(1, Settle::Late));
    }
    assert_eq!(witch.stronger, 2);
    assert_eq!(witch.stuff, Some(Stuff::Water));

    // Not done yet early in the poison quarter, done past 0.8 rad into it.
    assert!(!brew_step(&mut witch, &mut tower, &mut ix, &mut frame, reading(2, Settle::Early)));
    assert!(tower.posions.is_empty());
    assert!(brew_step(&mut witch, &mut tower, &mut ix, &mut frame, reading(2, Settle::Window)));
    assert_eq!(tower.posions.iter().copied().collect::<Vec<_>>(), vec![potion(Stuff::Water, 2)]);
    assert_eq!(witch, ResourceWitch { stuff: None, property: None, stronger: 0 });
    assert_eq!((ix.row, frame), (0, 0));
}

#[test]
fn a_press_outside_the_quarter_fails_the_brew() {
    let mut witch = ResourceWitch { stuff: Some(Stuff::Fire), property: None, stronger: 3 };
    let mut keys = ResourcePosion::new();
    let mut ix = AnimationIndices { first: 0, last: 4, row: 2 };
    let mut frame = 9;
    let out = press_s(&mut witch, &mut keys, &mut ix, &mut frame, reading(1, Settle::Early));
    assert_eq!(out, PressOutcome::Failed);
    assert_eq!(witch.stronger, 3);
    assert_eq!((ix.row, frame), (2, 9));

    witch_failed_step(&mut witch, &mut keys, FailPhase::Start);
    assert_eq!(witch.stuff, None);
    assert_eq!(witch.stronger, 3);
    assert!(!keys.lock);
    witch_failed_step(&mut witch, &mut keys, FailPhase::Ongoing);
    assert!(!keys.lock);

    // Locked: letting the key up picks nothing.
    release_s(&mut witch, &mut keys, &mut ix, &mut frame, reading(0, Settle::Early));
    assert_eq!(witch.stuff, None);
    assert_eq!((ix.row, frame), (0, 0));

    witch_failed_step(&mut witch, &mut keys, FailPhase::Over);
    assert!(keys.lock);
    release_s(&mut witch, &mut keys, &mut ix, &mut frame, reading(3, Settle::Early));
    assert_eq!(witch.stuff, Some(Stuff::Light));
}

#[test]
fn release_past_a_full_turn_picks_nothing() {
    let mut witch = ResourceWitch::new();
    let mut keys = ResourcePosion::new();
    let mut ix = AnimationIndices { first: 0, last: 4, row: 1 };
    let mut frame = 4;
    release_s(&mut witch, &mut keys, &mut ix, &mut frame, reading(4, Settle::Early));
    assert_eq!(witch.stuff, None);
    assert_eq!((ix.row, frame), (0, 0));
}

#[test]
fn light_finishes_only_in_its_window() {
    let mut witch = ResourceWitch { stuff: Some(Stuff::Light), property: None, stronger: 1 };
    let mut tower = ResourceTower::new();
    let mut ix = AnimationIndices { first: 0, last: 4, row: 2 };
    let mut frame = 8;
    assert!(!brew_step(&mut witch, &mut tower, &mut ix, &mut frame, reading(0, Settle::Late)));
    assert!(!brew_step(&mut witch, &mut tower, &mut ix, &mut frame, reading(3, Settle::Late)));
    assert!(brew_step(&mut witch, &mut tower, &mut ix, &mut frame, reading(0, Settle::Window)));
    assert_eq!(tower.posions.front().copied(), Some(potion(Stuff::Light, 1)));
}

#[test]
fn sparkles_follow_the_brew() {
    let mut witch = ResourceWitch { stuff: Some(Stuff::Poison), property: None, stronger: 2 };
    let mut seen = 0;
    assert_eq!(rollat_effect(&witch, &mut seen, true, 5), RollatEffect::Spark(Stuff::Poison));
    assert_eq!(seen, 0);
    assert_eq!(rollat_effect(&witch, &mut seen, false, 5), RollatEffect::Burst(Stuff::Poison, 5));
    assert_eq!(seen, 2);
    assert_eq!(rollat_effect(&witch, &mut seen, false, 5), RollatEffect::Nothing);
    witch.stuff = None;
    assert_eq!(rollat_effect(&witch, &mut seen, false, 5), RollatEffect::Nothing);
    assert_eq!(seen, 2);
    witch.stronger = 0;
    assert_eq!(rollat_effect(&witch, &mut seen, true, 5), RollatEffect::Nothing);
    assert_eq!(seen, 0);
}

#[test]
fn bursts_have_four_to_nine_sparks() {
    let witch = ResourceWitch { stuff: Some(Stuff::Fire), property: None, stronger: 1 };
    let mut sizes = BTreeSet::new();
    for _ in 0..1000 {
        let mut seen = 0;
        match rollat_effect_step(&witch, &mut seen, false) {
            RollatEffect::Burst(Stuff::Fire, n) => {
                assert!((4..=9).contains(&n));
                sizes.insert(n);
            }
            other => panic!("unexpected effect {:?}", other),
        }
        assert_eq!(seen, 1);
    }
    assert!(sizes.len() > 1);
    let mut seen = 0;
    assert_eq!(rollat_effect_step(&witch, &mut seen, true), RollatEffect::Spark(Stuff::Fire));
}

#[test]
fn potion_row_is_redrawn_when_the_count_changes() {
    let tower = tower_with(&[potion(Stuff::Fire, 0), potion(Stuff::Water, 0), potion(Stuff::Light, 0)]);
    assert!(posion_display(3, 3, &tower).is_none());
    let plan = posion_display(1, 1, &tower).unwrap();
    assert_eq!(plan.existing, vec![Some(Stuff::Fire)]);
    // New sprites all take the element of the first new slot.
    assert_eq!(plan.spawned, vec![(1, Stuff::Water), (2, Stuff::Water)]);
    let short = tower_with(&[potion(Stuff::Poison, 0)]);
    let plan = posion_display(3, 3, &short).unwrap();
    assert_eq!(plan.existing, vec![Some(Stuff::Poison), None, None]);
    assert!(plan.spawned.is_empty());
}
