use lost_ship::combat::{
    combat_to_app, enemy_turn, enemy_turn_with_rolls, hit_for_roll, Combat, ShotRolls, Targets,
};
use lost_ship::expedition::Expedition;
use lost_ship::leap::JumpStep;
use lost_ship::pilot::PilotStatus;
use lost_ship::ship::{ShipDamage, Status};
use lost_ship::threat::Threats;

fn enemy_half(formation: Vec<Threats>, exp: &Expedition) -> Combat {
    let mut c = Combat::new(formation, &exp.scouts);
    c.scout_half = false;
    c.enemy_turns = vec![false; c.enemy_stats.len()];
    c.scout_turns = vec![false; 6];
    c
}

#[test]
fn new_battle_starts_with_every_flag_set() {
    let exp = Expedition::new();
    let c = Combat::new(vec![Threats::Mk1, Threats::Mk3], &exp.scouts);
    assert_eq!(c.rounds, 1);
    assert!(c.scout_half);
    assert!(!c.laser_fired);
    assert_eq!(c.scout_turns, vec![true; 6]);
    assert_eq!(c.enemy_turns, vec![true; 2]);
    assert_eq!(c.enemy_stats[1].hp, 8);
    assert_eq!(c.combat_text, "Enemy ships sighted!  Prepare to engage!");
    assert!(!c.is_resolved());
}

#[test]
fn halves_flip_once_per_update() {
    let exp = Expedition::new();
    let mut c = Combat::new(vec![Threats::Mk1], &exp.scouts);
    // round 1: every scout flag set and the laser counts as used
    c.update();
    assert!(!c.scout_half);
    assert_eq!(c.rounds, 1);
    assert_eq!(c.scout_turns, vec![false; 6]);
    assert_eq!(c.enemy_stats[0].fuel, 3);
    // the enemy flags were set at creation: the next pass starts round 2
    c.update();
    assert!(c.scout_half);
    assert_eq!(c.rounds, 2);
    assert_eq!(c.enemy_turns, vec![false]);
    assert_eq!(c.enemy_stats[0].fuel, 2);
    // nobody has acted: no flip, however many passes
    c.update();
    c.update();
    assert!(c.scout_half);
    assert_eq!(c.rounds, 2);
    // every scout acted but the laser has not fired in round 2: no flip
    c.scout_turns = vec![true; 6];
    c.update();
    assert!(c.scout_half);
    c.laser_fired = true;
    c.update();
    assert!(!c.scout_half);
    assert_eq!(c.rounds, 2);
    c.update();
    assert!(!c.scout_half);
}

#[test]
fn disabled_scouts_sit_out() {
    let mut exp = Expedition::new();
    exp.scouts[1].ship.damage = ShipDamage::Inoperable;
    exp.scouts[2].ship.damage = ShipDamage::Destroyed;
    exp.scouts[3].pilot.status = PilotStatus::Kia;
    exp.scouts[4].ship.damage = ShipDamage::Half;
    let mut c = Combat::new(vec![Threats::Mk1], &exp.scouts);
    c.scout_turns = vec![false; 6];
    c.update();
    assert_eq!(c.scout_turns, vec![false, true, true, true, false, false]);
}

#[test]
fn enemy_volley_with_given_dice() {
    let mut exp = Expedition::new();
    let mut c = enemy_half(vec![Threats::Mk1, Threats::Mk2], &exp);
    let shot = ShotRolls { hit: true, target: Targets::LeadScout, damage_die: 2 };
    enemy_turn_with_rolls(&mut c, &mut exp, &vec![shot]);
    assert_eq!(c.enemy_turns, vec![true, false]);
    assert_eq!(c.scout_formation[0].pilot.status, PilotStatus::Injured);
    assert_eq!(c.combat_text, "Enemy MK1 damages Ship Name.  Scout Pilot injured  ");

    let miss = ShotRolls { hit: false, target: Targets::Hull, damage_die: 1 };
    let engines = ShotRolls { hit: true, target: Targets::Engines, damage_die: 1 };
    enemy_turn_with_rolls(&mut c, &mut exp, &vec![miss, engines]);
    assert_eq!(c.enemy_turns, vec![true, true]);
    assert_eq!(exp.engine.status, Status::Serviceable);
    assert_eq!(c.combat_text, "Miss!  Enemy MK2 damages the engines.  ");

    // everyone has acted: nothing happens
    enemy_turn_with_rolls(&mut c, &mut exp, &vec![]);
    assert_eq!(c.combat_text, "Miss!  Enemy MK2 damages the engines.  ");
    assert_eq!(exp.engine.status, Status::Serviceable);
}

#[test]
fn enemy_hits_on_the_mother_ship() {
    let mut exp = Expedition::new();
    let mut c = enemy_half(vec![Threats::Mk3], &exp);
    let hit = |target| ShotRolls { hit: true, target, damage_die: 1 };
    let shots = vec![
        hit(Targets::Hull),
        hit(Targets::SickBay),
        hit(Targets::SickBay),
        hit(Targets::Superficial),
    ];
    enemy_turn_with_rolls(&mut c, &mut exp, &shots);
    assert_eq!(exp.hull_damage, 1);
    assert_eq!(exp.sick_bay.status, Status::BarelyFunctioning);
    assert_eq!(exp.engine.status, Status::Normal);
    assert_eq!(
        c.combat_text,
        "Enemy MK3 damages the hull.  Enemy MK3 damages the sick bay.  \
         Enemy MK3 damages the sick bay.  Enemy MK3 deals superficial damage!  "
    );
}

#[test]
fn spent_enemies_are_passed_over() {
    let mut exp = Expedition::new();
    let mut c = enemy_half(vec![Threats::Mk1, Threats::Mk1, Threats::Mk2], &exp);
    c.enemy_stats[0].hp = 0;
    c.enemy_stats[1].fuel = 0;
    let shots = vec![
        ShotRolls { hit: true, target: Targets::FifthScout, damage_die: 5 },
        ShotRolls { hit: true, target: Targets::Sensors, damage_die: 5 },
    ];
    enemy_turn_with_rolls(&mut c, &mut exp, &shots);
    assert_eq!(c.enemy_turns, vec![true, true, true]);
    assert_eq!(c.scout_formation[4].ship.damage, ShipDamage::Inoperable);
    assert_eq!(exp.sensors.status, Status::Serviceable);
}

#[test]
fn rolled_enemy_turn_acts_once() {
    for _ in 0..50 {
        let mut exp = Expedition::new();
        let mut c = enemy_half(vec![Threats::Mk3, Threats::Mk1], &exp);
        enemy_turn(&mut c, &mut exp);
        assert_eq!(c.enemy_turns, vec![true, false]);
        assert!(exp.hull_damage <= 4);
        // round 1 targets come from one die: the hull and subsystems are safe
        assert_eq!(exp.hull_damage, 0);
        assert_eq!(exp.engine.status, Status::Normal);
    }
}

#[test]
fn battle_resolution_and_copy_back() {
    let mut exp = Expedition::new();
    let mut c = Combat::new(vec![Threats::Mk1, Threats::Mk2], &exp.scouts);
    c.enemy_stats[0].hp = 0;
    assert!(!c.is_resolved());
    c.enemy_stats[1].fuel = 0;
    assert!(c.is_resolved());
    c.scout_formation[2].pilot.status = PilotStatus::Injured;
    c.scout_formation[2].ship.damage = ShipDamage::Half;
    combat_to_app(&c, &mut exp);
    assert_eq!(exp.scouts[2].ship.damage, ShipDamage::Half);
    assert_eq!(exp.pilots[2].status, PilotStatus::Injured);
    assert_eq!(exp.pilots[1].status, PilotStatus::Normal);
    assert_eq!(exp.jump_step, JumpStep::Step1);
}

#[test]
fn defeated_fighters_burn_no_fuel() {
    let exp = Expedition::new();
    let mut c = enemy_half(vec![Threats::Mk1, Threats::Mk2], &exp);
    c.enemy_stats[0].hp = 0;
    c.enemy_turns = vec![true, true];
    c.update();
    assert!(c.scout_half);
    assert_eq!(c.rounds, 2);
    assert_eq!(c.enemy_stats[0].fuel, 3);
    assert_eq!(c.enemy_stats[1].fuel, 3);
}

#[test]
fn hits_above_three() {
    assert!(!hit_for_roll(1));
    assert!(!hit_for_roll(3));
    assert!(hit_for_roll(4));
    assert!(hit_for_roll(5));
}

#[test]
fn rolled_volley_fires_every_gun() {
    for _ in 0..50 {
        let mut exp = Expedition::new();
        let mut c = enemy_half(vec![Threats::Mk3], &exp);
        c.rounds = 2;
        enemy_turn(&mut c, &mut exp);
        let pieces = c.combat_text.matches("Miss!").count() + c.combat_text.matches("Enemy MK3").count();
        assert_eq!(pieces, 4);
    }
}
