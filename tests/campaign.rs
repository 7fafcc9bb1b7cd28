use lost_ship::combat::{ShotRolls, Targets};
use lost_ship::expedition::Expedition;
use lost_ship::leap::{leap_into_system, JumpStep};
use lost_ship::pilot::{update_pilot_info, PilotStatus};
use lost_ship::scout::scout_repair;
use lost_ship::selection::{select_down, select_up};
use lost_ship::ship::{subsystem_repair, ShipDamage, Status};
use lost_ship::threat::Threats;

#[test]
fn new_expedition_defaults() {
    let exp = Expedition::new();
    assert_eq!(exp.fuel, 6);
    assert_eq!(exp.parts, 6);
    assert_eq!(exp.name, "Lost Ship");
    assert_eq!(exp.scouts.len(), 6);
    assert_eq!(exp.pilots.len(), 6);
    assert_eq!(exp.log.len(), 1);
    assert_eq!(exp.log[0].number, 1);
    for (i, s) in exp.scouts.iter().enumerate() {
        assert_eq!(s.position, i as u64);
    }
    assert_eq!(exp.jump_step, JumpStep::Step1);
    assert!(exp.combat.is_none());
    assert!(!exp.game_over);
}

#[test]
fn quiet_leap_cycle() {
    let mut exp = Expedition::new();
    exp.advance_leap_with_rolls(1, 1);
    assert_eq!(exp.jump_step, JumpStep::Step2);
    assert_eq!(exp.leaps_since_incident, 1);
    assert_eq!(exp.fuel, 5);
    assert_eq!(exp.game_text, "Jumping into a new system ...");

    exp.advance_leap_with_rolls(1, 1);
    assert_eq!(exp.jump_step, JumpStep::Step3);
    assert!(!exp.in_combat);
    assert!(exp.combat.is_none());
    assert!(exp.wreckage.is_empty());
    assert_eq!(exp.game_text, "Assessing threats ...Sector clear.  Whew!");

    exp.advance_leap_with_rolls(1, 1);
    assert_eq!(exp.jump_step, JumpStep::Step4);

    exp.advance_leap_with_rolls(3, 1);
    assert_eq!(exp.jump_step, JumpStep::Step5);
    assert_eq!(exp.parts, 9);
    assert_eq!(exp.game_text, "You search through the wreckage and recover 3 parts.");

    exp.advance_leap_with_rolls(6, 6);
    assert_eq!(exp.jump_step, JumpStep::Step6);
    assert_eq!(exp.fuel, 7);
    assert_eq!(
        exp.game_text,
        "Scanning system... Fuel - gathered 2 fuel.  Make repairs and upkeep."
    );

    exp.advance_leap_with_rolls(1, 1);
    assert_eq!(exp.jump_step, JumpStep::Step7);
    exp.advance_leap_with_rolls(1, 1);
    assert_eq!(exp.jump_step, JumpStep::Step1);
}

#[test]
fn empty_tank_ends_the_game() {
    let mut exp = Expedition::new();
    exp.fuel = 0;
    exp.advance_leap_with_rolls(3, 3);
    assert!(exp.game_over);
    assert_eq!(exp.fuel, 0);
    assert_eq!(exp.jump_step, JumpStep::Step1);
    assert_eq!(exp.game_text, "Jumping into a new system ...Out of fuel!  Game Over");
    exp.advance_leap_with_rolls(3, 3);
    assert_eq!(exp.fuel, 0);
    assert_eq!(exp.leaps_since_incident, 1);
    assert_eq!(exp.jump_step, JumpStep::Step1);
}

#[test]
fn leap_step_burns_fuel() {
    let mut exp = Expedition::new();
    leap_into_system(&mut exp);
    assert_eq!(exp.fuel, 5);
    assert_eq!(exp.leaps_since_incident, 1);
    assert!(!exp.game_over);
    exp.fuel = 0;
    leap_into_system(&mut exp);
    assert_eq!(exp.fuel, 0);
    assert!(exp.game_over);
    assert_eq!(exp.game_text, "Out of fuel!  Game Over");
}

#[test]
fn battle_through_the_expedition() {
    let mut exp = Expedition::new();
    exp.advance_leap_with_rolls(1, 1);
    // 5 + 5 - 3 = 7: one Mk2
    exp.advance_leap_with_rolls(5, 5);
    assert!(exp.in_combat);
    assert_eq!(exp.game_text, "Assessing threats ...Enemy ships are preparing to engage!");
    assert_eq!(exp.combat.as_ref().unwrap().enemy_formation, vec![Threats::Mk2]);

    exp.advance_leap_with_rolls(1, 1);
    assert_eq!(exp.jump_step, JumpStep::Step3);
    assert_eq!(exp.game_text, "The battle is not over yet.");

    exp.sync_combat();
    exp.sync_combat();
    let c = exp.combat.as_ref().unwrap();
    assert!(c.scout_half);
    assert_eq!(c.rounds, 2);
    assert_eq!(c.enemy_stats[0].fuel, 3);

    exp.attack_with_roll(0, 0, 6);
    let c = exp.combat.as_ref().unwrap();
    assert_eq!(c.enemy_stats[0].hp, 3);
    assert!(c.scout_turns[0]);
    assert_eq!(c.combat_text, "Pilot deals 2 damage to MK2");

    exp.attack_with_roll(0, 0, 6);
    let c = exp.combat.as_ref().unwrap();
    assert_eq!(c.enemy_stats[0].hp, 3);
    assert_eq!(c.combat_text, "Make sure a valid scout and target are selected.");

    exp.attack_with_roll(1, 7, 6);
    assert_eq!(
        exp.combat.as_ref().unwrap().combat_text,
        "Make sure a valid scout and target are selected."
    );

    exp.fire_laser_with_roll(0, 7);
    let c = exp.combat.as_ref().unwrap();
    assert_eq!(c.enemy_stats[0].hp, 0);
    assert!(c.laser_fired);
    assert_eq!(c.combat_text, "Mining laser deals 3 damage to MK2");

    // the laser fires once a round
    exp.fire_laser_with_roll(0, 7);
    assert_eq!(exp.combat.as_ref().unwrap().combat_text, "Mining laser deals 3 damage to MK2");

    exp.sync_combat();
    assert!(!exp.in_combat);
    assert!(exp.combat.is_none());
    assert_eq!(exp.wreckage, vec![Threats::Mk2]);
    assert_eq!(exp.jump_step, JumpStep::Step4);

    exp.advance_leap_with_rolls(2, 1);
    assert_eq!(exp.parts, 6 + 2 + 1);
}

#[test]
fn laser_waits_for_round_two() {
    let mut exp = Expedition::new();
    exp.advance_leap_with_rolls(1, 1);
    exp.advance_leap_with_rolls(5, 5);
    exp.fire_laser_with_roll(0, 6);
    let c = exp.combat.as_ref().unwrap();
    assert_eq!(c.enemy_stats[0].hp, 5);
    assert!(!c.laser_fired);
    assert_eq!(
        c.combat_text,
        "Mining laser available starting in round 2.  Make sure a valid target is selected."
    );
}

#[test]
fn enemy_advance_only_in_enemy_half() {
    let mut exp = Expedition::new();
    exp.advance_leap_with_rolls(1, 1);
    exp.advance_leap_with_rolls(5, 5);
    let shot = ShotRolls { hit: true, target: Targets::Hull, damage_die: 1 };
    // scouts' half: nothing happens
    exp.enemy_advance_with_rolls(&vec![shot, shot]);
    assert_eq!(exp.hull_damage, 0);
    exp.sync_combat();
    exp.sync_combat();
    {
        let c = exp.combat.as_mut().unwrap();
        c.scout_turns = vec![true; 6];
        c.laser_fired = true;
    }
    exp.sync_combat();
    assert!(!exp.combat.as_ref().unwrap().scout_half);
    exp.enemy_advance_with_rolls(&vec![shot, shot]);
    assert_eq!(exp.hull_damage, 2);
    assert_eq!(exp.combat.as_ref().unwrap().enemy_turns, vec![true]);
    exp.enemy_advance();
    assert_eq!(exp.hull_damage, 2);
}

#[test]
fn repairs_only_in_upkeep() {
    let mut exp = Expedition::new();
    exp.engine.status = Status::Inoperable;
    exp.parts = 8;
    exp.repair_subsystem(1);
    assert_eq!(exp.engine.status, Status::Inoperable);
    assert_eq!(exp.parts, 8);

    exp.jump_step = JumpStep::Step6;
    exp.repair_subsystem(1);
    assert_eq!(exp.engine.status, Status::Normal);
    assert_eq!(exp.parts, 2);
    assert_eq!(exp.game_text, "Subsystem fully repaired with 6 parts.");

    exp.hull_damage = 2;
    exp.repair_subsystem(0);
    assert_eq!(exp.hull_damage, 1);
    assert_eq!(exp.parts, 1);
    assert_eq!(exp.game_text, "Hull damage repaired with 1 part.");

    exp.repair_subsystem(9);
    assert_eq!(exp.game_text, "Select a subsystem to repair.");
    exp.repair_subsystem(5);
    assert_eq!(exp.game_text, "Nothing to repair.");
    exp.sensors.status = Status::Serviceable;
    exp.repair_subsystem(5);
    assert_eq!(exp.sensors.status, Status::Serviceable);
    assert_eq!(exp.parts, 1);
    assert_eq!(exp.game_text, "Not enough parts to make this repair!");
}

#[test]
fn repair_costs_two_parts_per_rung() {
    let mut exp = Expedition::new();
    exp.jump_step = JumpStep::Step6;
    exp.sick_bay.status = Status::BarelyFunctioning;
    exp.parts = 3;
    exp.repair_subsystem(4);
    assert_eq!(exp.sick_bay.status, Status::BarelyFunctioning);
    assert_eq!(exp.parts, 3);
    assert_eq!(exp.game_text, "Not enough parts to make this repair!");
    exp.parts = 4;
    exp.repair_subsystem(4);
    assert_eq!(exp.sick_bay.status, Status::Normal);
    assert_eq!(exp.parts, 0);
    assert_eq!(exp.game_text, "Subsystem fully repaired with 4 parts.");
}

#[test]
fn subsystem_repair_direct() {
    let mut exp = Expedition::new();
    exp.sensors.status = Status::Serviceable;
    subsystem_repair(&mut exp, 5);
    assert_eq!(exp.sensors.status, Status::Normal);
    assert_eq!(exp.parts, 4);
    subsystem_repair(&mut exp, 0);
    assert_eq!(exp.game_text, "Nothing to repair.");
    exp.hull_damage = 1;
    exp.parts = 0;
    subsystem_repair(&mut exp, 0);
    assert_eq!(exp.hull_damage, 1);
    assert_eq!(exp.game_text, "Not enough parts to make this repair!");
}

#[test]
fn scout_repair_costs() {
    let mut exp = Expedition::new();
    exp.scouts[0].ship.damage = ShipDamage::Half;
    exp.scouts[1].ship.damage = ShipDamage::Inoperable;
    exp.scouts[2].ship.damage = ShipDamage::Destroyed;
    scout_repair(&mut exp, 0);
    assert_eq!(exp.scouts[0].ship.damage, ShipDamage::Normal);
    assert_eq!(exp.parts, 6);
    scout_repair(&mut exp, 1);
    assert_eq!(exp.scouts[1].ship.damage, ShipDamage::Normal);
    assert_eq!(exp.parts, 5);
    scout_repair(&mut exp, 2);
    assert_eq!(exp.scouts[2].ship.damage, ShipDamage::Destroyed);
    assert_eq!(exp.parts, 5);
    assert_eq!(exp.game_text, "Not enough parts to make this repair!");
    exp.parts = 6;
    scout_repair(&mut exp, 2);
    assert_eq!(exp.scouts[2].ship.damage, ShipDamage::Normal);
    assert_eq!(exp.parts, 0);
    scout_repair(&mut exp, 6);
    assert_eq!(exp.game_text, "Select a scout to repair.");

    exp.scouts[3].ship.damage = ShipDamage::Inoperable;
    exp.parts = 3;
    exp.repair_scout(3);
    assert_eq!(exp.scouts[3].ship.damage, ShipDamage::Inoperable);
    exp.jump_step = JumpStep::Step6;
    exp.repair_scout(3);
    assert_eq!(exp.scouts[3].ship.damage, ShipDamage::Normal);
    assert_eq!(exp.parts, 2);
}

#[test]
fn upgrades_are_bought_once() {
    let mut exp = Expedition::new();
    exp.jump_step = JumpStep::Step6;
    exp.parts = 9;
    exp.upgrade_subsystem(4);
    assert!(exp.sick_bay.upgrade);
    assert_eq!(exp.parts, 5);
    assert_eq!(exp.game_text, "Upgrade installed with 4 parts.");
    exp.upgrade_subsystem(4);
    assert_eq!(exp.parts, 5);
    assert_eq!(exp.game_text, "Already upgraded.");
    exp.upgrade_subsystem(0);
    assert!(exp.hull_upgrade);
    assert_eq!(exp.parts, 1);
    exp.upgrade_subsystem(2);
    assert!(!exp.mining_laser.upgrade);
    assert_eq!(exp.game_text, "Not enough parts to make this upgrade!");
    exp.upgrade_subsystem(6);
    assert_eq!(exp.game_text, "Select a subsystem to upgrade.");
    exp.jump_step = JumpStep::Step5;
    exp.parts = 8;
    exp.upgrade_subsystem(1);
    assert!(!exp.engine.upgrade);
    assert_eq!(exp.parts, 8);
}

#[test]
fn upkeep_heals_the_crew() {
    let mut exp = Expedition::new();
    exp.pilots[1].status = PilotStatus::Injured;
    exp.pilots[2].status = PilotStatus::Injured;
    exp.pilots[2].injury_timer = 1;
    exp.jump_step = JumpStep::Step6;
    exp.advance_leap_with_rolls(1, 1);
    assert_eq!(exp.jump_step, JumpStep::Step7);
    assert_eq!(exp.pilots[1].status, PilotStatus::Injured);
    assert_eq!(exp.pilots[1].injury_timer, 1);
    assert_eq!(exp.pilots[2].status, PilotStatus::Normal);
    assert_eq!(exp.scouts[1].pilot.injury_timer, 1);
}

#[test]
fn renaming_and_reordering() {
    let mut exp = Expedition::new();
    exp.rename_scout(1, "Hawk");
    exp.rename_pilot(1, "Ada");
    exp.rename_pilot(7, "Nobody");
    assert_eq!(exp.scouts[1].ship.name, "Hawk");
    assert_eq!(exp.pilots[1].name, "Ada");
    update_pilot_info(&mut exp);
    assert_eq!(exp.scouts[1].pilot.name, "Ada");

    exp.reorder_scout(1, true);
    assert_eq!(exp.scouts[0].ship.name, "Hawk");
    assert_eq!(exp.scouts[0].position, 0);
    assert_eq!(exp.scouts[1].position, 1);
    assert_eq!(exp.pilots[0].name, "Ada");

    exp.reorder_scout(0, true);
    assert_eq!(exp.scouts[5].ship.name, "Hawk");
    assert_eq!(exp.scouts[5].position, 5);
    assert_eq!(exp.pilots[5].name, "Ada");

    exp.reorder_pilot(5, false);
    assert_eq!(exp.pilots[0].name, "Ada");
    assert_eq!(exp.scouts[5].ship.name, "Hawk");
}

#[test]
fn selection_wraps() {
    assert_eq!(select_down(None, 0), None);
    assert_eq!(select_down(None, 6), Some(0));
    assert_eq!(select_down(Some(2), 6), Some(3));
    assert_eq!(select_down(Some(5), 6), Some(0));
    assert_eq!(select_up(None, 0), None);
    assert_eq!(select_up(None, 6), Some(5));
    assert_eq!(select_up(Some(0), 6), Some(5));
    assert_eq!(select_up(Some(3), 6), Some(2));
}

#[test]
fn rolled_commands_keep_the_rules() {
    for _ in 0..50 {
        let mut exp = Expedition::new();
        exp.advance_leap();
        assert_eq!(exp.fuel, 5);
        exp.advance_leap();
        assert_eq!(exp.jump_step, JumpStep::Step3);
        // after one leap the modifier is -3: at most 5 + 5 - 3 = 7
        if let Some(c) = exp.combat.as_ref() {
            let f = &c.enemy_formation;
            assert!(f.len() >= 4 || *f == vec![Threats::Mk2]);
        }
        exp.attack(0, 0);
        exp.fire_laser(0);
        exp.sync_combat();
    }
}
