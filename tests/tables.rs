use lost_ship::combat::{
    enemy_damage, mining_laser_with_roll, scout_attack_with_roll, subsystem_damage,
    target_for_roll, Targets,
};
use lost_ship::dice::roll;
use lost_ship::leap::{
    salvage_bonus, scan_modifier, scan_table, search_wreckage, system_scan, threat_modifier,
    threat_table, ScanResult,
};
use lost_ship::pilot::{PilotStatus, Rank};
use lost_ship::ship::{Scout, ShipDamage, Status};
use lost_ship::text::decimal;
use lost_ship::threat::{threats_to_fighters, Fighter, Threats};

#[test]
fn damage_is_clamped_at_zero() {
    assert_eq!(enemy_damage(2, 5), 3);
    assert_eq!(enemy_damage(5, 5), 0);
    assert_eq!(enemy_damage(7, 5), 0);
    assert_eq!(enemy_damage(0, 0), 0);
    assert_eq!(enemy_damage(u64::MAX, 1), 0);
    assert_eq!(enemy_damage(1, u64::MAX), u64::MAX - 1);
}

#[test]
fn subsystem_ladder_only_goes_down() {
    let mut s = Status::Normal;
    let expected = [
        Status::Serviceable,
        Status::BarelyFunctioning,
        Status::Inoperable,
        Status::Inoperable,
        Status::Inoperable,
    ];
    for e in expected.iter() {
        s = subsystem_damage(&s);
        assert_eq!(s, *e);
        assert_ne!(s, Status::Normal);
    }
}

#[test]
fn threat_table_edges() {
    for total in [-20i128, 0, 1, 2, 3] {
        assert!(threat_table(total).is_none());
    }
    assert_eq!(threat_table(12), Some(vec![Threats::Mk3]));
    let full = vec![
        Threats::Mk3,
        Threats::Mk3,
        Threats::Mk2,
        Threats::Mk2,
        Threats::Mk1,
        Threats::Mk1,
    ];
    for total in [15i128, 16, 40, 1_000_000] {
        assert_eq!(threat_table(total), Some(full.clone()));
    }
}

#[test]
fn threat_table_every_bucket() {
    assert_eq!(threat_table(4), Some(vec![Threats::Mk1; 4]));
    assert_eq!(threat_table(5), Some(vec![Threats::Mk1; 5]));
    assert_eq!(threat_table(6), Some(vec![Threats::Mk1; 6]));
    assert_eq!(threat_table(7), Some(vec![Threats::Mk2]));
    assert_eq!(threat_table(8), Some(vec![Threats::Mk2, Threats::Mk1, Threats::Mk1]));
    assert_eq!(
        threat_table(9),
        Some(vec![Threats::Mk2, Threats::Mk1, Threats::Mk1, Threats::Mk1])
    );
    assert_eq!(threat_table(10), Some(vec![Threats::Mk2, Threats::Mk2]));
    assert_eq!(threat_table(11), Some(vec![Threats::Mk2, Threats::Mk2, Threats::Mk1]));
    assert_eq!(
        threat_table(13),
        Some(vec![Threats::Mk3, Threats::Mk1, Threats::Mk1, Threats::Mk1])
    );
    assert_eq!(threat_table(14), Some(vec![Threats::Mk3, Threats::Mk2]));
}

#[test]
fn threat_modifier_by_leaps() {
    assert_eq!(threat_modifier(1), -3);
    assert_eq!(threat_modifier(2), -2);
    assert_eq!(threat_modifier(3), -1);
    for leaps in 4..=7 {
        assert_eq!(threat_modifier(leaps), 0);
    }
    assert_eq!(threat_modifier(8), 1);
    assert_eq!(threat_modifier(20), 13);
    assert_eq!(threat_modifier(u64::MAX), u64::MAX as i128 - 7);
}

#[test]
fn first_leap_with_two_is_clear() {
    // leap count 1, dice total 2: 2 - 3 = -1, no encounter
    assert!(threat_table(2 + threat_modifier(1)).is_none());
}

#[test]
fn total_seven_is_one_mk2() {
    let formation = threat_table(7).unwrap();
    let fighters = threats_to_fighters(&formation);
    assert_eq!(fighters.len(), 1);
    assert_eq!(fighters[0], Fighter { model: Threats::Mk2, hp: 5, guns: 2, fuel: 4 });
}

#[test]
fn fighters_by_tier_skip_empty_tags() {
    let fighters = threats_to_fighters(&[
        Threats::Mk1,
        Threats::NoThreat,
        Threats::Mk3,
        Threats::Mk2,
    ]);
    assert_eq!(
        fighters,
        vec![
            Fighter { model: Threats::Mk1, hp: 2, guns: 1, fuel: 3 },
            Fighter { model: Threats::Mk3, hp: 8, guns: 4, fuel: 5 },
            Fighter { model: Threats::Mk2, hp: 5, guns: 2, fuel: 4 },
        ]
    );
    assert!(threats_to_fighters(&[Threats::NoThreat]).is_empty());
    assert_eq!(Fighter::mk1(), Fighter { model: Threats::Mk1, hp: 2, guns: 1, fuel: 3 });
}

#[test]
fn attack_roll_six_normal_pilot_does_two() {
    let scout = Scout::default();
    assert_eq!(scout_attack_with_roll(&scout, 6), 2);
}

#[test]
fn attack_table_with_modifiers() {
    let mut scout = Scout::default();
    assert_eq!(scout_attack_with_roll(&scout, 5), 1);
    assert_eq!(scout_attack_with_roll(&scout, 4), 0);
    assert_eq!(scout_attack_with_roll(&scout, 1), 0);
    scout.pilot.status = PilotStatus::Injured;
    assert_eq!(scout_attack_with_roll(&scout, 6), 1);
    scout.pilot.status = PilotStatus::Normal;
    scout.pilot.rank = Rank::Veteran;
    assert_eq!(scout_attack_with_roll(&scout, 4), 1);
    assert_eq!(scout_attack_with_roll(&scout, 5), 2);
    scout.pilot.rank = Rank::Ace;
    assert_eq!(scout_attack_with_roll(&scout, 3), 1);
    assert_eq!(scout_attack_with_roll(&scout, 4), 2);
    assert_eq!(scout_attack_with_roll(&scout, 5), 0);
    scout.ship.damage = ShipDamage::Half;
    assert_eq!(scout_attack_with_roll(&scout, 5), 2);
    assert_eq!(scout_attack_with_roll(&scout, 0), 0);
}

#[test]
fn targeting_table() {
    let expected = [
        (1, Targets::Superficial),
        (2, Targets::FifthScout),
        (3, Targets::FourthScout),
        (4, Targets::ThirdScout),
        (5, Targets::SecondScout),
        (6, Targets::LeadScout),
        (7, Targets::Hull),
        (8, Targets::Engines),
        (9, Targets::MiningLaser),
        (10, Targets::ScoutingBay),
        (11, Targets::SickBay),
        (12, Targets::Sensors),
        (0, Targets::Hull),
        (13, Targets::Hull),
    ];
    for (total, target) in expected.iter() {
        assert_eq!(target_for_roll(*total), *target);
    }
}

#[test]
fn mining_laser_table() {
    let plain = [(1, 0), (2, 0), (3, 0), (4, 1), (5, 1), (6, 2), (7, 3), (8, 0)];
    for (die, damage) in plain.iter() {
        assert_eq!(mining_laser_with_roll(false, *die), *damage);
    }
    let upgraded = [(2, 0), (3, 1), (4, 1), (5, 2), (6, 3), (7, 0)];
    for (die, damage) in upgraded.iter() {
        assert_eq!(mining_laser_with_roll(true, *die), *damage);
    }
}

#[test]
fn salvage_bonus_by_tiers() {
    assert_eq!(salvage_bonus(&[]), 0);
    assert_eq!(salvage_bonus(&[Threats::Mk1, Threats::Mk1]), 0);
    assert_eq!(salvage_bonus(&[Threats::Mk2, Threats::Mk1]), 1);
    assert_eq!(salvage_bonus(&[Threats::Mk3]), 2);
    assert_eq!(salvage_bonus(&[Threats::Mk1, Threats::Mk3, Threats::Mk2]), 3);
}

#[test]
fn scan_table_buckets() {
    assert_eq!(scan_table(-1), (0, ScanResult::Barren));
    assert_eq!(scan_table(5), (0, ScanResult::Barren));
    assert_eq!(scan_table(6), (1, ScanResult::Fuel));
    assert_eq!(scan_table(7), (0, ScanResult::Anomoly));
    assert_eq!(scan_table(8), (1, ScanResult::Fuel));
    assert_eq!(scan_table(9), (2, ScanResult::Fuel));
    assert_eq!(scan_table(10), (3, ScanResult::Fuel));
    assert_eq!(scan_table(11), (0, ScanResult::Home));
    assert_eq!(scan_table(30), (0, ScanResult::Home));
}

#[test]
fn scan_modifier_is_capped() {
    assert_eq!(scan_modifier(1), -3);
    assert_eq!(scan_modifier(2), -2);
    assert_eq!(scan_modifier(3), -1);
    assert_eq!(scan_modifier(5), 0);
    assert_eq!(scan_modifier(8), 1);
    assert_eq!(scan_modifier(100), 1);
}

#[test]
fn roll_stays_below_its_sides() {
    assert_eq!(roll(1), 1);
    for _ in 0..500 {
        let r = roll(6);
        assert!((1..6).contains(&r));
        let r = roll(2);
        assert_eq!(r, 1);
    }
}

#[test]
fn random_tables_stay_in_range() {
    for _ in 0..200 {
        let parts = search_wreckage(vec![Threats::Mk2, Threats::Mk3]);
        assert!((4..=8).contains(&parts));
        let (fuel, _) = system_scan(1);
        assert!(fuel <= 3);
        let (fuel, found) = system_scan(2);
        // at most 5 + 5 - 2 = 8: barren, one fuel, or an anomaly
        assert!(fuel <= 1);
        assert_ne!(found, ScanResult::Home);
    }
}

#[test]
fn decimal_text() {
    assert_eq!(decimal(0), "0");
    assert_eq!(decimal(7), "7");
    assert_eq!(decimal(10), "10");
    assert_eq!(decimal(1234), "1234");
    assert_eq!(decimal(u64::MAX), u64::MAX.to_string());
}

#[test]
fn labels() {
    assert_eq!(Threats::Mk1.label(), "MK1");
    assert_eq!(Threats::NoThreat.label(), "None");
    assert_eq!(Status::BarelyFunctioning.label(), "Barely Functioning");
    assert_eq!(ShipDamage::Half.label(), "Half");
    assert_eq!(PilotStatus::Kia.label(), "KIA");
    assert_eq!(Rank::Ace.label(), "Ace");
    assert_eq!(ScanResult::Anomoly.label(), "Anomoly");
}
