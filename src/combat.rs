//! Combat: the attack, targeting and damage tables, and the turn-ordered
//! battle between the scouts and an enemy formation.

use vstd::prelude::*;
use vstd::string::*;
use crate::dice::roll_die;
use crate::expedition::{subsystem_at, Expedition};
use crate::pilot::{sat_inc, Pilot, PilotStatus, Rank};
use crate::ship::{degraded, status_level, Scout, Ship, ShipDamage, Status, SubSystem};
use crate::threat::{fighters_of, threat_label, threats_to_fighters, Fighter, Threats};

verus! {

/// Where an enemy hit lands.
#[derive(Clone, Copy, Debug, PartialEq, Eq, Structural)]
pub enum Targets {
    Superficial,
    FifthScout,
    FourthScout,
    ThirdScout,
    SecondScout,
    LeadScout,
    Hull,
    Engines,
    MiningLaser,
    ScoutingBay,
    SickBay,
    Sensors,
}

/// The targeting table: 1 superficial, 2 to 6 the scout in flight position
/// 5 down to 1, 7 hull, 8 engines, 9 mining laser, 10 scout bay, 11 sick
/// bay, 12 sensors; any other total hits the hull.
pub open spec fn target_of(total: int) -> Targets {
    if total == 1 {
        Targets::Superficial
    } else if total == 2 {
        Targets::FifthScout
    } else if total == 3 {
        Targets::FourthScout
    } else if total == 4 {
        Targets::ThirdScout
    } else if total == 5 {
        Targets::SecondScout
    } else if total == 6 {
        Targets::LeadScout
    } else if total == 7 {
        Targets::Hull
    } else if total == 8 {
        Targets::Engines
    } else if total == 9 {
        Targets::MiningLaser
    } else if total == 10 {
        Targets::ScoutingBay
    } else if total == 11 {
        Targets::SickBay
    } else if total == 12 {
        Targets::Sensors
    } else {
        Targets::Hull
    }
}

/// The target for two dice, looked up by their sum.
pub open spec fn target_of2(d1: int, d2: int) -> Targets {
    target_of(d1 + d2)
}

/// The formation slot (0 leads) that a target names, if it names a scout.
pub open spec fn scout_slot(t: Targets) -> Option<int> {
    match t {
        Targets::FifthScout => Some(4),
        Targets::FourthScout => Some(3),
        Targets::ThirdScout => Some(2),
        Targets::SecondScout => Some(1),
        Targets::LeadScout => Some(0),
        _ => None,
    }
}

/// Looks a targeting total up in the targeting table.
pub fn target_for_roll(total: u64) -> (r: Targets)
    ensures
        r == target_of(total as int),
{
    if total == 1 {
        Targets::Superficial
    } else if total == 2 {
        Targets::FifthScout
    } else if total == 3 {
        Targets::FourthScout
    } else if total == 4 {
        Targets::ThirdScout
    } else if total == 5 {
        Targets::SecondScout
    } else if total == 6 {
        Targets::LeadScout
    } else if total == 7 {
        Targets::Hull
    } else if total == 8 {
        Targets::Engines
    } else if total == 9 {
        Targets::MiningLaser
    } else if total == 10 {
        Targets::ScoutingBay
    } else if total == 11 {
        Targets::SickBay
    } else if total == 12 {
        Targets::Sensors
    } else {
        Targets::Hull
    }
}

/// Damage a scout's attack does for a die value: the die plus the rank
/// bonus (veteran +1, ace +2) and the craft's malus (half damaged -1);
/// 5 does 1 damage, 6 does 2 for a healthy pilot and 1 for an injured one,
/// anything else misses.
pub open spec fn attack_damage(s: Scout, die: int) -> nat {
    let ship_mod: int = if s.ship.damage == ShipDamage::Half { -1 } else { 0 };
    let rank_mod: int = match s.pilot.rank {
        Rank::Rookie => 0,
        Rank::Veteran => 1,
        Rank::Ace => 2,
    };
    let total = die + ship_mod + rank_mod;
    if total == 5 || (total == 6 && s.pilot.status == PilotStatus::Injured) {
        1
    } else if total == 6 && s.pilot.status == PilotStatus::Normal {
        2
    } else {
        0
    }
}

/// Damage of a scout's attack for a given die value.
pub fn scout_attack_with_roll(scout: &Scout, die: u8) -> (r: u64)
    ensures
        r == attack_damage(*scout, die as int),
{
    let mut modifier: i64 = match scout.ship.damage {
        ShipDamage::Half => -1,
        _ => 0,
    };
    match scout.pilot.rank {
        Rank::Rookie => {},
        Rank::Veteran => modifier = modifier + 1,
        Rank::Ace => modifier = modifier + 2,
    }
    let attack_result: i64 = die as i64 + modifier;
    if attack_result == 5 || (attack_result == 6 && scout.pilot.status == PilotStatus::Injured) {
        1
    } else if attack_result == 6 && scout.pilot.status == PilotStatus::Normal {
        2
    } else {
        0
    }
}

/// Rolls a scout's attack and returns the damage it does.
pub fn scout_attack(scout: &Scout) -> (r: u64)
    ensures
        exists|d: int| 1 <= d < 6 && r == attack_damage(*scout, d),
{
    let d = roll_die();
    let r = scout_attack_with_roll(scout, d);
    assert(1 <= d as int && d < 6 && r == attack_damage(*scout, d as int));
    r
}

/// Whether an enemy shot with the given die hits: a die above 3.
pub open spec fn shot_hits(die: int) -> bool {
    die > 3
}

/// Whether an enemy shot with the given die hits.
pub fn hit_for_roll(die: u8) -> (r: bool)
    ensures
        r == shot_hits(die as int),
{
    die > 3
}

/// Rolls whether an enemy shot hits.
pub fn enemy_attack() -> (r: bool)
    ensures
        exists|d: int| 1 <= d < 6 && r == shot_hits(d),
{
    let d = roll_die();
    let r = hit_for_roll(d);
    assert(1 <= d as int && d < 6 && r == shot_hits(d as int));
    r
}

/// Rolls where an enemy hit lands: one die in the first round, the sum of
/// two dice from the second round on.
pub fn enemy_targeting(combat: &Combat) -> (r: Targets)
    ensures
        combat.rounds > 1 ==> exists|d1: int, d2: int|
            1 <= d1 < 6 && 1 <= d2 < 6 && r == target_of2(d1, d2),
        combat.rounds <= 1 ==> exists|d: int| 1 <= d < 6 && r == target_of(d),
{
    if combat.rounds > 1 {
        let d1 = roll_die();
        let d2 = roll_die();
        let r = target_for_roll(d1 as u64 + d2 as u64);
        assert(r == target_of2(d1 as int, d2 as int));
        r
    } else {
        let d = roll_die();
        let r = target_for_roll(d as u64);
        assert(r == target_of(d as int));
        r
    }
}

/// A pilot killed in action; the injury timer is cleared on death.
pub open spec fn killed(p: Pilot) -> Pilot {
    Pilot { status: PilotStatus::Kia, injury_timer: 0, ..p }
}

/// A scout with the given craft damage.
pub open spec fn with_damage(s: Scout, d: ShipDamage) -> Scout {
    Scout { ship: Ship { damage: d, ..s.ship }, ..s }
}

/// The scout damage table, for a scout that is hit: 1 superficial; 2 a
/// healthy pilot is injured and an injured one killed; 3 the pilot is
/// killed; 4 an intact craft is half damaged and a half damaged one
/// destroyed; 5 the craft is inoperable (a destroyed one stays destroyed);
/// anything else kills the pilot and destroys the craft.
pub open spec fn scout_hit(s: Scout, die: int) -> Scout {
    if die == 1 {
        s
    } else if die == 2 {
        match s.pilot.status {
            PilotStatus::Normal => Scout {
                pilot: Pilot { status: PilotStatus::Injured, ..s.pilot },
                ..s
            },
            PilotStatus::Injured => Scout { pilot: killed(s.pilot), ..s },
            PilotStatus::Kia => s,
        }
    } else if die == 3 {
        Scout { pilot: killed(s.pilot), ..s }
    } else if die == 4 {
        match s.ship.damage {
            ShipDamage::Normal => with_damage(s, ShipDamage::Half),
            ShipDamage::Half => with_damage(s, ShipDamage::Destroyed),
            _ => s,
        }
    } else if die == 5 {
        if s.ship.damage == ShipDamage::Destroyed {
            s
        } else {
            with_damage(s, ShipDamage::Inoperable)
        }
    } else {
        Scout { pilot: killed(s.pilot), ..with_damage(s, ShipDamage::Destroyed) }
    }
}

/// The narration of a scout damage roll.
pub open spec fn scout_hit_text(s: Scout, die: int) -> Seq<char> {
    if die == 1 {
        "Superficial damage."@
    } else if die == 2 {
        match s.pilot.status {
            PilotStatus::Normal => "Pilot injured"@,
            PilotStatus::Injured => "Injured pilot KIA"@,
            PilotStatus::Kia => "..."@,
        }
    } else if die == 3 {
        "Pilot KIA"@
    } else if die == 4 {
        match s.ship.damage {
            ShipDamage::Normal => "Scout at 50% damage"@,
            ShipDamage::Half => "Damaged scout is destroyed"@,
            _ => "..."@,
        }
    } else if die == 5 {
        if s.ship.damage == ShipDamage::Destroyed {
            "..."@
        } else {
            "Scout Inoperable, recalling now..."@
        }
    } else {
        "Scout destroyed, pilot KIA"@
    }
}

/// Applies the scout damage table for a given die value and narrates it.
pub fn scout_damage_with_roll(scout: &mut Scout, die: u8) -> (r: String)
    ensures
        *final(scout) == scout_hit(*old(scout), die as int),
        r@ == scout_hit_text(*old(scout), die as int),
{
    if die == 1 {
        String::from_str("Superficial damage.")
    } else if die == 2 {
        match scout.pilot.status {
            PilotStatus::Normal => {
                scout.pilot.status = PilotStatus::Injured;
                String::from_str("Pilot injured")
            },
            PilotStatus::Injured => {
                scout.pilot.status = PilotStatus::Kia;
                scout.pilot.injury_timer = 0;
                String::from_str("Injured pilot KIA")
            },
            PilotStatus::Kia => String::from_str("..."),
        }
    } else if die == 3 {
        scout.pilot.status = PilotStatus::Kia;
        scout.pilot.injury_timer = 0;
        String::from_str("Pilot KIA")
    } else if die == 4 {
        match scout.ship.damage {
            ShipDamage::Normal => {
                scout.ship.damage = ShipDamage::Half;
                String::from_str("Scout at 50% damage")
            },
            ShipDamage::Half => {
                scout.ship.damage = ShipDamage::Destroyed;
                String::from_str("Damaged scout is destroyed")
            },
            _ => String::from_str("..."),
        }
    } else if die == 5 {
        if scout.ship.damage == ShipDamage::Destroyed {
            String::from_str("...")
        } else {
            scout.ship.damage = ShipDamage::Inoperable;
            String::from_str("Scout Inoperable, recalling now...")
        }
    } else {
        scout.pilot.status = PilotStatus::Kia;
        scout.pilot.injury_timer = 0;
        scout.ship.damage = ShipDamage::Destroyed;
        String::from_str("Scout destroyed, pilot KIA")
    }
}

/// Rolls the scout damage table for a scout that was hit.
pub fn scout_damage(scout: &mut Scout) -> (r: String)
    ensures
        exists|d: int|
            1 <= d < 6 && *final(scout) == scout_hit(*old(scout), d) && r@ == scout_hit_text(
                *old(scout),
                d,
            ),
{
    let d = roll_die();
    let r = scout_damage_with_roll(scout, d);
    assert(1 <= d as int && d < 6 && *scout == scout_hit(*old(scout), d as int) && r@
        == scout_hit_text(*old(scout), d as int));
    r
}

/// Damage of the mining laser for a die value, +1 when upgraded: 4 or 5
/// does 1, 6 does 2, 7 does 3, anything else misses.
pub open spec fn laser_damage(upgraded: bool, die: int) -> nat {
    let total = if upgraded { die + 1 } else { die };
    if 4 <= total <= 5 {
        1
    } else if total == 6 {
        2
    } else if total == 7 {
        3
    } else {
        0
    }
}

/// Damage of the mining laser for a given die value.
pub fn mining_laser_with_roll(upgraded: bool, die: u8) -> (r: u64)
    ensures
        r == laser_damage(upgraded, die as int),
{
    let mut roll_result: u64 = die as u64;
    if upgraded {
        roll_result = roll_result + 1;
    }
    if 4 <= roll_result && roll_result <= 5 {
        1
    } else if roll_result == 6 {
        2
    } else if roll_result == 7 {
        3
    } else {
        0
    }
}

/// Rolls the mining laser and returns the damage it does.
pub fn mining_laser(upgraded: bool) -> (r: u64)
    ensures
        exists|d: int| 1 <= d < 6 && r == laser_damage(upgraded, d),
{
    let d = roll_die();
    let r = mining_laser_with_roll(upgraded, d);
    assert(1 <= d as int && d < 6 && r == laser_damage(upgraded, d as int));
    r
}

/// Hit points left after taking damage: `hp - damage`, never below zero.
pub fn enemy_damage(damage: u64, hp: u64) -> (r: u64)
    ensures
        r >= 0,
        r as int == if hp >= damage { hp - damage } else { 0 },
{
    if hp < damage {
        0
    } else {
        hp - damage
    }
}

/// Moves a subsystem one rung down its ladder; `Inoperable` stays.
pub fn subsystem_damage(status: &Status) -> (r: Status)
    ensures
        r == degraded(*status),
{
    match status {
        Status::Normal => Status::Serviceable,
        Status::Serviceable => Status::BarelyFunctioning,
        Status::BarelyFunctioning => Status::Inoperable,
        Status::Inoperable => Status::Inoperable,
    }
}

/// The state of one battle. Scouts act first in each round; `scout_turns`
/// and `enemy_turns` record who has acted in the current half.
#[derive(Debug)]
pub struct Combat {
    pub rounds: u64,
    pub scout_formation: Vec<Scout>,
    pub enemy_formation: Vec<Threats>,
    pub enemy_stats: Vec<Fighter>,
    pub scout_turns: Vec<bool>,
    pub enemy_turns: Vec<bool>,
    pub scout_half: bool,
    pub laser_fired: bool,
    pub combat_text: String,
}

impl Combat {
    /// Six scouts, one turn flag per unit on each side.
    pub open spec fn wf(&self) -> bool {
        &&& self.scout_formation@.len() == 6
        &&& self.scout_turns@.len() == self.scout_formation@.len()
        &&& self.enemy_turns@.len() == self.enemy_stats@.len()
    }
}

/// Whether a target total can come from the targeting dice of a round:
/// one die in the first round, two from the second on.
pub open spec fn reachable_target(rounds: u64, t: Targets) -> bool {
    if rounds > 1 {
        exists|d1: int, d2: int| 1 <= d1 < 6 && 1 <= d2 < 6 && t == target_of2(d1, d2)
    } else {
        exists|d: int| 1 <= d < 6 && t == target_of(d)
    }
}

/// The dice of one enemy gun: whether it hits, where the hit lands, and
/// the die of the scout damage table.
#[derive(Clone, Copy, Debug, PartialEq, Eq, Structural)]
pub struct ShotRolls {
    pub hit: bool,
    pub target: Targets,
    pub damage_die: u8,
}

/// Whether a shot's dice can come from the rolls of the given round: a hit
/// rolls its target, and a hit on a scout rolls the scout damage table.
/// The dice of a shot that never needed them are placeholders.
pub open spec fn valid_shot(rounds: u64, shot: ShotRolls) -> bool {
    &&& shot.hit ==> reachable_target(rounds, shot.target)
    &&& shot.hit && scout_slot(shot.target) is Some ==> 1 <= shot.damage_die < 6
}

/// The scouts after one shot: a hit on a scout slot applies the scout
/// damage table to that scout.
pub open spec fn shot_scouts(scouts: Seq<Scout>, shot: ShotRolls) -> Seq<Scout> {
    if shot.hit && scout_slot(shot.target) is Some {
        let k = scout_slot(shot.target)->0;
        scouts.update(k, scout_hit(scouts[k], shot.damage_die as int))
    } else {
        scouts
    }
}

/// A subsystem one rung worse.
pub open spec fn worn(s: SubSystem) -> SubSystem {
    SubSystem { status: degraded(s.status), ..s }
}

/// The expedition after one shot: a hull hit adds a point of hull damage,
/// a subsystem hit degrades that subsystem one rung.
pub open spec fn shot_ship(e: Expedition, shot: ShotRolls) -> Expedition {
    if !shot.hit {
        e
    } else {
        match shot.target {
            Targets::Hull => Expedition { hull_damage: sat_inc(e.hull_damage), ..e },
            Targets::Engines => Expedition { engine: worn(e.engine), ..e },
            Targets::MiningLaser => Expedition { mining_laser: worn(e.mining_laser), ..e },
            Targets::ScoutingBay => Expedition { scout_bay: worn(e.scout_bay), ..e },
            Targets::SickBay => Expedition { sick_bay: worn(e.sick_bay), ..e },
            Targets::Sensors => Expedition { sensors: worn(e.sensors), ..e },
            _ => e,
        }
    }
}

/// The narration of one shot by an enemy of the given tier.
pub open spec fn shot_text(model: Threats, scouts: Seq<Scout>, shot: ShotRolls) -> Seq<char> {
    let who = "Enemy "@ + threat_label(model);
    if !shot.hit {
        "Miss!  "@
    } else if scout_slot(shot.target) is Some {
        let k = scout_slot(shot.target)->0;
        who + " damages "@ + scouts[k].ship.name@ + ".  Scout "@ + scout_hit_text(
            scouts[k],
            shot.damage_die as int,
        ) + "  "@
    } else {
        who + ship_hit_text(shot.target)
    }
}

/// The narration of a hit that lands on the mother ship, after the enemy's
/// name.
pub open spec fn ship_hit_text(t: Targets) -> Seq<char> {
    match t {
        Targets::Superficial => " deals superficial damage!  "@,
        Targets::Engines => " damages the engines.  "@,
        Targets::MiningLaser => " damages the mining laser.  "@,
        Targets::ScoutingBay => " damages the scout bay.  "@,
        Targets::SickBay => " damages the sick bay.  "@,
        Targets::Sensors => " damages the sensors.  "@,
        _ => " damages the hull.  "@,
    }
}

/// The scouts after a volley of shots, fired in order.
pub open spec fn volley_scouts(scouts: Seq<Scout>, shots: Seq<ShotRolls>) -> Seq<Scout>
    decreases shots.len(),
{
    if shots.len() == 0 {
        scouts
    } else {
        shot_scouts(volley_scouts(scouts, shots.drop_last()), shots.last())
    }
}

/// The expedition after a volley of shots, fired in order.
pub open spec fn volley_ship(e: Expedition, shots: Seq<ShotRolls>) -> Expedition
    decreases shots.len(),
{
    if shots.len() == 0 {
        e
    } else {
        shot_ship(volley_ship(e, shots.drop_last()), shots.last())
    }
}

/// The narration of a volley of shots, one piece per shot.
pub open spec fn volley_text(model: Threats, scouts: Seq<Scout>, shots: Seq<ShotRolls>) -> Seq<
    char,
>
    decreases shots.len(),
{
    if shots.len() == 0 {
        Seq::empty()
    } else {
        volley_text(model, scouts, shots.drop_last()) + shot_text(
            model,
            volley_scouts(scouts, shots.drop_last()),
            shots.last(),
        )
    }
}

/// Applies a hit that lands on the mother ship (or nowhere) and returns
/// its narration.
fn hit_ship(app: &mut Expedition, target: Targets) -> (r: &'static str)
    requires
        scout_slot(target) is None,
    ensures
        *final(app) == shot_ship(*old(app), ShotRolls { hit: true, target, damage_die: 0 }),
        r@ == ship_hit_text(target),
{
    match target {
        Targets::Superficial => " deals superficial damage!  ",
        Targets::Engines => {
            app.engine.status = subsystem_damage(&app.engine.status);
            " damages the engines.  "
        },
        Targets::MiningLaser => {
            app.mining_laser.status = subsystem_damage(&app.mining_laser.status);
            " damages the mining laser.  "
        },
        Targets::ScoutingBay => {
            app.scout_bay.status = subsystem_damage(&app.scout_bay.status);
            " damages the scout bay.  "
        },
        Targets::SickBay => {
            app.sick_bay.status = subsystem_damage(&app.sick_bay.status);
            " damages the sick bay.  "
        },
        Targets::Sensors => {
            app.sensors.status = subsystem_damage(&app.sensors.status);
            " damages the sensors.  "
        },
        _ => {
            app.hull_damage = app.hull_damage.saturating_add(1);
            " damages the hull.  "
        },
    }
}

/// Applies a hit on the scout in slot `k` and returns its narration.
fn hit_scout(scouts: &mut Vec<Scout>, k: usize, die: u8) -> (r: String)
    requires
        k < old(scouts)@.len(),
    ensures
        final(scouts)@ == old(scouts)@.update(k as int, scout_hit(old(scouts)@[k as int], die as int)),
        r@ == " damages "@ + old(scouts)@[k as int].ship.name@ + ".  Scout "@ + scout_hit_text(
            old(scouts)@[k as int],
            die as int,
        ) + "  "@,
{
    let name = scouts[k].ship.name.clone();
    let damage_text = scout_damage_with_roll(&mut scouts[k], die);
    String::from_str(" damages ").concat(name.as_str()).concat(".  Scout ").concat(
        damage_text.as_str(),
    ).concat("  ")
}

/// Fires one enemy gun with the given dice.
fn fire_shot(combat: &mut Combat, app: &mut Expedition, model: Threats, shot: ShotRolls)
    requires
        old(combat).wf(),
    ensures
        final(combat).wf(),
        *final(combat) == (Combat {
            scout_formation: final(combat).scout_formation,
            combat_text: final(combat).combat_text,
            ..*old(combat)
        }),
        final(combat).scout_formation@ == shot_scouts(old(combat).scout_formation@, shot),
        final(combat).combat_text@ == old(combat).combat_text@ + shot_text(
            model,
            old(combat).scout_formation@,
            shot,
        ),
        *final(app) == shot_ship(*old(app), shot),
{
    if !shot.hit {
        combat.combat_text.append("Miss!  ");
        return ;
    }
    let who = String::from_str("Enemy ").concat(model.label());
    let k: usize = match shot.target {
        Targets::FifthScout => 4,
        Targets::FourthScout => 3,
        Targets::ThirdScout => 2,
        Targets::SecondScout => 1,
        Targets::LeadScout => 0,
        _ => 6,
    };
    if k < 6 {
        let rest = hit_scout(&mut combat.scout_formation, k, shot.damage_die);
        combat.combat_text.append(who.concat(rest.as_str()).as_str());
    } else {
        let rest = hit_ship(app, shot.target);
        combat.combat_text.append(who.concat(rest).as_str());
    }
}

/// Whether enemy `i` can act now: it has not acted this half, still has
/// hit points, and still has fuel.
pub open spec fn ready(turns: Seq<bool>, stats: Seq<Fighter>, i: int) -> bool {
    &&& 0 <= i < turns.len()
    &&& !turns[i]
    &&& stats[i].hp > 0
    &&& stats[i].fuel > 0
}

/// The first enemy from `from` on that can act, or the formation's length
/// when none can.
pub open spec fn first_ready(turns: Seq<bool>, stats: Seq<Fighter>, from: int) -> int
    decreases turns.len() - from,
{
    if from >= turns.len() || from < 0 {
        turns.len() as int
    } else if ready(turns, stats, from) {
        from
    } else {
        first_ready(turns, stats, from + 1)
    }
}

/// The enemy that acts next in a battle, or the formation's length when
/// none can.
pub open spec fn acting(c: Combat) -> int {
    first_ready(c.enemy_turns@, c.enemy_stats@, 0)
}

/// One enemy advance with the given dice, one `ShotRolls` per gun: the
/// first enemy that can act fires every gun and is marked as having acted;
/// enemies before it that have not acted, being defeated or out of fuel,
/// are marked too. With no enemy able to act, every enemy is marked.
pub open spec fn enemy_turn_result(
    c0: Combat,
    e0: Expedition,
    shots: Seq<ShotRolls>,
    c1: Combat,
    e1: Expedition,
) -> bool {
    let a = acting(c0);
    let n = c0.enemy_turns@.len();
    &&& c1.wf()
    &&& c1 == Combat {
        scout_formation: c1.scout_formation,
        combat_text: c1.combat_text,
        enemy_turns: c1.enemy_turns,
        ..c0
    }
    &&& c1.enemy_turns@.len() == n
    &&& forall|j: int| 0 <= j < n ==> #[trigger] c1.enemy_turns@[j] == (c0.enemy_turns@[j] || j <= a)
    &&& a < n ==> {
        &&& shots.len() == c0.enemy_stats@[a].guns
        &&& c1.scout_formation@ == volley_scouts(c0.scout_formation@, shots)
        &&& c1.combat_text@ == volley_text(c0.enemy_stats@[a].model, c0.scout_formation@, shots)
        &&& e1 == volley_ship(e0, shots)
    }
    &&& a >= n ==> {
        &&& c1.scout_formation == c0.scout_formation
        &&& c1.combat_text == c0.combat_text
        &&& e1 == e0
    }
}

/// Finds the enemy that acts next, marking on the way the enemies that have
/// not acted but cannot; returns the formation's length when none can act.
fn take_enemy_turn(combat: &mut Combat) -> (r: usize)
    requires
        old(combat).wf(),
    ensures
        r == acting(*old(combat)),
        final(combat).wf(),
        *final(combat) == (Combat { enemy_turns: final(combat).enemy_turns, ..*old(combat) }),
        final(combat).enemy_turns@.len() == old(combat).enemy_turns@.len(),
        forall|j: int|
            0 <= j < old(combat).enemy_turns@.len() ==> #[trigger] final(combat).enemy_turns@[j] == (
            old(combat).enemy_turns@[j] || j <= r),
{
    let ghost turns0 = combat.enemy_turns@;
    let n = combat.enemy_turns.len();
    let mut i: usize = 0;
    while i < n
        invariant
            combat.wf(),
            n == turns0.len(),
            i <= n,
            *combat == (Combat { enemy_turns: combat.enemy_turns, ..*old(combat) }),
            turns0 == old(combat).enemy_turns@,
            combat.enemy_turns@.len() == n,
            forall|j: int| 0 <= j < n ==> #[trigger] combat.enemy_turns@[j] == (turns0[j] || j < i),
            first_ready(turns0, combat.enemy_stats@, 0) == first_ready(
                turns0,
                combat.enemy_stats@,
                i as int,
            ),
        decreases n - i,
    {
        if !combat.enemy_turns[i] {
            combat.enemy_turns.set(i, true);
            let f = combat.enemy_stats[i];
            if f.hp > 0 && f.fuel > 0 {
                assert forall|j: int| 0 <= j < n implies #[trigger] combat.enemy_turns@[j] == (
                turns0[j] || j <= i) by {}
                return i;
            }
        }
        i = i + 1;
    }
    n
}

/// One enemy advance with the given dice, one `ShotRolls` per gun of the
/// enemy that acts.
pub fn enemy_turn_with_rolls(combat: &mut Combat, app: &mut Expedition, shots: &Vec<ShotRolls>)
    requires
        old(combat).wf(),
        acting(*old(combat)) < old(combat).enemy_stats@.len() ==> shots@.len() == old(combat).enemy_stats@[acting(*old(combat))].guns,
    ensures
        enemy_turn_result(*old(combat), *old(app), shots@, *final(combat), *final(app)),
{
    let a = take_enemy_turn(combat);
    if a < combat.enemy_stats.len() {
        let model = combat.enemy_stats[a].model;
        combat.combat_text = String::new();
        let ghost scouts0 = combat.scout_formation@;
        let ghost e0 = *app;
        let ghost c1 = *combat;
        let mut g: usize = 0;
        while g < shots.len()
            invariant
                combat.wf(),
                g <= shots@.len(),
                *combat == (Combat {
                    scout_formation: combat.scout_formation,
                    combat_text: combat.combat_text,
                    ..c1
                }),
                combat.scout_formation@ == volley_scouts(scouts0, shots@.subrange(0, g as int)),
                combat.combat_text@ == volley_text(model, scouts0, shots@.subrange(0, g as int)),
                *app == volley_ship(e0, shots@.subrange(0, g as int)),
            decreases shots@.len() - g,
        {
            let ghost before = shots@.subrange(0, g as int);
            let ghost after = shots@.subrange(0, g as int + 1);
            assert(after.drop_last() =~= before);
            fire_shot(combat, app, model, shots[g]);
            g = g + 1;
        }
        assert(shots@.subrange(0, shots@.len() as int) =~= shots@);
    }
}

/// The enemy that acts next, or the formation's length when none can.
fn next_enemy(combat: &Combat) -> (r: usize)
    requires
        combat.wf(),
    ensures
        r == acting(*combat),
{
    let n = combat.enemy_turns.len();
    let mut i: usize = 0;
    while i < n
        invariant
            combat.wf(),
            n == combat.enemy_turns@.len(),
            i <= n,
            acting(*combat) == first_ready(combat.enemy_turns@, combat.enemy_stats@, i as int),
        decreases n - i,
    {
        let f = combat.enemy_stats[i];
        if !combat.enemy_turns[i] && f.hp > 0 && f.fuel > 0 {
            return i;
        }
        i = i + 1;
    }
    n
}

/// One enemy advance: the first enemy that can act fires each of its guns,
/// every shot rolling to hit, for a target, and on the scout damage table.
pub fn enemy_turn(combat: &mut Combat, app: &mut Expedition)
    requires
        old(combat).wf(),
    ensures
        exists|shots: Seq<ShotRolls>|
            {
                &&& forall|k: int|
                    0 <= k < shots.len() ==> valid_shot(old(combat).rounds, #[trigger] shots[k])
                &&& acting(*old(combat)) < old(combat).enemy_stats@.len() ==> shots.len() == old(combat).enemy_stats@[acting(*old(combat))].guns
                &&& acting(*old(combat)) >= old(combat).enemy_stats@.len() ==> shots.len() == 0
                &&& enemy_turn_result(*old(combat), *old(app), shots, *final(combat), *final(app))
            },
{
    let a = next_enemy(combat);
    let mut shots: Vec<ShotRolls> = Vec::new();
    if a < combat.enemy_stats.len() {
        let guns = combat.enemy_stats[a].guns;
        let mut g: u64 = 0;
        while g < guns
            invariant
                combat.wf(),
                g <= guns,
                shots@.len() == g,
                forall|k: int|
                    0 <= k < shots@.len() ==> valid_shot(combat.rounds, #[trigger] shots@[k]),
            decreases guns - g,
        {
            let hit = enemy_attack();
            let shot = if hit {
                let target = enemy_targeting(combat);
                let damage_die = match target {
                    Targets::FifthScout | Targets::FourthScout | Targets::ThirdScout
                    | Targets::SecondScout | Targets::LeadScout => roll_die(),
                    _ => 0,
                };
                ShotRolls { hit, target, damage_die }
            } else {
                ShotRolls { hit, target: Targets::Superficial, damage_die: 0 }
            };
            shots.push(shot);
            g = g + 1;
        }
    }
    let ghost drawn = shots@;
    enemy_turn_with_rolls(combat, app, &shots);
    assert(forall|k: int| 0 <= k < drawn.len() ==> valid_shot(old(combat).rounds, #[trigger] drawn[k]));
}

/// Whether every flag is set.
pub open spec fn all_set(s: Seq<bool>) -> bool {
    forall|i: int| 0 <= i < s.len() ==> #[trigger] s[i]
}

/// Whether a scout sits the battle out: its craft inoperable or destroyed,
/// or its pilot killed.
pub open spec fn disabled(s: Scout) -> bool {
    ||| s.ship.damage == ShipDamage::Inoperable
    ||| s.ship.damage == ShipDamage::Destroyed
    ||| s.pilot.status == PilotStatus::Kia
}

/// Whether the half under way is over: in the scouts' half every scout has
/// acted and the mining laser has fired (in the first round it counts as
/// fired); in the enemy half every enemy has acted.
pub open spec fn half_done(c: Combat) -> bool {
    if c.scout_half {
        all_set(c.scout_turns@) && (c.laser_fired || c.rounds == 1)
    } else {
        all_set(c.enemy_turns@)
    }
}

/// An enemy one round further on: a surviving enemy burns one fuel while
/// any is left; a defeated one keeps what it had.
pub open spec fn refuelled_round(f: Fighter) -> Fighter {
    if f.hp > 0 && f.fuel > 0 {
        Fighter { fuel: (f.fuel - 1) as u64, ..f }
    } else {
        f
    }
}

/// One update pass over a battle. When the half under way is over, the
/// battle flips to the other half, once: from the scouts to the enemies, or
/// from the enemies to the scouts of the next round, which clears every
/// turn flag and the laser, counts the round, and burns one fuel of each
/// enemy that has any. Then every disabled scout is marked as having acted.
pub open spec fn update_result(c0: Combat, c1: Combat) -> bool {
    let flip = half_done(c0);
    let new_round = flip && !c0.scout_half;
    &&& c1 == Combat {
        rounds: c1.rounds,
        scout_turns: c1.scout_turns,
        enemy_turns: c1.enemy_turns,
        enemy_stats: c1.enemy_stats,
        scout_half: c1.scout_half,
        laser_fired: c1.laser_fired,
        ..c0
    }
    &&& c1.scout_half == (c0.scout_half != flip)
    &&& c1.rounds == if new_round { sat_inc(c0.rounds) } else { c0.rounds }
    &&& c1.laser_fired == (c0.laser_fired && !new_round)
    &&& c1.scout_turns@.len() == c0.scout_turns@.len()
    &&& forall|i: int|
        0 <= i < c0.scout_turns@.len() ==> #[trigger] c1.scout_turns@[i] == (disabled(
            c0.scout_formation@[i],
        ) || (!flip && c0.scout_turns@[i]))
    &&& c1.enemy_turns@.len() == c0.enemy_turns@.len()
    &&& forall|i: int|
        0 <= i < c0.enemy_turns@.len() ==> #[trigger] c1.enemy_turns@[i] == (!new_round
            && c0.enemy_turns@[i])
    &&& c1.enemy_stats@.len() == c0.enemy_stats@.len()
    &&& forall|i: int|
        0 <= i < c0.enemy_stats@.len() ==> #[trigger] c1.enemy_stats@[i] == if new_round {
            refuelled_round(c0.enemy_stats@[i])
        } else {
            c0.enemy_stats@[i]
        }
}

/// Whether the battle is over: every enemy is defeated or out of fuel.
pub open spec fn resolved(c: Combat) -> bool {
    forall|i: int|
        0 <= i < c.enemy_stats@.len() ==> (#[trigger] c.enemy_stats@[i]).hp == 0
            || c.enemy_stats@[i].fuel == 0
}

/// `n` flags, all set to `value`.
fn flags(n: usize, value: bool) -> (r: Vec<bool>)
    ensures
        r@.len() == n,
        forall|i: int| 0 <= i < n ==> #[trigger] r@[i] == value,
{
    let mut r: Vec<bool> = Vec::new();
    let mut i: usize = 0;
    while i < n
        invariant
            i <= n,
            r@.len() == i,
            forall|j: int| 0 <= j < i ==> #[trigger] r@[j] == value,
        decreases n - i,
    {
        r.push(value);
        i = i + 1;
    }
    r
}

/// Whether every flag is set.
fn all_flags(v: &Vec<bool>) -> (r: bool)
    ensures
        r == all_set(v@),
{
    let mut i: usize = 0;
    while i < v.len()
        invariant
            i <= v@.len(),
            forall|j: int| 0 <= j < i ==> #[trigger] v@[j],
        decreases v@.len() - i,
    {
        if !v[i] {
            return false;
        }
        i = i + 1;
    }
    true
}

impl Combat {
    /// Opens a battle against a formation: round 1, the scouts' half, and
    /// every turn flag set, so that nobody acts before the battle starts.
    pub fn new(formation: Vec<Threats>, scouts: &Vec<Scout>) -> (r: Combat)
        requires
            scouts@.len() == 6,
        ensures
            r.wf(),
            r.rounds == 1,
            r.scout_formation@ == scouts@,
            r.enemy_stats@ == fighters_of(formation@),
            r.enemy_formation@ == formation@,
            all_set(r.scout_turns@),
            all_set(r.enemy_turns@),
            r.scout_half,
            !r.laser_fired,
            r.combat_text@ == "Enemy ships sighted!  Prepare to engage!"@,
    {
        let mut formation_scouts: Vec<Scout> = Vec::new();
        let mut i: usize = 0;
        while i < scouts.len()
            invariant
                i <= scouts@.len(),
                formation_scouts@ == scouts@.subrange(0, i as int),
            decreases scouts@.len() - i,
        {
            formation_scouts.push(scouts[i].clone());
            i = i + 1;
            assert(formation_scouts@ =~= scouts@.subrange(0, i as int));
        }
        assert(formation_scouts@ =~= scouts@);
        let enemy_stats = threats_to_fighters(formation.as_slice());
        let scout_turns = flags(formation_scouts.len(), true);
        let enemy_turns = flags(enemy_stats.len(), true);
        Combat {
            rounds: 1,
            scout_formation: formation_scouts,
            enemy_formation: formation,
            enemy_stats,
            scout_turns,
            enemy_turns,
            scout_half: true,
            laser_fired: false,
            combat_text: String::from_str("Enemy ships sighted!  Prepare to engage!"),
        }
    }

    /// Whether every enemy is defeated or out of fuel.
    pub fn is_resolved(&self) -> (r: bool)
        ensures
            r == resolved(*self),
    {
        let mut i: usize = 0;
        while i < self.enemy_stats.len()
            invariant
                i <= self.enemy_stats@.len(),
                forall|j: int|
                    0 <= j < i ==> (#[trigger] self.enemy_stats@[j]).hp == 0
                        || self.enemy_stats@[j].fuel == 0,
            decreases self.enemy_stats@.len() - i,
        {
            let f = self.enemy_stats[i];
            if f.hp > 0 && f.fuel > 0 {
                return false;
            }
            i = i + 1;
        }
        true
    }

    /// Marks every disabled scout as having acted.
    fn mark_disabled(&mut self)
        requires
            old(self).wf(),
        ensures
            final(self).wf(),
            *final(self) == (Combat { scout_turns: final(self).scout_turns, ..*old(self) }),
            final(self).scout_turns@.len() == old(self).scout_turns@.len(),
            forall|j: int|
                0 <= j < old(self).scout_turns@.len() ==> #[trigger] final(self).scout_turns@[j]
                    == (disabled(old(self).scout_formation@[j]) || old(self).scout_turns@[j]),
    {
        let ghost c0 = *self;
        let mut i: usize = 0;
        while i < self.scout_formation.len()
            invariant
                c0.wf(),
                i <= self.scout_formation@.len(),
                *self == (Combat { scout_turns: self.scout_turns, ..c0 }),
                self.scout_turns@.len() == c0.scout_turns@.len(),
                forall|j: int|
                    0 <= j < self.scout_turns@.len() ==> #[trigger] self.scout_turns@[j] == (
                    (j < i && disabled(c0.scout_formation@[j])) || c0.scout_turns@[j]),
            decreases self.scout_formation@.len() - i,
        {
            let damage = self.scout_formation[i].ship.damage;
            let status = self.scout_formation[i].pilot.status;
            if damage == ShipDamage::Inoperable || damage == ShipDamage::Destroyed || status
                == PilotStatus::Kia {
                self.scout_turns.set(i, true);
            }
            i = i + 1;
        }
    }

    /// One update pass: flips to the other half once the half under way is
    /// over, then marks the disabled scouts as having acted.
    pub fn update(&mut self)
        requires
            old(self).wf(),
        ensures
            final(self).wf(),
            update_result(*old(self), *final(self)),
    {
        let flip = if self.scout_half {
            all_flags(&self.scout_turns) && (self.laser_fired || self.rounds == 1)
        } else {
            all_flags(&self.enemy_turns)
        };
        if flip {
            self.scout_turns = flags(self.scout_formation.len(), false);
            if self.scout_half {
                self.scout_half = false;
            } else {
                self.scout_half = true;
                self.enemy_turns = flags(self.enemy_stats.len(), false);
                self.laser_fired = false;
                self.rounds = self.rounds.saturating_add(1);
                burn_fuel(&mut self.enemy_stats);
            }
        }
        self.mark_disabled();
    }
}

/// Burns one fuel of each surviving enemy that has any.
fn burn_fuel(stats: &mut Vec<Fighter>)
    ensures
        final(stats)@.len() == old(stats)@.len(),
        forall|j: int|
            0 <= j < old(stats)@.len() ==> #[trigger] final(stats)@[j] == refuelled_round(
                old(stats)@[j],
            ),
{
    let ghost s0 = stats@;
    let mut i: usize = 0;
    while i < stats.len()
        invariant
            i <= stats@.len(),
            stats@.len() == s0.len(),
            forall|j: int|
                0 <= j < stats@.len() ==> #[trigger] stats@[j] == if j < i {
                    refuelled_round(s0[j])
                } else {
                    s0[j]
                },
        decreases stats@.len() - i,
    {
        let mut f = stats[i];
        if f.hp > 0 && f.fuel > 0 {
            f.fuel = f.fuel - 1;
        }
        stats.set(i, f);
        i = i + 1;
    }
}

/// Copies the battle's scouts back into the expedition: each scout into
/// its hangar slot, and each scout's pilot into the crew roster.
pub fn combat_to_app(combat: &Combat, app: &mut Expedition)
    requires
        combat.wf(),
        old(app).wf(),
    ensures
        final(app).wf(),
        *final(app) == (Expedition {
            scouts: final(app).scouts,
            pilots: final(app).pilots,
            ..*old(app)
        }),
        final(app).scouts@ == combat.scout_formation@,
        forall|i: int| 0 <= i < 6 ==> #[trigger] final(app).pilots@[i] == combat.scout_formation@[i].pilot,
{
    let ghost e0 = *app;
    let mut i: usize = 0;
    while i < 6
        invariant
            combat.wf(),
            e0.wf(),
            i <= 6,
            *app == (Expedition { scouts: app.scouts, pilots: app.pilots, ..e0 }),
            app.scouts@.len() == 6,
            app.pilots@.len() == 6,
            forall|j: int| 0 <= j < i ==> #[trigger] app.scouts@[j] == combat.scout_formation@[j],
            forall|j: int| 0 <= j < i ==> #[trigger] app.pilots@[j] == combat.scout_formation@[j].pilot,
        decreases 6 - i,
    {
        app.scouts.set(i, combat.scout_formation[i].clone());
        app.pilots.set(i, combat.scout_formation[i].pilot.clone());
        i = i + 1;
    }
    assert(app.scouts@ =~= combat.scout_formation@);
}

/// Enemy fire never repairs the mother ship: after any volley, hull damage
/// is no lower and no subsystem is higher up its ladder than before.
pub proof fn enemy_fire_never_repairs(e: Expedition, shots: Seq<ShotRolls>)
    ensures
        volley_ship(e, shots).hull_damage >= e.hull_damage,
        forall|k: int|
            1 <= k <= 5 ==> status_level(#[trigger] subsystem_at(volley_ship(e, shots), k).status)
                >= status_level(subsystem_at(e, k).status),
    decreases shots.len(),
{
    if shots.len() > 0 {
        let prev = volley_ship(e, shots.drop_last());
        enemy_fire_never_repairs(e, shots.drop_last());
        assert forall|k: int| 1 <= k <= 5 implies status_level(
            #[trigger] subsystem_at(volley_ship(e, shots), k).status,
        ) >= status_level(subsystem_at(e, k).status) by {
            assert(status_level(subsystem_at(prev, k).status) >= status_level(
                subsystem_at(e, k).status,
            ));
        }
    }
}

/// A half flips exactly once when it is over and never otherwise: from the
/// scouts' half to the enemy half of the same round, or from the enemy half
/// to the scouts' half of the next round with every enemy flag cleared. No
/// update pass moves the round on by more than one.
pub proof fn half_flips_once(c0: Combat, c1: Combat)
    requires
        c0.wf(),
        update_result(c0, c1),
    ensures
        (c1.scout_half != c0.scout_half) == half_done(c0),
        c0.scout_half && half_done(c0) ==> !c1.scout_half && c1.rounds == c0.rounds,
        !c0.scout_half && half_done(c0) && c0.rounds < u64::MAX ==> c1.rounds == c0.rounds + 1,
        !c0.scout_half && half_done(c0) ==> c1.scout_half && c1.rounds == sat_inc(c0.rounds)
            && !c1.laser_fired && forall|i: int|
            0 <= i < c1.enemy_turns@.len() ==> !#[trigger] c1.enemy_turns@[i],
        !half_done(c0) ==> c1.scout_half == c0.scout_half && c1.rounds == c0.rounds,
        c1.rounds <= c0.rounds + 1,
{
}

/// Enemy fire touches only the hull and the subsystems of the mother ship.
pub proof fn volley_ship_frame(e: Expedition, shots: Seq<ShotRolls>)
    ensures
        ({
            let v = volley_ship(e, shots);
            v == Expedition {
                hull_damage: v.hull_damage,
                engine: v.engine,
                mining_laser: v.mining_laser,
                scout_bay: v.scout_bay,
                sick_bay: v.sick_bay,
                sensors: v.sensors,
                ..e
            }
        }),
    decreases shots.len(),
{
    if shots.len() > 0 {
        volley_ship_frame(e, shots.drop_last());
    }
}

/// A hit on a scout never improves it: its pilot's health and its craft's
/// damage only move down their ladders, and its flight position, names,
/// kills and rank are untouched.
pub proof fn scout_hit_never_repairs(s: Scout, die: int)
    ensures
        ({
            let h = scout_hit(s, die);
            &&& health_level(h.pilot.status) >= health_level(s.pilot.status)
            &&& damage_level(h.ship.damage) >= damage_level(s.ship.damage)
            &&& h.position == s.position
            &&& h.ship.name == s.ship.name
            &&& h.pilot.name == s.pilot.name
            &&& h.pilot.kills == s.pilot.kills
            &&& h.pilot.rank == s.pilot.rank
        }),
{
}

/// How far down its ladder a pilot's health is: 0 healthy, 2 killed.
pub open spec fn health_level(p: PilotStatus) -> nat {
    match p {
        PilotStatus::Normal => 0,
        PilotStatus::Injured => 1,
        PilotStatus::Kia => 2,
    }
}

/// How far down its ladder a craft's damage is: 0 intact, 3 destroyed.
pub open spec fn damage_level(d: ShipDamage) -> nat {
    match d {
        ShipDamage::Normal => 0,
        ShipDamage::Half => 1,
        ShipDamage::Inoperable => 2,
        ShipDamage::Destroyed => 3,
    }
}

} // verus!
