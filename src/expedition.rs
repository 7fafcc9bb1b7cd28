//! The expedition: the long-lived state of one game, and the commands that
//! the player issues against it.

use vstd::prelude::*;
use vstd::string::*;
use crate::combat::{
    acting, all_set, attack_damage, disabled, half_done, half_flips_once, combat_to_app, enemy_damage, enemy_turn_result, enemy_turn_with_rolls,
    enemy_turn, laser_damage, mining_laser_with_roll, resolved, scout_attack_with_roll,
    update_result, valid_shot, volley_ship_frame, Combat, ShotRolls,
};
use crate::dice::roll_die;
use crate::scout::scout_repair_cost;
use crate::leap::{
    leap_into_system, salvage_bonus, salvage_bonus_of, scan_label, scan_modifier, scan_roll,
    scan_table, threat_modifier, threat_outcome, threat_table, JumpStep, Leap,
};
use crate::pilot::{healed, sat_add, sat_inc, update_pilot_info, Pilot, PilotStatus, Rank};
use crate::scout::scout_repair;
use crate::ship::{repaired, repair_text, subsystem_repair, Scout, Ship, ShipDamage, SubSystem};
use crate::text::{decimal, decimal_text};
use crate::threat::{fighters_of, threat_label, Fighter, Threats};

verus! {

/// The state of one expedition: resources, the mother ship's condition,
/// the six scouts and their pilots, the log, and the battle under way.
#[derive(Debug)]
pub struct Expedition {
    pub name: String,
    pub leaps_since_incident: u64,
    pub fuel: u64,
    pub parts: u64,
    pub hull_damage: u64,
    pub hull_upgrade: bool,
    pub hull_destroyed: bool,
    pub engine: SubSystem,
    pub mining_laser: SubSystem,
    pub scout_bay: SubSystem,
    pub sick_bay: SubSystem,
    pub sensors: SubSystem,
    pub scouts: Vec<Scout>,
    pub log: Vec<Leap>,
    pub pilots: Vec<Pilot>,
    pub in_combat: bool,
    pub combat: Option<Combat>,
    /// The formation met at the last threat assessment, searched for parts
    /// once the battle is over.
    pub wreckage: Vec<Threats>,
    pub game_text: String,
    pub jump_step: JumpStep,
    pub game_over: bool,
}

/// A fresh scout in the given flight position.
pub open spec fn fresh_scout(s: Scout, position: int) -> bool {
    &&& s.position == position
    &&& s.ship.name@ == "Ship Name"@
    &&& s.ship.damage == ShipDamage::Normal
    &&& fresh_pilot(s.pilot)
}

/// A fresh pilot.
pub open spec fn fresh_pilot(p: Pilot) -> bool {
    &&& p.name@ == "Pilot"@
    &&& p.kills == 0
    &&& p.rank == Rank::Rookie
    &&& p.status == PilotStatus::Normal
    &&& p.injury_timer == 0
}

impl Expedition {
    /// Six scouts and six pilots; a battle under way is well formed.
    pub open spec fn wf(&self) -> bool {
        &&& self.scouts@.len() == 6
        &&& self.pilots@.len() == 6
        &&& self.combat matches Some(c) ==> c.wf()
    }

    /// A new expedition: 6 fuel, 6 parts, an intact ship, six fresh scouts
    /// and pilots, at the start of the leap cycle.
    pub fn new() -> (r: Expedition)
        ensures
            r.wf(),
            r.name@ == "Lost Ship"@,
            r.leaps_since_incident == 0,
            r.fuel == 6,
            r.parts == 6,
            r.hull_damage == 0,
            !r.hull_upgrade,
            !r.hull_destroyed,
            r.engine == SubSystem::default_spec(),
            r.mining_laser == SubSystem::default_spec(),
            r.scout_bay == SubSystem::default_spec(),
            r.sick_bay == SubSystem::default_spec(),
            r.sensors == SubSystem::default_spec(),
            forall|i: int| 0 <= i < 6 ==> fresh_scout(#[trigger] r.scouts@[i], i),
            forall|i: int| 0 <= i < 6 ==> fresh_pilot(#[trigger] r.pilots@[i]),
            r.log@.len() == 1,
            r.log@[0].number == 1,
            r.log@[0].combat_rounds == 0,
            r.log@[0].parts_found == 0,
            r.log@[0].fuel_found == 0,
            !r.in_combat,
            r.combat is None,
            r.wreckage@.len() == 0,
            r.game_text@.len() == 0,
            r.jump_step == JumpStep::Step1,
            !r.game_over,
    {
        let mut scouts: Vec<Scout> = Vec::new();
        let mut pilots: Vec<Pilot> = Vec::new();
        let mut i: u64 = 0;
        while i < 6
            invariant
                i <= 6,
                scouts@.len() == i,
                pilots@.len() == i,
                forall|j: int| 0 <= j < i ==> fresh_scout(#[trigger] scouts@[j], j),
                forall|j: int| 0 <= j < i ==> fresh_pilot(#[trigger] pilots@[j]),
            decreases 6 - i,
        {
            let mut scout = Scout::default();
            scout.position = i;
            scouts.push(scout);
            pilots.push(Pilot::default());
            i = i + 1;
        }
        Expedition {
            name: String::from_str("Lost Ship"),
            leaps_since_incident: 0,
            fuel: 6,
            parts: 6,
            hull_damage: 0,
            hull_upgrade: false,
            hull_destroyed: false,
            engine: SubSystem::default(),
            mining_laser: SubSystem::default(),
            scout_bay: SubSystem::default(),
            sick_bay: SubSystem::default(),
            sensors: SubSystem::default(),
            scouts,
            log: vec![Leap::default()],
            pilots,
            in_combat: false,
            combat: None,
            wreckage: Vec::new(),
            game_text: String::new(),
            jump_step: JumpStep::Step1,
            game_over: false,
        }
    }
}

/// The subsystem with the given index: 1 engines, 2 mining laser, 3 scout
/// bay, 4 sick bay, 5 sensors.
pub open spec fn subsystem_at(e: Expedition, k: int) -> SubSystem {
    if k == 1 {
        e.engine
    } else if k == 2 {
        e.mining_laser
    } else if k == 3 {
        e.scout_bay
    } else if k == 4 {
        e.sick_bay
    } else {
        e.sensors
    }
}

/// The expedition with the subsystem of the given index replaced.
pub open spec fn with_subsystem(e: Expedition, k: int, s: SubSystem) -> Expedition {
    if k == 1 {
        Expedition { engine: s, ..e }
    } else if k == 2 {
        Expedition { mining_laser: s, ..e }
    } else if k == 3 {
        Expedition { scout_bay: s, ..e }
    } else if k == 4 {
        Expedition { sick_bay: s, ..e }
    } else {
        Expedition { sensors: s, ..e }
    }
}

impl Expedition {
    /// The subsystem with the given index, 1 to 5.
    pub fn subsystem(&self, k: usize) -> (r: SubSystem)
        requires
            1 <= k <= 5,
        ensures
            r == subsystem_at(*self, k as int),
    {
        if k == 1 {
            self.engine
        } else if k == 2 {
            self.mining_laser
        } else if k == 3 {
            self.scout_bay
        } else if k == 4 {
            self.sick_bay
        } else {
            self.sensors
        }
    }

    /// Replaces the subsystem with the given index, 1 to 5.
    pub fn set_subsystem(&mut self, k: usize, s: SubSystem)
        requires
            1 <= k <= 5,
        ensures
            *final(self) == with_subsystem(*old(self), k as int, s),
    {
        if k == 1 {
            self.engine = s;
        } else if k == 2 {
            self.mining_laser = s;
        } else if k == 3 {
            self.scout_bay = s;
        } else if k == 4 {
            self.sick_bay = s;
        } else {
            self.sensors = s;
        }
    }
}

/// Whether `c` is the battle that a formation opens against the given
/// scouts: round 1, the scouts' half, every turn flag set.
pub open spec fn opened_against(c: Combat, formation: Seq<Threats>, scouts: Seq<Scout>) -> bool {
    &&& c.wf()
    &&& c.rounds == 1
    &&& c.scout_formation@ == scouts
    &&& c.enemy_formation@ == formation
    &&& c.enemy_stats@ == fighters_of(formation)
    &&& all_set(c.scout_turns@)
    &&& all_set(c.enemy_turns@)
    &&& c.scout_half
    &&& !c.laser_fired
    &&& c.combat_text@ == "Enemy ships sighted!  Prepare to engage!"@
}

/// The formation of the last battle, or none.
pub open spec fn last_formation(e: Expedition) -> Seq<Threats> {
    e.wreckage@
}

/// Step 1, leap: one more leap since the last incident and one fuel burnt,
/// on to step 2. Without fuel the leap is refused: the game is over and the
/// cycle stays at step 1.
pub open spec fn leap_step(e0: Expedition, e1: Expedition) -> bool {
    &&& e1 == Expedition {
        leaps_since_incident: sat_inc(e0.leaps_since_incident),
        fuel: if e0.fuel > 0 { (e0.fuel - 1) as u64 } else { 0 },
        game_over: e0.fuel == 0,
        jump_step: if e0.fuel > 0 { JumpStep::Step2 } else { JumpStep::Step1 },
        game_text: e1.game_text,
        ..e0
    }
    &&& e1.game_text@ == e0.game_text@ + "Jumping into a new system ..."@ + if e0.fuel > 0 {
        Seq::empty()
    } else {
        "Out of fuel!  Game Over"@
    }
}

/// Step 2, assess the threat: two dice and the leap modifier on the threat
/// table; a formation opens a battle, none leaves the sector clear. On to
/// step 3.
pub open spec fn assess_step(e0: Expedition, d1: int, d2: int, e1: Expedition) -> bool {
    let f = threat_outcome(e0.leaps_since_incident as int, d1, d2);
    &&& e1 == Expedition {
        in_combat: f is Some,
        combat: e1.combat,
        wreckage: e1.wreckage,
        jump_step: JumpStep::Step3,
        game_text: e1.game_text,
        ..e0
    }
    &&& e1.wreckage@ == match f {
        Some(formation) => formation,
        None => Seq::empty(),
    }
    &&& f is None ==> e1.combat is None && e1.game_text@ == "Assessing threats ..."@
        + "Sector clear.  Whew!"@
    &&& f is Some ==> e1.combat is Some && opened_against(e1.combat->0, f->0, e0.scouts@)
        && e1.game_text@ == "Assessing threats ..."@ + "Enemy ships are preparing to engage!"@
}

/// Step 3, fight: the cycle waits here while a battle is under way.
pub open spec fn fight_step(e0: Expedition, e1: Expedition) -> bool {
    if e0.in_combat {
        e1 == Expedition { game_text: e1.game_text, ..e0 } && e1.game_text@
            == "The battle is not over yet."@
    } else {
        e1 == Expedition { jump_step: JumpStep::Step4, ..e0 }
    }
}

/// Parts found in step 4 for a die: the die plus the last formation's
/// salvage bonus.
pub open spec fn parts_found(e: Expedition, d1: int) -> int {
    d1 + salvage_bonus_of(last_formation(e))
}

/// Step 4, salvage: a die plus the salvage bonus in parts. On to step 5.
pub open spec fn salvage_step(e0: Expedition, d1: int, e1: Expedition) -> bool {
    let found = parts_found(e0, d1);
    &&& e1 == Expedition {
        parts: sat_add(e0.parts, found as nat),
        jump_step: JumpStep::Step5,
        game_text: e1.game_text,
        ..e0
    }
    &&& e1.game_text@ == "You search through the wreckage and recover "@ + decimal_text(
        found as nat,
    ) + " parts."@
}

/// Step 5, scan: two dice and the scan modifier on the scan table; the fuel
/// found is taken on board. On to step 6.
pub open spec fn scan_step(e0: Expedition, d1: int, d2: int, e1: Expedition) -> bool {
    let (fuel, found) = scan_roll(e0.leaps_since_incident as int, d1, d2);
    &&& e1 == Expedition {
        fuel: sat_add(e0.fuel, fuel as nat),
        jump_step: JumpStep::Step6,
        game_text: e1.game_text,
        ..e0
    }
    &&& e1.game_text@ == "Scanning system... "@ + scan_label(found) + " - gathered "@
        + decimal_text(fuel as nat) + " fuel.  Make repairs and upkeep."@
}

/// Step 6, repairs and upkeep: once the player's repairs are done, every
/// pilot gets one tick of the sick bay, and the scouts take their pilots
/// from the roster. On to step 7.
pub open spec fn upkeep_step(e0: Expedition, e1: Expedition) -> bool {
    &&& e1 == Expedition {
        pilots: e1.pilots,
        scouts: e1.scouts,
        jump_step: JumpStep::Step7,
        ..e0
    }
    &&& e1.pilots@.len() == 6
    &&& e1.scouts@.len() == 6
    &&& forall|i: int|
        0 <= i < 6 ==> #[trigger] e1.pilots@[i] == healed(e0.pilots@[i], e0.sick_bay)
    &&& forall|i: int|
        0 <= i < 6 ==> #[trigger] e1.scouts@[i] == (Scout { pilot: e1.pilots@[i], ..e0.scouts@[i] })
}

/// One advance of the leap cycle with the given dice. Nothing moves once
/// the game is over.
pub open spec fn advance_result(e0: Expedition, d1: int, d2: int, e1: Expedition) -> bool {
    if e0.game_over {
        e1 == e0
    } else {
        match e0.jump_step {
            JumpStep::Step1 => leap_step(e0, e1),
            JumpStep::Step2 => assess_step(e0, d1, d2, e1),
            JumpStep::Step3 => fight_step(e0, e1),
            JumpStep::Step4 => salvage_step(e0, d1, e1),
            JumpStep::Step5 => scan_step(e0, d1, d2, e1),
            JumpStep::Step6 => upkeep_step(e0, e1),
            JumpStep::Step7 => e1 == Expedition { jump_step: JumpStep::Step1, ..e0 },
        }
    }
}

/// The step that follows in the leap cycle; step 7 leads back to step 1.
pub open spec fn next_step(s: JumpStep) -> JumpStep {
    match s {
        JumpStep::Step1 => JumpStep::Step2,
        JumpStep::Step2 => JumpStep::Step3,
        JumpStep::Step3 => JumpStep::Step4,
        JumpStep::Step4 => JumpStep::Step5,
        JumpStep::Step5 => JumpStep::Step6,
        JumpStep::Step6 => JumpStep::Step7,
        JumpStep::Step7 => JumpStep::Step1,
    }
}

/// The leap cycle moves one step at a time and never skips one: an advance
/// either stays on its step (a refused leap, a battle under way, the game
/// over) or moves to the next.
pub proof fn cycle_never_skips(e0: Expedition, d1: int, d2: int, e1: Expedition)
    requires
        advance_result(e0, d1, d2, e1),
    ensures
        e1.jump_step == e0.jump_step || e1.jump_step == next_step(e0.jump_step),
        e1.jump_step == e0.jump_step ==> e0.game_over || e0.jump_step == JumpStep::Step1
            || (e0.jump_step == JumpStep::Step3 && e0.in_combat),
{
}

impl Expedition {
    fn step_leap(&mut self)
        requires
            old(self).wf(),
            !old(self).game_over,
            old(self).jump_step == JumpStep::Step1,
        ensures
            final(self).wf(),
            leap_step(*old(self), *final(self)),
    {
        self.game_text.append("Jumping into a new system ...");
        let ghost with_jump = self.game_text@;
        leap_into_system(self);
        proof {
            if old(self).fuel > 0 {
                assert(self.game_text@ =~= with_jump + Seq::<char>::empty());
            }
        }
        if !self.game_over {
            self.jump_step = JumpStep::Step2;
        }
    }

    fn step_assess(&mut self, d1: u8, d2: u8)
        requires
            old(self).wf(),
        ensures
            final(self).wf(),
            assess_step(*old(self), d1 as int, d2 as int, *final(self)),
    {
        let formation = threat_table(
            d1 as i128 + d2 as i128 + threat_modifier(self.leaps_since_incident),
        );
        match formation {
            Some(f) => self.open_battle(f),
            None => self.clear_sector(),
        }
    }

    fn open_battle(&mut self, f: Vec<Threats>)
        requires
            old(self).wf(),
        ensures
            final(self).wf(),
            *final(self) == (Expedition {
                in_combat: true,
                combat: final(self).combat,
                wreckage: final(self).wreckage,
                jump_step: JumpStep::Step3,
                game_text: final(self).game_text,
                ..*old(self)
            }),
            final(self).wreckage@ == f@,
            final(self).combat is Some,
            opened_against(final(self).combat->0, f@, old(self).scouts@),
            final(self).game_text@ == "Assessing threats ..."@
                + "Enemy ships are preparing to engage!"@,
    {
        let mut text = String::from_str("Assessing threats ...");
        text.append("Enemy ships are preparing to engage!");
        let wreckage = f.clone();
        assert(wreckage@ =~= f@);
        let combat = Combat::new(f, &self.scouts);
        self.wreckage = wreckage;
        self.in_combat = true;
        self.combat = Some(combat);
        self.game_text = text;
        self.jump_step = JumpStep::Step3;
    }

    fn clear_sector(&mut self)
        requires
            old(self).wf(),
        ensures
            final(self).wf(),
            *final(self) == (Expedition {
                in_combat: false,
                combat: None,
                wreckage: final(self).wreckage,
                jump_step: JumpStep::Step3,
                game_text: final(self).game_text,
                ..*old(self)
            }),
            final(self).wreckage@ == Seq::<Threats>::empty(),
            final(self).game_text@ == "Assessing threats ..."@ + "Sector clear.  Whew!"@,
    {
        let mut text = String::from_str("Assessing threats ...");
        text.append("Sector clear.  Whew!");
        self.wreckage = Vec::new();
        self.in_combat = false;
        self.combat = None;
        self.game_text = text;
        self.jump_step = JumpStep::Step3;
    }

    fn step_salvage(&mut self, d1: u8)
        requires
            old(self).wf(),
        ensures
            final(self).wf(),
            salvage_step(*old(self), d1 as int, *final(self)),
    {
        let bonus = salvage_bonus(self.wreckage.as_slice());
        let found = d1 as u64 + bonus;
        self.parts = self.parts.saturating_add(found);
        self.game_text = String::from_str("You search through the wreckage and recover ").concat(
            decimal(found).as_str(),
        ).concat(" parts.");
        self.jump_step = JumpStep::Step5;
    }

    fn step_scan(&mut self, d1: u8, d2: u8)
        requires
            old(self).wf(),
        ensures
            final(self).wf(),
            scan_step(*old(self), d1 as int, d2 as int, *final(self)),
    {
        let (fuel, found) = scan_table(
            d1 as i64 + d2 as i64 + scan_modifier(self.leaps_since_incident),
        );
        self.fuel = self.fuel.saturating_add(fuel);
        self.game_text = String::from_str("Scanning system... ").concat(found.label()).concat(
            " - gathered ",
        ).concat(decimal(fuel).as_str()).concat(" fuel.  Make repairs and upkeep.");
        self.jump_step = JumpStep::Step6;
    }

    fn step_upkeep(&mut self)
        requires
            old(self).wf(),
        ensures
            final(self).wf(),
            upkeep_step(*old(self), *final(self)),
    {
        let ghost e0 = *self;
        let sick_bay = self.sick_bay;
        let mut i: usize = 0;
        while i < 6
            invariant
                e0.wf(),
                i <= 6,
                sick_bay == e0.sick_bay,
                *self == (Expedition { pilots: self.pilots, ..e0 }),
                self.pilots@.len() == 6,
                forall|j: int|
                    0 <= j < 6 ==> #[trigger] self.pilots@[j] == if j < i {
                        healed(e0.pilots@[j], sick_bay)
                    } else {
                        e0.pilots@[j]
                    },
            decreases 6 - i,
        {
            self.pilots[i].heal(&sick_bay);
            i = i + 1;
        }
        update_pilot_info(self);
        self.jump_step = JumpStep::Step7;
    }

    /// One advance of the leap cycle, with the given dice where the step
    /// rolls: step 2 and step 5 roll both, step 4 rolls the first.
    pub fn advance_leap_with_rolls(&mut self, d1: u8, d2: u8)
        requires
            old(self).wf(),
        ensures
            final(self).wf(),
            advance_result(*old(self), d1 as int, d2 as int, *final(self)),
    {
        if self.game_over {
            return ;
        }
        match self.jump_step {
            JumpStep::Step1 => self.step_leap(),
            JumpStep::Step2 => self.step_assess(d1, d2),
            JumpStep::Step3 => {
                if self.in_combat {
                    self.game_text = String::from_str("The battle is not over yet.");
                } else {
                    self.jump_step = JumpStep::Step4;
                }
            },
            JumpStep::Step4 => self.step_salvage(d1),
            JumpStep::Step5 => self.step_scan(d1, d2),
            JumpStep::Step6 => self.step_upkeep(),
            JumpStep::Step7 => self.jump_step = JumpStep::Step1,
        }
    }

    /// One advance of the leap cycle, rolling the dice the step needs.
    pub fn advance_leap(&mut self)
        requires
            old(self).wf(),
        ensures
            final(self).wf(),
            exists|d1: int, d2: int|
                1 <= d1 < 6 && 1 <= d2 < 6 && advance_result(*old(self), d1, d2, *final(self)),
    {
        let d1 = roll_die();
        let d2 = roll_die();
        self.advance_leap_with_rolls(d1, d2);
        assert(advance_result(*old(self), d1 as int, d2 as int, *self));
    }
}

/// Hit points left after damage, never below zero.
pub open spec fn hp_after(hp: u64, damage: nat) -> u64 {
    if hp >= damage {
        (hp - damage) as u64
    } else {
        0
    }
}

/// Whether the scouts may act: a battle is under way in the scouts' half.
pub open spec fn scouts_to_act(e: Expedition) -> bool {
    e.in_combat && e.combat is Some && e.combat->0.scout_half
}

/// Whether enemy `t` can still be targeted: it has hit points and fuel.
pub open spec fn valid_target(c: Combat, t: int) -> bool {
    0 <= t < c.enemy_stats@.len() && c.enemy_stats@[t].hp > 0 && c.enemy_stats@[t].fuel > 0
}

/// Whether scout `s` can attack enemy `t`: its craft flies, its pilot
/// lives, it has not acted this half, and the target is valid.
pub open spec fn can_attack(c: Combat, s: int, t: int) -> bool {
    &&& 0 <= s < c.scout_formation@.len()
    &&& (c.scout_formation@[s].ship.damage == ShipDamage::Normal
        || c.scout_formation@[s].ship.damage == ShipDamage::Half)
    &&& c.scout_formation@[s].pilot.status != PilotStatus::Kia
    &&& !c.scout_turns@[s]
    &&& valid_target(c, t)
}

/// A scout's attack with a given die. While the scouts may act, a valid
/// attack takes its damage off the target's hit points, marks the scout as
/// having acted and narrates the shot; an invalid one only says so.
/// Otherwise nothing happens.
pub open spec fn attack_result(e0: Expedition, s: int, t: int, die: int, e1: Expedition) -> bool {
    if !scouts_to_act(e0) {
        e1 == e0
    } else {
        let c0 = e0.combat->0;
        &&& e1 == Expedition { combat: e1.combat, ..e0 }
        &&& e1.combat is Some
        &&& {
            let c1 = e1.combat->0;
            if can_attack(c0, s, t) {
                let scout = c0.scout_formation@[s];
                let target = c0.enemy_stats@[t];
                let damage = attack_damage(scout, die);
                &&& c1 == Combat {
                    enemy_stats: c1.enemy_stats,
                    scout_turns: c1.scout_turns,
                    combat_text: c1.combat_text,
                    ..c0
                }
                &&& c1.enemy_stats@ == c0.enemy_stats@.update(
                    t,
                    Fighter { hp: hp_after(target.hp, damage), ..target },
                )
                &&& c1.scout_turns@ == c0.scout_turns@.update(s, true)
                &&& c1.combat_text@ == scout.pilot.name@ + " deals "@ + decimal_text(damage)
                    + " damage to "@ + threat_label(target.model)
            } else {
                &&& c1 == Combat { combat_text: c1.combat_text, ..c0 }
                &&& c1.combat_text@ == "Make sure a valid scout and target are selected."@
            }
        }
    }
}

/// A mining laser shot with a given die. While the scouts may act and the
/// laser has not fired this round, a shot from round 2 on at a valid target
/// takes its damage off the target's hit points and uses the laser up for
/// the round; otherwise it only says when the laser can fire. When the
/// scouts may not act, or the laser has fired, nothing happens.
pub open spec fn laser_result(e0: Expedition, t: int, die: int, e1: Expedition) -> bool {
    if !scouts_to_act(e0) || e0.combat->0.laser_fired {
        e1 == e0
    } else {
        let c0 = e0.combat->0;
        &&& e1 == Expedition { combat: e1.combat, ..e0 }
        &&& e1.combat is Some
        &&& {
            let c1 = e1.combat->0;
            if valid_target(c0, t) && c0.rounds > 1 {
                let target = c0.enemy_stats@[t];
                let damage = laser_damage(e0.mining_laser.upgrade, die);
                &&& c1 == Combat {
                    enemy_stats: c1.enemy_stats,
                    laser_fired: true,
                    combat_text: c1.combat_text,
                    ..c0
                }
                &&& c1.enemy_stats@ == c0.enemy_stats@.update(
                    t,
                    Fighter { hp: hp_after(target.hp, damage), ..target },
                )
                &&& c1.combat_text@ == "Mining laser deals "@ + decimal_text(damage)
                    + " damage to "@ + threat_label(target.model)
            } else {
                &&& c1 == Combat { combat_text: c1.combat_text, ..c0 }
                &&& c1.combat_text@
                    == "Mining laser available starting in round 2.  Make sure a valid target is selected."@
            }
        }
    }
}

/// Whether the enemies may act: a battle is under way in the enemy half.
pub open spec fn enemies_to_act(e: Expedition) -> bool {
    e.in_combat && e.combat is Some && !e.combat->0.scout_half
}

/// How many shots an enemy advance fires: every gun of the enemy that
/// acts, or none when the enemies may not act or none can.
pub open spec fn volley_size(e: Expedition) -> int {
    if enemies_to_act(e) && acting(e.combat->0) < e.combat->0.enemy_stats@.len() {
        e.combat->0.enemy_stats@[acting(e.combat->0)].guns as int
    } else {
        0
    }
}

/// One enemy advance with the given dice, while the enemies may act;
/// otherwise nothing happens.
pub open spec fn enemy_advance_result(e0: Expedition, shots: Seq<ShotRolls>, e1: Expedition) -> bool {
    if !enemies_to_act(e0) {
        e1 == e0
    } else {
        &&& e1.combat is Some
        &&& enemy_turn_result(
            e0.combat->0,
            Expedition { combat: None, ..e0 },
            shots,
            e1.combat->0,
            Expedition { combat: None, ..e1 },
        )
    }
}

/// One update pass while a battle is under way. A resolved battle ends: its
/// scouts and pilots are copied back, the battle is discarded and the cycle
/// moves on to step 4. A battle still on gets its update pass, and its
/// scouts and pilots are copied back.
pub open spec fn sync_result(e0: Expedition, e1: Expedition) -> bool {
    if !e0.in_combat || e0.combat is None {
        e1 == e0
    } else {
        let c0 = e0.combat->0;
        &&& e1.scouts@ == c0.scout_formation@
        &&& e1.pilots@.len() == 6
        &&& forall|i: int| 0 <= i < 6 ==> #[trigger] e1.pilots@[i] == c0.scout_formation@[i].pilot
        &&& if resolved(c0) {
            e1 == Expedition {
                scouts: e1.scouts,
                pilots: e1.pilots,
                in_combat: false,
                combat: None,
                jump_step: JumpStep::Step4,
                ..e0
            }
        } else {
            &&& e1.combat is Some
            &&& e1 == Expedition { scouts: e1.scouts, pilots: e1.pilots, combat: e1.combat, ..e0 }
            &&& update_result(c0, e1.combat->0)
        }
    }
}

/// The update pass of a battle still on flips its half exactly once when
/// the half is over, and never otherwise: from the scouts to the enemies in
/// the same round, or from the enemies to the scouts of the next round with
/// every turn flag cleared but those of disabled scouts, the laser ready
/// again, and one fuel burnt by each surviving enemy that has any. Below the
/// largest counter the round goes up by exactly one.
pub proof fn sync_flips_once(e0: Expedition, e1: Expedition)
    requires
        e0.wf(),
        e0.in_combat,
        e0.combat is Some,
        !resolved(e0.combat->0),
        sync_result(e0, e1),
    ensures
        e1.combat is Some,
        ({
            let c0 = e0.combat->0;
            let c1 = e1.combat->0;
            &&& (c1.scout_half != c0.scout_half) == half_done(c0)
            &&& !half_done(c0) ==> c1.scout_half == c0.scout_half && c1.rounds == c0.rounds
            &&& c0.scout_half && half_done(c0) ==> !c1.scout_half && c1.rounds == c0.rounds
            &&& !c0.scout_half && half_done(c0) ==> {
                &&& c1.scout_half
                &&& c0.rounds < u64::MAX ==> c1.rounds == c0.rounds + 1
                &&& !c1.laser_fired
                &&& forall|j: int| 0 <= j < c1.enemy_turns@.len() ==> !#[trigger] c1.enemy_turns@[j]
                &&& forall|i: int|
                    0 <= i < c1.scout_turns@.len() ==> #[trigger] c1.scout_turns@[i] == disabled(
                        c0.scout_formation@[i],
                    )
                &&& c1.enemy_stats@.len() == c0.enemy_stats@.len()
                &&& forall|j: int|
                    0 <= j < c0.enemy_stats@.len() ==> {
                        let f0 = c0.enemy_stats@[j];
                        let f1 = #[trigger] c1.enemy_stats@[j];
                        &&& f1.hp == f0.hp
                        &&& f1.fuel == if f0.hp > 0 && f0.fuel > 0 {
                            (f0.fuel - 1) as u64
                        } else {
                            f0.fuel
                        }
                    }
            }
        }),
{
    let c0 = e0.combat->0;
    let c1 = e1.combat->0;
    half_flips_once(c0, c1);
}

impl Expedition {
    /// A scout's attack on an enemy with a given die.
    pub fn attack_with_roll(&mut self, scout_index: usize, enemy_index: usize, die: u8)
        requires
            old(self).wf(),
        ensures
            final(self).wf(),
            attack_result(*old(self), scout_index as int, enemy_index as int, die as int, *final(self)),
    {
        if !self.in_combat {
            return ;
        }
        match self.combat.take() {
            None => {},
            Some(mut c) => {
                if c.scout_half {
                    attack_in(&mut c, scout_index, enemy_index, die);
                }
                self.combat = Some(c);
            },
        }
    }

    /// A scout's attack on an enemy, rolling the die.
    pub fn attack(&mut self, scout_index: usize, enemy_index: usize)
        requires
            old(self).wf(),
        ensures
            final(self).wf(),
            exists|d: int|
                1 <= d < 6 && attack_result(
                    *old(self),
                    scout_index as int,
                    enemy_index as int,
                    d,
                    *final(self),
                ),
    {
        let d = roll_die();
        self.attack_with_roll(scout_index, enemy_index, d);
        assert(attack_result(*old(self), scout_index as int, enemy_index as int, d as int, *self));
    }

    /// A mining laser shot at an enemy with a given die.
    pub fn fire_laser_with_roll(&mut self, enemy_index: usize, die: u8)
        requires
            old(self).wf(),
        ensures
            final(self).wf(),
            laser_result(*old(self), enemy_index as int, die as int, *final(self)),
    {
        if !self.in_combat {
            return ;
        }
        let upgraded = self.mining_laser.upgrade;
        match self.combat.take() {
            None => {},
            Some(mut c) => {
                if c.scout_half && !c.laser_fired {
                    laser_in(&mut c, enemy_index, upgraded, die);
                }
                self.combat = Some(c);
            },
        }
    }

    /// A mining laser shot at an enemy, rolling the die.
    pub fn fire_laser(&mut self, enemy_index: usize)
        requires
            old(self).wf(),
        ensures
            final(self).wf(),
            exists|d: int|
                1 <= d < 6 && laser_result(*old(self), enemy_index as int, d, *final(self)),
    {
        let d = roll_die();
        self.fire_laser_with_roll(enemy_index, d);
        assert(laser_result(*old(self), enemy_index as int, d as int, *self));
    }
}

/// A scout's attack inside a battle in the scouts' half.
fn attack_in(c: &mut Combat, s: usize, t: usize, die: u8)
    requires
        old(c).wf(),
    ensures
        final(c).wf(),
        can_attack(*old(c), s as int, t as int) ==> {
            let scout = old(c).scout_formation@[s as int];
            let target = old(c).enemy_stats@[t as int];
            let damage = attack_damage(scout, die as int);
            &&& *final(c) == Combat {
                enemy_stats: final(c).enemy_stats,
                scout_turns: final(c).scout_turns,
                combat_text: final(c).combat_text,
                ..*old(c)
            }
            &&& final(c).enemy_stats@ == old(c).enemy_stats@.update(
                t as int,
                Fighter { hp: hp_after(target.hp, damage), ..target },
            )
            &&& final(c).scout_turns@ == old(c).scout_turns@.update(s as int, true)
            &&& final(c).combat_text@ == scout.pilot.name@ + " deals "@ + decimal_text(damage)
                + " damage to "@ + threat_label(target.model)
        },
        !can_attack(*old(c), s as int, t as int) ==> *final(c) == (Combat {
            combat_text: final(c).combat_text,
            ..*old(c)
        }) && final(c).combat_text@ == "Make sure a valid scout and target are selected."@,
{
    let ok = s < c.scout_formation.len() && t < c.enemy_stats.len() && {
        let damage = c.scout_formation[s].ship.damage;
        let status = c.scout_formation[s].pilot.status;
        let f = c.enemy_stats[t];
        (damage == ShipDamage::Normal || damage == ShipDamage::Half) && status != PilotStatus::Kia
            && !c.scout_turns[s] && f.hp > 0 && f.fuel > 0
    };
    if !ok {
        c.combat_text = String::from_str("Make sure a valid scout and target are selected.");
        return ;
    }
    let damage = scout_attack_with_roll(&c.scout_formation[s], die);
    let mut f = c.enemy_stats[t];
    f.hp = enemy_damage(damage, f.hp);
    c.enemy_stats.set(t, f);
    c.scout_turns.set(s, true);
    c.combat_text = c.scout_formation[s].pilot.name.clone().concat(" deals ").concat(
        decimal(damage).as_str(),
    ).concat(" damage to ").concat(f.model.label());
}

/// A mining laser shot inside a battle in the scouts' half, before the
/// laser has fired this round.
fn laser_in(c: &mut Combat, t: usize, upgraded: bool, die: u8)
    requires
        old(c).wf(),
    ensures
        final(c).wf(),
        valid_target(*old(c), t as int) && old(c).rounds > 1 ==> {
            let target = old(c).enemy_stats@[t as int];
            let damage = laser_damage(upgraded, die as int);
            &&& *final(c) == Combat {
                enemy_stats: final(c).enemy_stats,
                laser_fired: true,
                combat_text: final(c).combat_text,
                ..*old(c)
            }
            &&& final(c).enemy_stats@ == old(c).enemy_stats@.update(
                t as int,
                Fighter { hp: hp_after(target.hp, damage), ..target },
            )
            &&& final(c).combat_text@ == "Mining laser deals "@ + decimal_text(damage)
                + " damage to "@ + threat_label(target.model)
        },
        !(valid_target(*old(c), t as int) && old(c).rounds > 1) ==> *final(c) == (Combat {
            combat_text: final(c).combat_text,
            ..*old(c)
        }) && final(c).combat_text@
            == "Mining laser available starting in round 2.  Make sure a valid target is selected."@,
{
    let ok = t < c.enemy_stats.len() && c.enemy_stats[t].hp > 0 && c.enemy_stats[t].fuel > 0
        && c.rounds > 1;
    if !ok {
        c.combat_text = String::from_str(
            "Mining laser available starting in round 2.  Make sure a valid target is selected.",
        );
        return ;
    }
    let damage = mining_laser_with_roll(upgraded, die);
    let mut f = c.enemy_stats[t];
    f.hp = enemy_damage(damage, f.hp);
    c.enemy_stats.set(t, f);
    c.laser_fired = true;
    c.combat_text = String::from_str("Mining laser deals ").concat(decimal(damage).as_str()).concat(
        " damage to ",
    ).concat(f.model.label());
}

impl Expedition {
    /// One enemy advance with the given dice, one `ShotRolls` per gun of the
    /// enemy that acts.
    pub fn enemy_advance_with_rolls(&mut self, shots: &Vec<ShotRolls>)
        requires
            old(self).wf(),
            enemies_to_act(*old(self)) && acting(old(self).combat->0) < old(self).combat->0.enemy_stats@.len() ==> shots@.len() == old(self).combat->0.enemy_stats@[acting(old(self).combat->0)].guns,
        ensures
            final(self).wf(),
            enemy_advance_result(*old(self), shots@, *final(self)),
    {
        if !self.in_combat {
            return ;
        }
        match self.combat.take() {
            None => {},
            Some(mut c) => {
                if !c.scout_half {
                    enemy_turn_with_rolls(&mut c, self, shots);
                    proof {
                        volley_ship_frame(Expedition { combat: None, ..*old(self) }, shots@);
                    }
                }
                self.combat = Some(c);
            },
        }
    }

    /// One enemy advance, rolling the dice of every gun.
    pub fn enemy_advance(&mut self)
        requires
            old(self).wf(),
        ensures
            final(self).wf(),
            exists|shots: Seq<ShotRolls>|
                {
                    &&& forall|k: int|
                        0 <= k < shots.len() ==> valid_shot(
                            old(self).combat->0.rounds,
                            #[trigger] shots[k],
                        )
                    &&& shots.len() == volley_size(*old(self))
                    &&& enemy_advance_result(*old(self), shots, *final(self))
                },
    {
        if !self.in_combat {
            assert(enemy_advance_result(*old(self), Seq::empty(), *self));
            assert(Seq::<ShotRolls>::empty().len() == volley_size(*old(self)));
            return ;
        }
        match self.combat.take() {
            None => {
                assert(enemy_advance_result(*old(self), Seq::empty(), *old(self)));
                assert(Seq::<ShotRolls>::empty().len() == volley_size(*old(self)));
            },
            Some(mut c) => {
                if !c.scout_half {
                    let ghost e_taken = *self;
                    let ghost c0 = c;
                    enemy_turn(&mut c, self);
                    proof {
                        let shots = choose|shots: Seq<ShotRolls>|
                            {
                                &&& forall|k: int|
                                    0 <= k < shots.len() ==> valid_shot(
                                        c0.rounds,
                                        #[trigger] shots[k],
                                    )
                                &&& acting(c0) < c0.enemy_stats@.len() ==> shots.len()
                                    == c0.enemy_stats@[acting(c0)].guns
                                &&& acting(c0) >= c0.enemy_stats@.len() ==> shots.len() == 0
                                &&& enemy_turn_result(c0, e_taken, shots, c, *self)
                            };
                        volley_ship_frame(e_taken, shots);
                        let e1 = Expedition { combat: Some(c), ..*self };
                        assert(Expedition { combat: None, ..e1 } == *self);
                        assert(enemy_advance_result(*old(self), shots, e1));
                        assert(shots.len() == volley_size(*old(self)));
                    }
                } else {
                    assert(enemy_advance_result(*old(self), Seq::empty(), *old(self)));
                    assert(Seq::<ShotRolls>::empty().len() == volley_size(*old(self)));
                }
                self.combat = Some(c);
            },
        }
    }

    /// Closes a resolved battle: copies its scouts back, discards it and
    /// moves the cycle on to step 4.
    fn end_battle(&mut self, c: &Combat)
        requires
            old(self).wf(),
            old(self).combat is None,
            c.wf(),
        ensures
            final(self).wf(),
            *final(self) == (Expedition {
                scouts: final(self).scouts,
                pilots: final(self).pilots,
                in_combat: false,
                jump_step: JumpStep::Step4,
                ..*old(self)
            }),
            final(self).scouts@ == c.scout_formation@,
            forall|i: int| 0 <= i < 6 ==> #[trigger] final(self).pilots@[i] == c.scout_formation@[i].pilot,
            final(self).pilots@.len() == 6,
    {
        combat_to_app(c, self);
        self.in_combat = false;
        self.jump_step = JumpStep::Step4;
    }

    /// Gives a battle still on its update pass and copies its scouts back.
    fn continue_battle(&mut self, c: Combat)
        requires
            old(self).wf(),
            old(self).combat is None,
            c.wf(),
        ensures
            final(self).wf(),
            final(self).combat is Some,
            *final(self) == (Expedition {
                scouts: final(self).scouts,
                pilots: final(self).pilots,
                combat: final(self).combat,
                ..*old(self)
            }),
            update_result(c, final(self).combat->0),
            final(self).scouts@ == c.scout_formation@,
            forall|i: int| 0 <= i < 6 ==> #[trigger] final(self).pilots@[i] == c.scout_formation@[i].pilot,
            final(self).pilots@.len() == 6,
    {
        let mut c = c;
        c.update();
        combat_to_app(&c, self);
        self.combat = Some(c);
    }

    /// One update pass over the battle under way, if any.
    pub fn sync_combat(&mut self)
        requires
            old(self).wf(),
        ensures
            final(self).wf(),
            sync_result(*old(self), *final(self)),
    {
        if !self.in_combat {
            return ;
        }
        match self.combat.take() {
            None => {},
            Some(mut c) => {
                if c.is_resolved() {
                    self.end_battle(&c);
                } else {
                    self.continue_battle(c);
                }
            },
        }
    }
}

/// Whether the subsystem with the given index (0 the hull) is upgraded.
pub open spec fn upgraded_at(e: Expedition, k: int) -> bool {
    if k == 0 {
        e.hull_upgrade
    } else {
        subsystem_at(e, k).upgrade
    }
}

/// The expedition with the upgrade of the given index (0 the hull) bought
/// for 4 parts.
pub open spec fn with_upgrade(e: Expedition, k: int) -> Expedition {
    let e1 = Expedition { parts: (e.parts - 4) as u64, ..e };
    if k == 0 {
        Expedition { hull_upgrade: true, ..e1 }
    } else {
        with_subsystem(e1, k, SubSystem { upgrade: true, ..subsystem_at(e, k) })
    }
}

/// The expedition after an upgrade purchase: bought for 4 parts when the
/// index names the hull or a subsystem not yet upgraded and the parts
/// cover it, unchanged otherwise.
pub open spec fn upgrade_outcome(e: Expedition, k: int) -> Expedition {
    if 0 <= k <= 5 && !upgraded_at(e, k) && e.parts >= 4 {
        with_upgrade(e, k)
    } else {
        e
    }
}

/// The narration of an upgrade purchase.
pub open spec fn upgrade_text(e: Expedition, k: int) -> Seq<char> {
    if k > 5 {
        "Select a subsystem to upgrade."@
    } else if upgraded_at(e, k) {
        "Already upgraded."@
    } else if e.parts < 4 {
        "Not enough parts to make this upgrade!"@
    } else {
        "Upgrade installed with 4 parts."@
    }
}

/// The slot next to `i` among six, wrapping at the ends: the one before
/// when `up`, the one after otherwise.
pub open spec fn neighbour(i: int, up: bool) -> int {
    if up {
        if i == 0 {
            5
        } else {
            i - 1
        }
    } else {
        if i == 5 {
            0
        } else {
            i + 1
        }
    }
}

/// A sequence with two slots exchanged.
pub open spec fn swapped<T>(s: Seq<T>, i: int, j: int) -> Seq<T> {
    s.update(i, s[j]).update(j, s[i])
}

/// Exchanges two slots of a vector.
fn swap_slots<T>(v: &mut Vec<T>, i: usize, j: usize)
    requires
        i < j < old(v)@.len(),
    ensures
        final(v)@ == swapped(old(v)@, i as int, j as int),
{
    let b = v.remove(j);
    let a = v.remove(i);
    v.insert(i, b);
    v.insert(j, a);
    assert(v@ =~= swapped(old(v)@, i as int, j as int));
}

/// Exchanges two slots of a vector, in either order.
fn swap_any<T>(v: &mut Vec<T>, i: usize, j: usize)
    requires
        i < old(v)@.len(),
        j < old(v)@.len(),
        i != j,
    ensures
        final(v)@ == swapped(old(v)@, i as int, j as int),
{
    if i < j {
        swap_slots(v, i, j);
    } else {
        swap_slots(v, j, i);
        assert(swapped(old(v)@, j as int, i as int) =~= swapped(old(v)@, i as int, j as int));
    }
}

/// The slot next to `i` among six.
fn neighbour_of(i: usize, up: bool) -> (r: usize)
    requires
        i < 6,
    ensures
        r == neighbour(i as int, up),
        r < 6,
        r != i,
{
    if up {
        if i == 0 {
            5
        } else {
            i - 1
        }
    } else {
        if i == 5 {
            0
        } else {
            i + 1
        }
    }
}

impl Expedition {
    /// Repairs the scout in the given hangar slot; only during upkeep.
    pub fn repair_scout(&mut self, index: usize)
        requires
            old(self).wf(),
        ensures
            final(self).wf(),
            old(self).jump_step != JumpStep::Step6 ==> *final(self) == *old(self),
            old(self).jump_step == JumpStep::Step6 && index >= 6 ==> *final(self) == (Expedition {
                game_text: final(self).game_text,
                ..*old(self)
            }) && final(self).game_text@ == "Select a scout to repair."@,
            old(self).jump_step == JumpStep::Step6 && index < 6 && old(self).parts
                < scout_repair_cost(old(self).scouts@[index as int].ship.damage) ==> *final(self)
                == (Expedition { game_text: final(self).game_text, ..*old(self) }) && final(self).game_text@ == "Not enough parts to make this repair!"@,
            old(self).jump_step == JumpStep::Step6 && index < 6 && old(self).parts
                >= scout_repair_cost(old(self).scouts@[index as int].ship.damage) ==> {
                let s = old(self).scouts@[index as int];
                *final(self) == Expedition {
                    parts: (old(self).parts - scout_repair_cost(s.ship.damage)) as u64,
                    scouts: final(self).scouts,
                    ..*old(self)
                } && final(self).scouts@ == old(self).scouts@.update(
                    index as int,
                    Scout { ship: Ship { damage: ShipDamage::Normal, ..s.ship }, ..s },
                )
            },
    {
        if self.jump_step == JumpStep::Step6 {
            scout_repair(self, index);
        }
    }

    /// Repairs one point of hull damage (0), or a subsystem (1 to 5) back
    /// to full at 2 parts per rung; only during upkeep.
    pub fn repair_subsystem(&mut self, index: usize)
        requires
            old(self).wf(),
        ensures
            final(self).wf(),
            old(self).jump_step != JumpStep::Step6 ==> *final(self) == *old(self),
            old(self).jump_step == JumpStep::Step6 ==> *final(self) == (Expedition {
                game_text: final(self).game_text,
                ..repaired(*old(self), index as int)
            }) && final(self).game_text@ == repair_text(*old(self), index as int),
    {
        if self.jump_step == JumpStep::Step6 {
            subsystem_repair(self, index);
        }
    }

    /// Buys the one-time upgrade of the hull (0) or a subsystem (1 to 5)
    /// for 4 parts; only during upkeep. An upgrade already bought, too few
    /// parts, or no such index change nothing but the narration.
    pub fn upgrade_subsystem(&mut self, index: usize)
        requires
            old(self).wf(),
        ensures
            final(self).wf(),
            old(self).jump_step != JumpStep::Step6 ==> *final(self) == *old(self),
            old(self).jump_step == JumpStep::Step6 ==> *final(self) == (Expedition {
                game_text: final(self).game_text,
                ..upgrade_outcome(*old(self), index as int)
            }),
            old(self).jump_step == JumpStep::Step6 ==> final(self).game_text@ == upgrade_text(
                *old(self),
                index as int,
            ),
    {
        if self.jump_step != JumpStep::Step6 {
            return ;
        }
        if index > 5 {
            self.game_text = String::from_str("Select a subsystem to upgrade.");
        } else {
            self.upgrade_listed(index);
        }
    }

    fn upgrade_listed(&mut self, index: usize)
        requires
            old(self).wf(),
            index <= 5,
        ensures
            final(self).wf(),
            *final(self) == (Expedition {
                game_text: final(self).game_text,
                ..upgrade_outcome(*old(self), index as int)
            }),
            final(self).game_text@ == upgrade_text(*old(self), index as int),
    {
        let already = if index == 0 {
            self.hull_upgrade
        } else {
            self.subsystem(index).upgrade
        };
        if already {
            self.game_text = String::from_str("Already upgraded.");
        } else if self.parts < 4 {
            self.game_text = String::from_str("Not enough parts to make this upgrade!");
        } else {
            self.install_upgrade(index);
            self.game_text = String::from_str("Upgrade installed with 4 parts.");
        }
    }

    fn install_upgrade(&mut self, index: usize)
        requires
            old(self).wf(),
            index <= 5,
            old(self).parts >= 4,
            !upgraded_at(*old(self), index as int),
        ensures
            final(self).wf(),
            *final(self) == upgrade_outcome(*old(self), index as int),
    {
        self.parts = self.parts - 4;
        if index == 0 {
            self.hull_upgrade = true;
        } else {
            let s = self.subsystem(index);
            self.set_subsystem(index, SubSystem { status: s.status, upgrade: true });
        }
    }

    /// Renames the craft of the scout in the given hangar slot; a slot that
    /// does not exist changes nothing.
    pub fn rename_scout(&mut self, index: usize, text: &str)
        requires
            old(self).wf(),
        ensures
            final(self).wf(),
            index >= 6 ==> *final(self) == *old(self),
            index < 6 ==> *final(self) == (Expedition { scouts: final(self).scouts, ..*old(self) })
                && final(self).scouts@.len() == 6 && forall|i: int|
                0 <= i < 6 ==> #[trigger] final(self).scouts@[i] == if i == index {
                    let s = old(self).scouts@[i];
                    Scout { ship: Ship { name: final(self).scouts@[i].ship.name, ..s.ship }, ..s }
                } else {
                    old(self).scouts@[i]
                },
            index < 6 ==> final(self).scouts@[index as int].ship.name@ == text@,
    {
        if index < self.scouts.len() {
            self.scouts[index].ship.name = String::from_str(text);
        }
    }

    /// Renames the pilot in the given roster slot; a slot that does not
    /// exist changes nothing.
    pub fn rename_pilot(&mut self, index: usize, text: &str)
        requires
            old(self).wf(),
        ensures
            final(self).wf(),
            index >= 6 ==> *final(self) == *old(self),
            index < 6 ==> *final(self) == (Expedition { pilots: final(self).pilots, ..*old(self) })
                && final(self).pilots@.len() == 6 && forall|i: int|
                0 <= i < 6 ==> #[trigger] final(self).pilots@[i] == if i == index {
                    Pilot { name: final(self).pilots@[i].name, ..old(self).pilots@[i] }
                } else {
                    old(self).pilots@[i]
                },
            index < 6 ==> final(self).pilots@[index as int].name@ == text@,
    {
        if index < self.pilots.len() {
            self.pilots[index].name = String::from_str(text);
        }
    }

    /// Moves the pilot in the given roster slot one slot up (`up`) or down,
    /// exchanging it with its neighbour and wrapping at the ends; a slot
    /// that does not exist changes nothing.
    pub fn reorder_pilot(&mut self, index: usize, up: bool)
        requires
            old(self).wf(),
        ensures
            final(self).wf(),
            index >= 6 ==> *final(self) == *old(self),
            index < 6 ==> *final(self) == (Expedition { pilots: final(self).pilots, ..*old(self) })
                && final(self).pilots@ == swapped(
                old(self).pilots@,
                index as int,
                neighbour(index as int, up),
            ),
    {
        if index < 6 {
            let j = neighbour_of(index, up);
            swap_any(&mut self.pilots, index, j);
        }
    }

    /// Moves the scout in the given hangar slot, with its pilot, one slot up
    /// (`up`) or down, exchanging it with its neighbour and wrapping at the
    /// ends; each scout's flight position follows its slot. A slot that
    /// does not exist changes nothing.
    pub fn reorder_scout(&mut self, index: usize, up: bool)
        requires
            old(self).wf(),
        ensures
            final(self).wf(),
            index >= 6 ==> *final(self) == *old(self),
            index < 6 ==> {
                let j = neighbour(index as int, up);
                let s = old(self).scouts@;
                &&& *final(self) == Expedition {
                    pilots: final(self).pilots,
                    scouts: final(self).scouts,
                    ..*old(self)
                }
                &&& final(self).pilots@ == swapped(old(self).pilots@, index as int, j)
                &&& final(self).scouts@ == s.update(
                    index as int,
                    Scout { position: index as u64, ..s[j] },
                ).update(j, Scout { position: j as u64, ..s[index as int] })
            },
    {
        if index < 6 {
            let j = neighbour_of(index, up);
            swap_any(&mut self.pilots, index, j);
            swap_any(&mut self.scouts, index, j);
            self.scouts[index].position = index as u64;
            self.scouts[j].position = j as u64;
        }
    }
}

} // verus!
