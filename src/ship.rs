//! The mother ship's subsystems and the scout craft.

use vstd::prelude::*;
use vstd::string::*;
use crate::expedition::{subsystem_at, with_subsystem, Expedition};
use crate::pilot::Pilot;
use crate::text::{decimal, decimal_text};

verus! {

/// Subsystem condition (100/66/33/0%), a ladder that only gets worse under
/// damage and is reset to `Normal` by repair.
#[derive(Clone, Copy, Debug, PartialEq, Eq, Structural)]
pub enum Status {
    Normal,
    Serviceable,
    BarelyFunctioning,
    Inoperable,
}

/// How far down the ladder a subsystem is: 0 for `Normal`, 3 for `Inoperable`.
pub open spec fn status_level(s: Status) -> nat {
    match s {
        Status::Normal => 0,
        Status::Serviceable => 1,
        Status::BarelyFunctioning => 2,
        Status::Inoperable => 3,
    }
}

impl Default for Status {
    fn default() -> (r: Status)
        ensures
            r == Status::Normal,
    {
        Status::Normal
    }
}

impl Status {
    /// The text shown for this condition.
    pub fn label(&self) -> (r: &'static str)
        ensures
            r@ == match *self {
                Status::Normal => "Normal"@,
                Status::Serviceable => "Serviceable"@,
                Status::BarelyFunctioning => "Barely Functioning"@,
                Status::Inoperable => "Inoperable"@,
            },
    {
        match self {
            Status::Normal => "Normal",
            Status::Serviceable => "Serviceable",
            Status::BarelyFunctioning => "Barely Functioning",
            Status::Inoperable => "Inoperable",
        }
    }
}

/// Damage of a scout craft, a ladder of its own.
#[derive(Clone, Copy, Debug, PartialEq, Eq, Structural)]
pub enum ShipDamage {
    Normal,
    Half,
    Inoperable,
    Destroyed,
}

impl Default for ShipDamage {
    fn default() -> (r: ShipDamage)
        ensures
            r == ShipDamage::Normal,
    {
        ShipDamage::Normal
    }
}

impl ShipDamage {
    /// The text shown for this damage.
    pub fn label(&self) -> (r: &'static str)
        ensures
            r@ == match *self {
                ShipDamage::Normal => "Normal"@,
                ShipDamage::Half => "Half"@,
                ShipDamage::Inoperable => "Inoperable"@,
                ShipDamage::Destroyed => "Destroyed"@,
            },
    {
        match self {
            ShipDamage::Normal => "Normal",
            ShipDamage::Half => "Half",
            ShipDamage::Inoperable => "Inoperable",
            ShipDamage::Destroyed => "Destroyed",
        }
    }
}

/// A subsystem of the mother ship: its condition and its one-way upgrade.
#[derive(Clone, Copy, Debug, PartialEq, Eq, Structural)]
pub struct SubSystem {
    pub status: Status,
    pub upgrade: bool,
}

impl SubSystem {
    /// A subsystem at full condition, not upgraded.
    pub open spec fn default_spec() -> SubSystem {
        SubSystem { status: Status::Normal, upgrade: false }
    }
}

impl Default for SubSystem {
    fn default() -> (r: SubSystem)
        ensures
            r == SubSystem::default_spec(),
    {
        SubSystem { status: Status::Normal, upgrade: false }
    }
}

/// A scout craft: its name and damage.
#[derive(Debug)]
pub struct Ship {
    pub name: String,
    pub damage: ShipDamage,
}

impl Clone for Ship {
    fn clone(&self) -> (r: Ship)
        ensures
            r == *self,
    {
        Ship { name: self.name.clone(), damage: self.damage }
    }
}

impl Default for Ship {
    fn default() -> (r: Ship)
        ensures
            r.name@ == "Ship Name"@,
            r.damage == ShipDamage::Normal,
    {
        Ship { name: String::from_str("Ship Name"), damage: ShipDamage::Normal }
    }
}

/// A scout: its flight position (0 leads), its craft and its pilot.
#[derive(Debug)]
pub struct Scout {
    pub position: u64,
    pub ship: Ship,
    pub pilot: Pilot,
}

impl Clone for Scout {
    fn clone(&self) -> (r: Scout)
        ensures
            r == *self,
    {
        Scout { position: self.position, ship: self.ship.clone(), pilot: self.pilot.clone() }
    }
}

impl Default for Scout {
    fn default() -> (r: Scout)
        ensures
            r.position == 0,
            r.ship.name@ == "Ship Name"@,
            r.ship.damage == ShipDamage::Normal,
            r.pilot.name@ == "Pilot"@,
            r.pilot.kills == 0,
            r.pilot.rank == crate::pilot::Rank::Rookie,
            r.pilot.status == crate::pilot::PilotStatus::Normal,
            r.pilot.injury_timer == 0,
    {
        Scout { position: 0, ship: Ship::default(), pilot: Pilot::default() }
    }
}

} // verus!

verus! {

/// One rung down the subsystem ladder; `Inoperable` stays where it is.
pub open spec fn degraded(s: Status) -> Status {
    match s {
        Status::Normal => Status::Serviceable,
        Status::Serviceable => Status::BarelyFunctioning,
        _ => Status::Inoperable,
    }
}

/// Parts that a full repair of a subsystem costs: 2 per rung of damage.
pub open spec fn repair_cost(s: Status) -> nat {
    2 * status_level(s)
}

/// The expedition after a repair of the hull (index 0) by one point for
/// 1 part, or of a subsystem (1 engines, 2 mining laser, 3 scout bay, 4 sick
/// bay, 5 sensors) back to `Normal` for 2 parts per rung of damage. A repair
/// that is not needed, that the parts do not cover, or of no such index
/// changes nothing.
pub open spec fn repaired(e: Expedition, k: int) -> Expedition {
    if k == 0 {
        if e.hull_damage > 0 && e.parts >= 1 {
            Expedition { parts: (e.parts - 1) as u64, hull_damage: (e.hull_damage - 1) as u64, ..e }
        } else {
            e
        }
    } else if 1 <= k <= 5 {
        let s = subsystem_at(e, k);
        if s.status != Status::Normal && e.parts >= repair_cost(s.status) {
            Expedition {
                parts: (e.parts - repair_cost(s.status)) as u64,
                ..with_subsystem(e, k, SubSystem { status: Status::Normal, ..s })
            }
        } else {
            e
        }
    } else {
        e
    }
}

/// The narration of a repair.
pub open spec fn repair_text(e: Expedition, k: int) -> Seq<char> {
    if k > 5 || k < 0 {
        "Select a subsystem to repair."@
    } else if (k == 0 && e.hull_damage == 0) || (k != 0 && subsystem_at(e, k).status
        == Status::Normal) {
        "Nothing to repair."@
    } else if (k == 0 && e.parts < 1) || (k != 0 && e.parts < repair_cost(
        subsystem_at(e, k).status,
    )) {
        "Not enough parts to make this repair!"@
    } else if k == 0 {
        "Hull damage repaired with 1 part."@
    } else {
        "Subsystem fully repaired with "@ + decimal_text(repair_cost(subsystem_at(e, k).status))
            + " parts."@
    }
}

/// Repairs the hull by one point or a subsystem to full; see `repaired`.
pub fn subsystem_repair(app: &mut Expedition, subsystem: usize)
    ensures
        *final(app) == (Expedition {
            game_text: final(app).game_text,
            ..repaired(*old(app), subsystem as int)
        }),
        final(app).game_text@ == repair_text(*old(app), subsystem as int),
{
    if subsystem > 5 {
        app.game_text = String::from_str("Select a subsystem to repair.");
    } else if subsystem == 0 {
        repair_hull(app);
    } else {
        repair_to_full(app, subsystem);
    }
}

/// Repairs one point of hull damage for 1 part.
fn repair_hull(app: &mut Expedition)
    ensures
        *final(app) == (Expedition { game_text: final(app).game_text, ..repaired(*old(app), 0) }),
        final(app).game_text@ == repair_text(*old(app), 0),
{
    if app.hull_damage == 0 {
        app.game_text = String::from_str("Nothing to repair.");
    } else if app.parts < 1 {
        app.game_text = String::from_str("Not enough parts to make this repair!");
    } else {
        app.parts = app.parts - 1;
        app.hull_damage = app.hull_damage - 1;
        app.game_text = String::from_str("Hull damage repaired with 1 part.");
    }
}

/// Repairs a subsystem to full for 2 parts per rung of damage.
fn repair_to_full(app: &mut Expedition, k: usize)
    requires
        1 <= k <= 5,
    ensures
        *final(app) == (Expedition { game_text: final(app).game_text, ..repaired(*old(app), k as int) }),
        final(app).game_text@ == repair_text(*old(app), k as int),
{
    let s = app.subsystem(k);
    let cost: u64 = match s.status {
        Status::Normal => 0,
        Status::Serviceable => 2,
        Status::BarelyFunctioning => 4,
        Status::Inoperable => 6,
    };
    if s.status == Status::Normal {
        app.game_text = String::from_str("Nothing to repair.");
    } else if app.parts < cost {
        app.game_text = String::from_str("Not enough parts to make this repair!");
    } else {
        app.set_subsystem(k, SubSystem { status: Status::Normal, upgrade: s.upgrade });
        app.parts = app.parts - cost;
        app.game_text = String::from_str("Subsystem fully repaired with ").concat(
            decimal(cost).as_str(),
        ).concat(" parts.");
    }
}

/// A status after `n` successive hits.
pub open spec fn degraded_n(s: Status, n: nat) -> Status
    decreases n,
{
    if n == 0 {
        s
    } else {
        degraded(degraded_n(s, (n - 1) as nat))
    }
}

/// Repeated damage only ever moves a subsystem down its ladder: after more
/// hits it is never better off than after fewer, a damaged subsystem never
/// comes back to `Normal` without repair, and `Inoperable` stays
/// `Inoperable`.
pub proof fn degrade_is_monotonic(s: Status, n: nat, m: nat)
    requires
        n <= m,
    ensures
        status_level(degraded_n(s, n)) <= status_level(degraded_n(s, m)),
        m > 0 ==> degraded_n(s, m) != Status::Normal,
        degraded_n(Status::Inoperable, m) == Status::Inoperable,
    decreases m,
{
    if m > n {
        degrade_is_monotonic(s, n, (m - 1) as nat);
    }
    if m > 0 {
        degrade_is_monotonic(s, 0, (m - 1) as nat);
    }
}

} // verus!
