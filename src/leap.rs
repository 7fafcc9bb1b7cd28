//! The leap cycle's tables: threat assessment, salvage and system scan,
//! and the first step of a leap.
//!
//! Order of play: 1. leap into a system; 2. assess the threat; 3. fight if
//! needed; 4. search the wreckage for parts; 5. scan the system; 6. make
//! repairs and bury the dead; 7. leap again.

use vstd::prelude::*;
use vstd::string::*;
use crate::dice::roll_die;
use crate::expedition::Expedition;
use crate::pilot::sat_inc;
use crate::threat::Threats;

verus! {

/// Which step of the leap cycle the expedition is in.
#[derive(Clone, Copy, Debug, PartialEq, Eq, Structural)]
pub enum JumpStep {
    Step1,
    Step2,
    Step3,
    Step4,
    Step5,
    Step6,
    Step7,
}

/// What a system scan found.
#[derive(Clone, Copy, Debug, PartialEq, Eq, Structural)]
pub enum ScanResult {
    Barren,
    Fuel,
    Anomoly,
    Home,
}

impl ScanResult {
    /// The text shown for this result.
    pub fn label(&self) -> (r: &'static str)
        ensures
            r@ == scan_label(*self),
    {
        match self {
            ScanResult::Barren => "Barren",
            ScanResult::Fuel => "Fuel",
            ScanResult::Anomoly => "Anomoly",
            ScanResult::Home => "Home",
        }
    }
}

/// The text shown for a scan result.
pub open spec fn scan_label(s: ScanResult) -> Seq<char> {
    match s {
        ScanResult::Barren => "Barren"@,
        ScanResult::Fuel => "Fuel"@,
        ScanResult::Anomoly => "Anomoly"@,
        ScanResult::Home => "Home"@,
    }
}

/// Summary of one leap, kept in the expedition's log.
#[derive(Debug)]
pub struct Leap {
    pub number: u64,
    pub combat_rounds: u64,
    pub parts_found: u64,
    pub fuel_found: u64,
    pub threats: Vec<Threats>,
    pub damage: Vec<u64>,
}

impl Default for Leap {
    fn default() -> (r: Leap)
        ensures
            r.number == 1,
            r.combat_rounds == 0,
            r.parts_found == 0,
            r.fuel_found == 0,
            r.threats@ == seq![Threats::NoThreat],
            r.damage@ == seq![0u64],
    {
        Leap {
            number: 1,
            combat_rounds: 0,
            parts_found: 0,
            fuel_found: 0,
            threats: vec![Threats::NoThreat],
            damage: vec![0],
        }
    }
}

/// Threat roll modifier by leaps since the last incident: 1 gives -3, 2
/// gives -2, 3 gives -1, 4 to 7 give 0, and beyond that `leaps - 7`.
pub open spec fn threat_mod(leaps: int) -> int {
    if leaps == 1 {
        -3
    } else if leaps == 2 {
        -2
    } else if leaps == 3 {
        -1
    } else if 4 <= leaps <= 7 {
        0
    } else {
        leaps - 7
    }
}

/// The threat table: the enemy formation for a roll total, or none.
pub open spec fn threat_formation(total: int) -> Option<Seq<Threats>> {
    if total <= 3 {
        None
    } else if total == 4 {
        Some(seq![Threats::Mk1; 4])
    } else if total == 5 {
        Some(seq![Threats::Mk1; 5])
    } else if total == 6 {
        Some(seq![Threats::Mk1; 6])
    } else if total == 7 {
        Some(seq![Threats::Mk2])
    } else if total == 8 {
        Some(seq![Threats::Mk2, Threats::Mk1, Threats::Mk1])
    } else if total == 9 {
        Some(seq![Threats::Mk2, Threats::Mk1, Threats::Mk1, Threats::Mk1])
    } else if total == 10 {
        Some(seq![Threats::Mk2, Threats::Mk2])
    } else if total == 11 {
        Some(seq![Threats::Mk2, Threats::Mk2, Threats::Mk1])
    } else if total == 12 {
        Some(seq![Threats::Mk3])
    } else if total == 13 {
        Some(seq![Threats::Mk3, Threats::Mk1, Threats::Mk1, Threats::Mk1])
    } else if total == 14 {
        Some(seq![Threats::Mk3, Threats::Mk2])
    } else {
        Some(seq![Threats::Mk3, Threats::Mk3, Threats::Mk2, Threats::Mk2, Threats::Mk1, Threats::Mk1])
    }
}

/// The threat table's edges: a total of 3 or less never brings an
/// encounter, 12 always brings exactly one Mk3, and 15 or more always
/// brings the full six: two Mk3, two Mk2 and two Mk1.
pub proof fn threat_table_edges(total: int)
    ensures
        total <= 3 ==> threat_formation(total) is None,
        total == 12 ==> threat_formation(total) == Some(seq![Threats::Mk3]),
        total >= 15 ==> threat_formation(total) == Some(
            seq![Threats::Mk3, Threats::Mk3, Threats::Mk2, Threats::Mk2, Threats::Mk1, Threats::Mk1],
        ) && threat_formation(total)->0.len() == 6,
{
}

/// The formation that two dice bring after `leaps` leaps without incident.
pub open spec fn threat_outcome(leaps: int, d1: int, d2: int) -> Option<Seq<Threats>> {
    threat_formation(d1 + d2 + threat_mod(leaps))
}

/// Views an optional formation as an optional sequence.
pub open spec fn formation_view(r: Option<Vec<Threats>>) -> Option<Seq<Threats>> {
    match r {
        Some(v) => Some(v@),
        None => None,
    }
}

/// The threat roll modifier for a number of leaps since the last incident.
pub fn threat_modifier(leaps: u64) -> (r: i128)
    ensures
        r as int == threat_mod(leaps as int),
{
    if leaps == 1 {
        -3
    } else if leaps == 2 {
        -2
    } else if leaps == 3 {
        -1
    } else if leaps >= 4 && leaps <= 7 {
        0
    } else {
        leaps as i128 - 7
    }
}

/// Looks a threat roll total up in the threat table.
pub fn threat_table(total: i128) -> (r: Option<Vec<Threats>>)
    ensures
        formation_view(r) == threat_formation(total as int),
{
    let r = if total <= 3 {
        None
    } else if total == 4 {
        Some(vec![Threats::Mk1; 4])
    } else if total == 5 {
        Some(vec![Threats::Mk1; 5])
    } else if total == 6 {
        Some(vec![Threats::Mk1; 6])
    } else if total == 7 {
        Some(vec![Threats::Mk2])
    } else if total == 8 {
        Some(vec![Threats::Mk2, Threats::Mk1, Threats::Mk1])
    } else if total == 9 {
        Some(vec![Threats::Mk2, Threats::Mk1, Threats::Mk1, Threats::Mk1])
    } else if total == 10 {
        Some(vec![Threats::Mk2, Threats::Mk2])
    } else if total == 11 {
        Some(vec![Threats::Mk2, Threats::Mk2, Threats::Mk1])
    } else if total == 12 {
        Some(vec![Threats::Mk3])
    } else if total == 13 {
        Some(vec![Threats::Mk3, Threats::Mk1, Threats::Mk1, Threats::Mk1])
    } else if total == 14 {
        Some(vec![Threats::Mk3, Threats::Mk2])
    } else {
        Some(
            vec![Threats::Mk3, Threats::Mk3, Threats::Mk2, Threats::Mk2, Threats::Mk1, Threats::Mk1],
        )
    };
    proof {
        if r is Some {
            assert(r->0@ =~= threat_formation(total as int)->0);
        }
    }
    r
}

/// Rolls two dice plus the leap modifier on the threat table.
pub fn assess_threat(app: &Expedition) -> (r: Option<Vec<Threats>>)
    ensures
        exists|d1: int, d2: int|
            1 <= d1 < 6 && 1 <= d2 < 6 && formation_view(r) == threat_outcome(
                app.leaps_since_incident as int,
                d1,
                d2,
            ),
{
    let d1 = roll_die();
    let d2 = roll_die();
    let r = threat_table(d1 as i128 + d2 as i128 + threat_modifier(app.leaps_since_incident));
    assert(formation_view(r) == threat_outcome(
        app.leaps_since_incident as int,
        d1 as int,
        d2 as int,
    ));
    r
}

/// Whether a formation holds a fighter of the given tier.
pub open spec fn fields(s: Seq<Threats>, t: Threats) -> bool {
    exists|i: int| 0 <= i < s.len() && s[i] == t
}

/// Salvage bonus of a formation: 3 with both Mk2 and Mk3, 2 with Mk3
/// only, 1 with Mk2 only, 0 otherwise.
pub open spec fn salvage_bonus_of(s: Seq<Threats>) -> nat {
    let mk2 = fields(s, Threats::Mk2);
    let mk3 = fields(s, Threats::Mk3);
    if mk3 && mk2 {
        3
    } else if mk3 {
        2
    } else if mk2 {
        1
    } else {
        0
    }
}

/// Parts found in the wreckage of a formation for a die value.
pub open spec fn salvage_of(s: Seq<Threats>, die: int) -> int {
    die + salvage_bonus_of(s)
}

/// The salvage bonus that a defeated formation leaves behind.
pub fn salvage_bonus(threats: &[Threats]) -> (r: u64)
    ensures
        r == salvage_bonus_of(threats@),
{
    let mut bmk2 = false;
    let mut bmk3 = false;
    let mut i: usize = 0;
    while i < threats.len()
        invariant
            i <= threats@.len(),
            bmk2 == exists|j: int| 0 <= j < i && threats@[j] == Threats::Mk2,
            bmk3 == exists|j: int| 0 <= j < i && threats@[j] == Threats::Mk3,
        decreases threats@.len() - i,
    {
        if threats[i] == Threats::Mk2 {
            bmk2 = true;
        } else if threats[i] == Threats::Mk3 {
            bmk3 = true;
        }
        i = i + 1;
    }
    if bmk3 && bmk2 {
        3
    } else if bmk3 {
        2
    } else if bmk2 {
        1
    } else {
        0
    }
}

/// Rolls a die for the parts found in the wreckage, plus the salvage bonus.
pub fn search_wreckage(threats: Vec<Threats>) -> (r: u64)
    ensures
        exists|d: int| 1 <= d < 6 && r == salvage_of(threats@, d),
{
    let bonus = salvage_bonus(threats.as_slice());
    let d = roll_die();
    assert(1 <= d as int && d < 6 && d as u64 + bonus == salvage_of(threats@, d as int));
    d as u64 + bonus
}

/// Scan roll modifier: like the threat modifier up to 7 leaps, +1 beyond.
pub open spec fn scan_mod(leaps: int) -> int {
    if leaps == 1 {
        -3
    } else if leaps == 2 {
        -2
    } else if leaps == 3 {
        -1
    } else if 4 <= leaps <= 7 {
        0
    } else {
        1
    }
}

/// The scan table: fuel gathered and what was found, for a roll total.
/// Below 6 barren; 6 or 8 one fuel; 7 an anomaly; 9 two fuel; 10 three
/// fuel; above 10 a signal from home.
pub open spec fn scan_outcome(total: int) -> (u64, ScanResult) {
    if total < 6 {
        (0, ScanResult::Barren)
    } else if total == 6 || total == 8 {
        (1, ScanResult::Fuel)
    } else if total == 7 {
        (0, ScanResult::Anomoly)
    } else if total == 9 {
        (2, ScanResult::Fuel)
    } else if total == 10 {
        (3, ScanResult::Fuel)
    } else {
        (0, ScanResult::Home)
    }
}

/// The scan result that two dice bring after `leaps` leaps.
pub open spec fn scan_roll(leaps: int, d1: int, d2: int) -> (u64, ScanResult) {
    scan_outcome(d1 + d2 + scan_mod(leaps))
}

/// The scan roll modifier for a number of leaps since the last incident.
pub fn scan_modifier(leaps: u64) -> (r: i64)
    ensures
        r as int == scan_mod(leaps as int),
{
    if leaps == 1 {
        -3
    } else if leaps == 2 {
        -2
    } else if leaps == 3 {
        -1
    } else if 4 <= leaps && leaps <= 7 {
        0
    } else {
        1
    }
}

/// Looks a scan roll total up in the scan table.
pub fn scan_table(total: i64) -> (r: (u64, ScanResult))
    ensures
        r == scan_outcome(total as int),
{
    if total < 6 {
        (0, ScanResult::Barren)
    } else if total == 6 || total == 8 {
        (1, ScanResult::Fuel)
    } else if total == 7 {
        (0, ScanResult::Anomoly)
    } else if total == 9 {
        (2, ScanResult::Fuel)
    } else if total == 10 {
        (3, ScanResult::Fuel)
    } else {
        (0, ScanResult::Home)
    }
}

/// Rolls two dice plus the scan modifier on the scan table.
pub fn system_scan(leaps: u64) -> (r: (u64, ScanResult))
    ensures
        exists|d1: int, d2: int| 1 <= d1 < 6 && 1 <= d2 < 6 && r == scan_roll(leaps as int, d1, d2),
{
    let d1 = roll_die();
    let d2 = roll_die();
    let r = scan_table(d1 as i64 + d2 as i64 + scan_modifier(leaps));
    assert(r == scan_roll(leaps as int, d1 as int, d2 as int));
    r
}

/// Step 1 of a leap: one more leap since the last incident, and one fuel
/// burnt. With no fuel left the expedition is over: fuel stays at zero and
/// the game-over signal is raised.
pub fn leap_into_system(app: &mut Expedition)
    ensures
        *final(app) == (Expedition {
            leaps_since_incident: sat_inc(old(app).leaps_since_incident),
            fuel: if old(app).fuel > 0 { (old(app).fuel - 1) as u64 } else { 0 },
            game_over: old(app).game_over || old(app).fuel == 0,
            game_text: final(app).game_text,
            ..*old(app)
        }),
        final(app).game_text@ == if old(app).fuel > 0 {
            old(app).game_text@
        } else {
            old(app).game_text@ + "Out of fuel!  Game Over"@
        },
{
    app.leaps_since_incident = app.leaps_since_incident.saturating_add(1);
    if app.fuel > 0 {
        app.fuel = app.fuel - 1;
    } else {
        app.game_text.append("Out of fuel!  Game Over");
        app.game_over = true;
    }
}

} // verus!
