//! Pilots: kills, rank and injuries.

use vstd::prelude::*;
use vstd::string::*;
use crate::expedition::Expedition;
use crate::ship::{Scout, Status, SubSystem};
use crate::text::{decimal, decimal_text};
use crate::threat::Threats;

verus! {

/// Health of a pilot; `Kia` is final.
#[derive(Clone, Copy, Debug, PartialEq, Eq, Structural)]
pub enum PilotStatus {
    Normal,
    Injured,
    Kia,
}

impl Default for PilotStatus {
    fn default() -> (r: PilotStatus)
        ensures
            r == PilotStatus::Normal,
    {
        PilotStatus::Normal
    }
}

impl PilotStatus {
    /// The text shown for this health.
    pub fn label(&self) -> (r: &'static str)
        ensures
            r@ == match *self {
                PilotStatus::Normal => "Normal"@,
                PilotStatus::Injured => "Injured"@,
                PilotStatus::Kia => "KIA"@,
            },
    {
        match self {
            PilotStatus::Normal => "Normal",
            PilotStatus::Injured => "Injured",
            PilotStatus::Kia => "KIA",
        }
    }
}

/// Pilot rank, earned by kills.
#[derive(Clone, Copy, Debug, PartialEq, Eq, Structural)]
pub enum Rank {
    Rookie,
    Veteran,
    Ace,
}

impl Default for Rank {
    fn default() -> (r: Rank)
        ensures
            r == Rank::Rookie,
    {
        Rank::Rookie
    }
}

impl Rank {
    /// The text shown for this rank.
    pub fn label(&self) -> (r: &'static str)
        ensures
            r@ == match *self {
                Rank::Rookie => "Rookie"@,
                Rank::Veteran => "Veteran"@,
                Rank::Ace => "Ace"@,
            },
    {
        match self {
            Rank::Rookie => "Rookie",
            Rank::Veteran => "Veteran",
            Rank::Ace => "Ace",
        }
    }
}

/// Order of ranks: 0 for a rookie, 2 for an ace.
pub open spec fn rank_level(r: Rank) -> nat {
    match r {
        Rank::Rookie => 0,
        Rank::Veteran => 1,
        Rank::Ace => 2,
    }
}

/// The rank that a kill count earns: 3 kills make a veteran, 6 an ace.
pub open spec fn earned_level(kills: nat) -> nat {
    if kills >= 6 {
        2
    } else if kills >= 3 {
        1
    } else {
        0
    }
}

/// Kills credited for bringing down a fighter of the given tier.
pub open spec fn kill_value(enemy: Threats) -> nat {
    match enemy {
        Threats::Mk1 => 1,
        Threats::Mk2 => 2,
        Threats::Mk3 => 3,
        Threats::NoThreat => 0,
    }
}

#[derive(Debug)]
pub struct Pilot {
    pub name: String,
    pub kills: u64,
    pub rank: Rank,
    pub status: PilotStatus,
    pub injury_timer: u64,
}

impl Clone for Pilot {
    fn clone(&self) -> (r: Pilot)
        ensures
            r == *self,
    {
        Pilot {
            name: self.name.clone(),
            kills: self.kills,
            rank: self.rank,
            status: self.status,
            injury_timer: self.injury_timer,
        }
    }
}

impl Default for Pilot {
    fn default() -> (r: Pilot)
        ensures
            r.name@ == "Pilot"@,
            r.kills == 0,
            r.rank == Rank::Rookie,
            r.status == PilotStatus::Normal,
            r.injury_timer == 0,
    {
        Pilot {
            name: String::from_str("Pilot"),
            kills: 0,
            rank: Rank::Rookie,
            status: PilotStatus::Normal,
            injury_timer: 0,
        }
    }
}

/// A pilot with its injury cleared.
pub open spec fn recovered(p: Pilot) -> Pilot {
    Pilot { status: PilotStatus::Normal, injury_timer: 0, ..p }
}

/// A pilot after one tick of the sick bay: an injured pilot recovers at
/// once in an upgraded, fully working sick bay, after 1, 2 or 3 ticks in
/// one at 100%, 66% or 33%, and dies in an inoperable one. Other pilots are
/// left alone.
pub open spec fn healed(p: Pilot, sick_bay: SubSystem) -> Pilot {
    if p.status != PilotStatus::Injured {
        p
    } else {
        match sick_bay.status {
            Status::Inoperable => Pilot { status: PilotStatus::Kia, injury_timer: 0, ..p },
            Status::Normal if sick_bay.upgrade || p.injury_timer > 0 => recovered(p),
            Status::Serviceable if p.injury_timer > 1 => recovered(p),
            Status::BarelyFunctioning if p.injury_timer > 2 => recovered(p),
            _ => Pilot { injury_timer: sat_inc(p.injury_timer), ..p },
        }
    }
}

/// `n + 1`, held at the largest `u64`.
pub open spec fn sat_inc(n: u64) -> u64 {
    if n == u64::MAX {
        n
    } else {
        (n + 1) as u64
    }
}

/// `n + k`, held at the largest `u64`.
pub open spec fn sat_add(n: u64, k: nat) -> u64 {
    if n + k > u64::MAX {
        u64::MAX
    } else {
        (n + k) as u64
    }
}

/// A pilot credited with a kill of the given tier.
pub open spec fn credited(p: Pilot, enemy: Threats) -> Pilot {
    Pilot { kills: sat_add(p.kills, kill_value(enemy)), ..p }
}

/// A pilot promoted to the rank its kills have earned: ace from 6 kills,
/// a rookie becomes a veteran from 3. A rank is only ever raised.
pub open spec fn promoted(p: Pilot) -> Pilot {
    if p.kills >= 6 {
        Pilot { rank: Rank::Ace, ..p }
    } else if p.kills >= 3 && p.rank == Rank::Rookie {
        Pilot { rank: Rank::Veteran, ..p }
    } else {
        p
    }
}

impl Pilot {
    /// Credits the pilot with a kill of the given tier: 1, 2 or 3 kills.
    pub fn mark_kill(&mut self, enemy: &Threats)
        ensures
            *final(self) == credited(*old(self), *enemy),
    {
        match enemy {
            Threats::Mk1 => self.kills = self.kills.saturating_add(1),
            Threats::Mk2 => self.kills = self.kills.saturating_add(2),
            Threats::Mk3 => self.kills = self.kills.saturating_add(3),
            Threats::NoThreat => {},
        }
    }

    /// Promotes the pilot to the rank its kills have earned.
    pub fn rank_up(&mut self)
        ensures
            *final(self) == promoted(*old(self)),
            rank_level(final(self).rank) >= rank_level(old(self).rank),
            final(self).kills >= 6 ==> final(self).rank == Rank::Ace,
            3 <= final(self).kills < 6 ==> final(self).rank != Rank::Rookie,
    {
        if self.kills >= 6 {
            self.rank = Rank::Ace;
        } else if self.kills >= 3 && self.rank == Rank::Rookie {
            self.rank = Rank::Veteran;
        }
    }

    /// One tick of the sick bay for this pilot.
    pub fn heal(&mut self, sick_bay: &SubSystem)
        ensures
            *final(self) == healed(*old(self), *sick_bay),
    {
        if self.status == PilotStatus::Injured {
            match sick_bay.status {
                Status::Normal => {
                    if sick_bay.upgrade || self.injury_timer > 0 {
                        self.status = PilotStatus::Normal;
                        self.injury_timer = 0;
                        return;
                    }
                },
                Status::Serviceable => {
                    if self.injury_timer > 1 {
                        self.status = PilotStatus::Normal;
                        self.injury_timer = 0;
                        return;
                    }
                },
                Status::BarelyFunctioning => {
                    if self.injury_timer > 2 {
                        self.status = PilotStatus::Normal;
                        self.injury_timer = 0;
                        return;
                    }
                },
                Status::Inoperable => {
                    self.status = PilotStatus::Kia;
                    self.injury_timer = 0;
                    return;
                },
            }
            self.injury_timer = self.injury_timer.saturating_add(1);
        }
    }
}

/// A rank never falls as kills come in: crediting a kill and then
/// promoting gives a rank at least as high, an ace from 6 kills and at least
/// a veteran from 3. A pilot whose rank matched its kills is a veteran
/// from 3 to 5 kills.
pub proof fn rank_never_decreases(p: Pilot, enemy: Threats)
    ensures
        ({
            let q = promoted(credited(p, enemy));
            &&& rank_level(q.rank) >= rank_level(p.rank)
            &&& q.kills >= p.kills
            &&& q.kills >= 6 ==> q.rank == Rank::Ace
            &&& 3 <= q.kills < 6 ==> q.rank != Rank::Rookie
            &&& rank_level(p.rank) <= earned_level(p.kills as nat) ==> {
                &&& rank_level(q.rank) <= earned_level(q.kills as nat)
                &&& 3 <= q.kills < 6 ==> q.rank == Rank::Veteran
            }
        }),
{
}

/// One line per pilot of the honor roll: the name, a space, the kills.
pub fn honor_roll_to_list(roll: &[Pilot]) -> (r: Vec<String>)
    ensures
        r@.len() == roll@.len(),
        forall|i: int|
            0 <= i < roll@.len() ==> #[trigger] r@[i]@ == roll@[i].name@ + " "@ + decimal_text(
                roll@[i].kills as nat,
            ),
{
    let mut honor_list: Vec<String> = Vec::new();
    let mut i: usize = 0;
    while i < roll.len()
        invariant
            i <= roll@.len(),
            honor_list@.len() == i,
            forall|j: int|
                0 <= j < i ==> #[trigger] honor_list@[j]@ == roll@[j].name@ + " "@ + decimal_text(
                    roll@[j].kills as nat,
                ),
        decreases roll@.len() - i,
    {
        let line = roll[i].name.clone().concat(" ").concat(decimal(roll[i].kills).as_str());
        honor_list.push(line);
        i = i + 1;
    }
    honor_list
}

/// Copies each roster pilot into the scout of the same slot.
pub fn update_pilot_info(app: &mut Expedition)
    requires
        old(app).wf(),
    ensures
        final(app).wf(),
        *final(app) == (Expedition { scouts: final(app).scouts, ..*old(app) }),
        final(app).scouts@.len() == 6,
        forall|i: int|
            0 <= i < 6 ==> #[trigger] final(app).scouts@[i] == (Scout {
                pilot: old(app).pilots@[i],
                ..old(app).scouts@[i]
            }),
{
    let ghost e0 = *app;
    let mut i: usize = 0;
    while i < 6
        invariant
            e0.wf(),
            i <= 6,
            *app == (Expedition { scouts: app.scouts, ..e0 }),
            app.scouts@.len() == 6,
            forall|j: int|
                0 <= j < 6 ==> #[trigger] app.scouts@[j] == if j < i {
                    Scout { pilot: e0.pilots@[j], ..e0.scouts@[j] }
                } else {
                    e0.scouts@[j]
                },
        decreases 6 - i,
    {
        let pilot = app.pilots[i].clone();
        app.scouts[i].pilot = pilot;
        i = i + 1;
    }
}

} // verus!
