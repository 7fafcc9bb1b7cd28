//! Enemy tiers and the fighters that each tier fields.

use vstd::prelude::*;

verus! {

/// Tier tag of an enemy craft; `NoThreat` marks an empty formation.
#[derive(Clone, Copy, Debug, PartialEq, Eq, Structural)]
pub enum Threats {
    NoThreat,
    Mk1,
    Mk2,
    Mk3,
}

/// The text shown for a tier.
pub open spec fn threat_label(t: Threats) -> Seq<char> {
    match t {
        Threats::NoThreat => "None"@,
        Threats::Mk1 => "MK1"@,
        Threats::Mk2 => "MK2"@,
        Threats::Mk3 => "MK3"@,
    }
}

impl Threats {
    /// The text shown for this tier.
    pub fn label(&self) -> (r: &'static str)
        ensures
            r@ == threat_label(*self),
    {
        match self {
            Threats::NoThreat => "None",
            Threats::Mk1 => "MK1",
            Threats::Mk2 => "MK2",
            Threats::Mk3 => "MK3",
        }
    }
}

/// Enemy fighter stats. `hp` and `fuel` only go down during a battle.
#[derive(Clone, Copy, Debug, PartialEq, Eq, Structural)]
pub struct Fighter {
    pub model: Threats,
    pub hp: u64,
    pub guns: u64,
    pub fuel: u64,
}

/// The fresh fighter of a tier: Mk1 {hp 2, guns 1, fuel 3}, Mk2 {hp 5,
/// guns 2, fuel 4}, Mk3 {hp 8, guns 4, fuel 5}.
pub open spec fn base_fighter(t: Threats) -> Fighter
    recommends
        t != Threats::NoThreat,
{
    match t {
        Threats::Mk1 => Fighter { model: Threats::Mk1, hp: 2, guns: 1, fuel: 3 },
        Threats::Mk2 => Fighter { model: Threats::Mk2, hp: 5, guns: 2, fuel: 4 },
        _ => Fighter { model: Threats::Mk3, hp: 8, guns: 4, fuel: 5 },
    }
}

/// The fighters of a formation, in order; `NoThreat` tags field nothing.
pub open spec fn fighters_of(s: Seq<Threats>) -> Seq<Fighter>
    decreases s.len(),
{
    if s.len() == 0 {
        Seq::empty()
    } else {
        let last = s.last();
        let rest = fighters_of(s.drop_last());
        if last == Threats::NoThreat {
            rest
        } else {
            rest.push(base_fighter(last))
        }
    }
}

impl Fighter {
    /// A fresh Mk1 fighter.
    pub fn mk1() -> (r: Fighter)
        ensures
            r == base_fighter(Threats::Mk1),
    {
        Fighter { model: Threats::Mk1, hp: 2, guns: 1, fuel: 3 }
    }

    /// A fresh Mk2 fighter.
    pub fn mk2() -> (r: Fighter)
        ensures
            r == base_fighter(Threats::Mk2),
    {
        Fighter { model: Threats::Mk2, hp: 5, guns: 2, fuel: 4 }
    }

    /// A fresh Mk3 fighter.
    pub fn mk3() -> (r: Fighter)
        ensures
            r == base_fighter(Threats::Mk3),
    {
        Fighter { model: Threats::Mk3, hp: 8, guns: 4, fuel: 5 }
    }
}

/// Expands a formation of tier tags into fighter records, in order.
pub fn threats_to_fighters(v: &[Threats]) -> (r: Vec<Fighter>)
    ensures
        r@ == fighters_of(v@),
{
    let mut fighters: Vec<Fighter> = Vec::new();
    let mut i: usize = 0;
    while i < v.len()
        invariant
            i <= v@.len(),
            fighters@ == fighters_of(v@.subrange(0, i as int)),
        decreases v@.len() - i,
    {
        let ghost prefix = v@.subrange(0, i as int + 1);
        assert(prefix.drop_last() =~= v@.subrange(0, i as int));
        match v[i] {
            Threats::NoThreat => {},
            Threats::Mk1 => fighters.push(Fighter::mk1()),
            Threats::Mk2 => fighters.push(Fighter::mk2()),
            Threats::Mk3 => fighters.push(Fighter::mk3()),
        }
        i = i + 1;
    }
    assert(v@.subrange(0, v@.len() as int) =~= v@);
    fighters
}

} // verus!
