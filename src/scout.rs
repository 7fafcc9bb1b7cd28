//! Repairs of scout craft.

use vstd::prelude::*;
use vstd::string::*;
use crate::expedition::Expedition;
use crate::ship::{Scout, Ship, ShipDamage};

verus! {

/// Parts that a scout repair costs: nothing for a half damaged craft, 1
/// for an inoperable one, 6 to rebuild a destroyed one.
pub open spec fn scout_repair_cost(d: ShipDamage) -> nat {
    match d {
        ShipDamage::Normal => 0,
        ShipDamage::Half => 0,
        ShipDamage::Inoperable => 1,
        ShipDamage::Destroyed => 6,
    }
}

/// Repairs the scout in the given hangar slot to full, paying its cost in
/// parts. With too few parts, or no such slot, nothing changes but the
/// narration.
pub fn scout_repair(app: &mut Expedition, position: usize)
    requires
        old(app).wf(),
    ensures
        final(app).wf(),
        position >= 6 ==> *final(app) == (Expedition { game_text: final(app).game_text, ..*old(app) })
            && final(app).game_text@ == "Select a scout to repair."@,
        position < 6 && old(app).parts < scout_repair_cost(
            old(app).scouts@[position as int].ship.damage,
        ) ==> *final(app) == (Expedition { game_text: final(app).game_text, ..*old(app) })
            && final(app).game_text@ == "Not enough parts to make this repair!"@,
        position < 6 && old(app).parts >= scout_repair_cost(
            old(app).scouts@[position as int].ship.damage,
        ) ==> {
            let s = old(app).scouts@[position as int];
            *final(app) == Expedition {
                parts: (old(app).parts - scout_repair_cost(s.ship.damage)) as u64,
                scouts: final(app).scouts,
                ..*old(app)
            } && final(app).scouts@ == old(app).scouts@.update(
                position as int,
                Scout { ship: Ship { damage: ShipDamage::Normal, ..s.ship }, ..s },
            )
        },
{
    if position >= app.scouts.len() {
        app.game_text = String::from_str("Select a scout to repair.");
        return ;
    }
    let cost: u64 = match app.scouts[position].ship.damage {
        ShipDamage::Normal => 0,
        ShipDamage::Half => 0,
        ShipDamage::Inoperable => 1,
        ShipDamage::Destroyed => 6,
    };
    if app.parts < cost {
        app.game_text = String::from_str("Not enough parts to make this repair!");
        return ;
    }
    app.parts = app.parts - cost;
    app.scouts[position].ship.damage = ShipDamage::Normal;
}

} // verus!
