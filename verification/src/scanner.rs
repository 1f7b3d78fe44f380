//! The targeting scanner: which hostile ships sit in the player's
//! forward scan cone.
//!
//! Each tick the set is recomputed in full from the player's position
//! and facing: a ship is a fire target exactly when the angle between
//! the forward axis and the line to the ship is at most 45 degrees and
//! its distance is strictly below the scan radius.  The boundary is
//! inclusive on angle and exclusive on distance.  No target state
//! survives from the previous tick.

use vstd::prelude::*;

use crate::math::{spec_cone_xy, spec_dist_sq, Vec2I, COORD_LIMIT};
use crate::spatial::radius_sq;

verus! {

/// A non-player ship as the scanner sees it, and the mark the scan
/// writes back.
#[derive(Clone, Copy, PartialEq, Eq, Structural, Debug)]
pub struct ShipContact {
    pub id: u64,
    pub pos: Vec2I,
    pub fire_target: bool,
}

/// The scanner's verdict for one ship: inside the 45-degree forward
/// cone, and strictly closer than the scan radius.
pub open spec fn spec_in_scan(player_pos: Vec2I, forward: Vec2I, radius: i64, ship_pos: Vec2I) -> bool {
    &&& spec_cone_xy(
        forward.x as int,
        forward.y as int,
        ship_pos.x - player_pos.x,
        ship_pos.y - player_pos.y,
    )
    &&& spec_dist_sq(player_pos, ship_pos) < radius * radius
}

/// Recompute every ship's fire-target mark from the player's position
/// `player_pos`, facing `forward` and scan radius `radius`.
pub fn scan_surroundings(
    ships: &mut Vec<ShipContact>,
    player_pos: Vec2I,
    forward: Vec2I,
    radius: i64,
)
    requires
        player_pos.in_bounds(),
        forward.in_bounds(),
        0 <= radius <= COORD_LIMIT,
        forall|i: int| 0 <= i < old(ships)@.len() ==> (#[trigger] old(ships)@[i]).pos.in_bounds(),
    ensures
        final(ships)@.len() == old(ships)@.len(),
        forall|i: int| 0 <= i < old(ships)@.len() ==> {
            let s = #[trigger] final(ships)@[i];
            &&& s.id == old(ships)@[i].id
            &&& s.pos == old(ships)@[i].pos
            &&& s.fire_target == spec_in_scan(player_pos, forward, radius, old(ships)@[i].pos)
        },
{
    let r2 = radius_sq(radius);
    let n = ships.len();
    let mut i: usize = 0;
    while i < n
        invariant
            n == old(ships)@.len(),
            ships@.len() == n,
            i <= n,
            player_pos.in_bounds(),
            forward.in_bounds(),
            0 <= radius <= COORD_LIMIT,
            r2 == radius * radius,
            forall|j: int| 0 <= j < n ==> (#[trigger] old(ships)@[j]).pos.in_bounds(),
            forall|j: int| i <= j < n ==> #[trigger] ships@[j] == old(ships)@[j],
            forall|j: int| 0 <= j < i ==> {
                let s = #[trigger] ships@[j];
                &&& s.id == old(ships)@[j].id
                &&& s.pos == old(ships)@[j].pos
                &&& s.fire_target == spec_in_scan(player_pos, forward, radius, old(ships)@[j].pos)
            },
        decreases n - i,
    {
        let mut s = ships[i];
        let rel = s.pos.minus(player_pos);
        let in_cone = crate::math::within_cone(forward, rel);
        let d2 = player_pos.dist_sq(s.pos);
        s.fire_target = in_cone && d2 < r2;
        ships.set(i, s);
        i = i + 1;
    }
}

} // verus!
