//! Collision and damage resolution: the three proximity passes that
//! run each tick against the spatial index.
//!
//! Missiles explode against ships of the opposite side, rails clear
//! point-defense slugs out of the sky, and slugs knock down missiles
//! or graze the player.  Every query result is a snapshot read:
//! entity references may dangle, and a reference that resolves to
//! nothing is a no-op, never an error.

use vstd::prelude::*;

use crate::components::Side;
use crate::damage::DamageEvent;
use crate::events::SpawnVisualEvent;
use crate::math::Vec2I;
use crate::rng::sample_range;
use crate::spatial::{spec_query, SpatialEntry, SpatialHit, SpatialIndex};

verus! {

/// Radius of the missile-versus-ship proximity check, milli-units.
pub const MISSILE_HIT_RADIUS_MILLI: i64 = 10_000;

/// Radius of the slug-versus-missile/player check, milli-units.
pub const SLUG_HIT_RADIUS_MILLI: i64 = 2_000;

/// Chance in percent that a slug is destroyed by grazing the player.
pub const SLUG_DESTROY_PERCENT: i64 = 30;

/// Chance in percent that a slug grazing the player deals damage.
pub const SLUG_DAMAGE_PERCENT: i64 = 50;

/// A missile as the collision pass sees it.
#[derive(Clone, Copy, PartialEq, Eq, Structural, Debug)]
pub struct MissileAt {
    pub id: u64,
    pub pos: Vec2I,
    pub side: Side,
}

/// A ship's identity and side, for the opposite-side filter.
#[derive(Clone, Copy, PartialEq, Eq, Structural, Debug)]
pub struct ShipRec {
    pub id: u64,
    pub side: Side,
}

/// A rail projectile as the collision pass sees it.
#[derive(Clone, Copy, PartialEq, Eq, Structural, Debug)]
pub struct RailAt {
    pub id: u64,
    pub pos: Vec2I,
}

/// A point-defense slug as the collision pass sees it.
#[derive(Clone, Copy, PartialEq, Eq, Structural, Debug)]
pub struct SlugAt {
    pub id: u64,
    pub pos: Vec2I,
}

/// The side of the first ship entry with the given identifier, if any
/// is still listed: the liveness check behind every stale reference.
pub open spec fn spec_ship_side(ships: Seq<ShipRec>, id: u64) -> Option<Side>
    decreases ships.len(),
{
    if ships.len() == 0 {
        None
    } else if ships[0].id == id {
        Some(ships[0].side)
    } else {
        spec_ship_side(ships.drop_first(), id)
    }
}

/// Look up a ship's side by identifier.
pub fn ship_side(ships: &Vec<ShipRec>, id: u64) -> (r: Option<Side>)
    ensures
        r == spec_ship_side(ships@, id),
{
    let n = ships.len();
    let mut i: usize = 0;
    proof {
        assert(ships@.skip(0) =~= ships@);
    }
    while i < n
        invariant
            n == ships@.len(),
            i <= n,
            spec_ship_side(ships@, id) == spec_ship_side(ships@.skip(i as int), id),
        decreases n - i,
    {
        proof {
            assert(ships@.skip(i as int)[0] == ships@[i as int]);
            assert(ships@.skip(i as int).drop_first() =~= ships@.skip(i + 1int));
        }
        if ships[i].id == id {
            return Some(ships[i].side);
        }
        i = i + 1;
    }
    proof {
        assert(ships@.skip(n as int) =~= Seq::<ShipRec>::empty());
    }
    None
}

/// The first query hit that resolves to a live ship of a side other
/// than `side`: the ship an opposite-side missile detonates against.
/// Dangling references and same-side ships are passed over.
pub open spec fn spec_first_opposed(hits: Seq<SpatialHit>, ships: Seq<ShipRec>, side: Side) -> Option<
    u64,
>
    decreases hits.len(),
{
    if hits.len() == 0 {
        None
    } else {
        match hits[0].entity {
            Some(e) => match spec_ship_side(ships, e) {
                Some(s) => if s != side {
                    Some(e)
                } else {
                    spec_first_opposed(hits.drop_first(), ships, side)
                },
                None => spec_first_opposed(hits.drop_first(), ships, side),
            },
            None => spec_first_opposed(hits.drop_first(), ships, side),
        }
    }
}

/// Scan query hits for the first opposite-side ship.
pub fn first_opposed_contact(hits: &Vec<SpatialHit>, ships: &Vec<ShipRec>, side: Side) -> (r:
    Option<u64>)
    ensures
        r == spec_first_opposed(hits@, ships@, side),
{
    let n = hits.len();
    let mut i: usize = 0;
    proof {
        assert(hits@.skip(0) =~= hits@);
    }
    while i < n
        invariant
            n == hits@.len(),
            i <= n,
            spec_first_opposed(hits@, ships@, side) == spec_first_opposed(
                hits@.skip(i as int),
                ships@,
                side,
            ),
        decreases n - i,
    {
        proof {
            assert(hits@.skip(i as int)[0] == hits@[i as int]);
            assert(hits@.skip(i as int).drop_first() =~= hits@.skip(i + 1int));
        }
        match hits[i].entity {
            Some(e) => {
                match ship_side(ships, e) {
                    Some(s) => {
                        if s != side {
                            return Some(e);
                        }
                    },
                    None => {},
                }
            },
            None => {},
        }
        i = i + 1;
    }
    proof {
        assert(hits@.skip(n as int) =~= Seq::<SpatialHit>::empty());
    }
    None
}

/// The ship (if any) a missile detonates against this tick.
pub open spec fn spec_missile_hit(m: MissileAt, ships: Seq<ShipRec>, snapshot: Seq<SpatialEntry>) -> Option<
    u64,
> {
    spec_first_opposed(spec_query(snapshot, m.pos, MISSILE_HIT_RADIUS_MILLI), ships, m.side)
}

/// The whole missile pass: per missile in order, a detonation emits
/// one damage point against the struck ship, destroys the missile,
/// and queues an explosion at the missile's position.  At most one
/// damage event is emitted per missile per tick.
pub open spec fn spec_missile_pass(
    missiles: Seq<MissileAt>,
    ships: Seq<ShipRec>,
    snapshot: Seq<SpatialEntry>,
) -> (Seq<DamageEvent>, Seq<u64>, Seq<SpawnVisualEvent>)
    decreases missiles.len(),
{
    if missiles.len() == 0 {
        (Seq::empty(), Seq::empty(), Seq::empty())
    } else {
        let prior = spec_missile_pass(missiles.drop_last(), ships, snapshot);
        let m = missiles.last();
        match spec_missile_hit(m, ships, snapshot) {
            Some(t) => (
                prior.0.push(DamageEvent { target: t, amount: 1 }),
                prior.1.push(m.id),
                prior.2.push(SpawnVisualEvent::Explosion(m.pos)),
            ),
            None => prior,
        }
    }
}

/// Resolve missile-versus-ship collisions for one tick, exactly per
/// `spec_missile_pass`: the emitted damage events, the destroyed
/// missiles, and the queued explosions, in missile order.
pub fn missile_explode_against_ship(
    missiles: &Vec<MissileAt>,
    ships: &Vec<ShipRec>,
    index: &SpatialIndex,
) -> (out: (Vec<DamageEvent>, Vec<u64>, Vec<SpawnVisualEvent>))
    requires
        index.wf(),
        forall|i: int| 0 <= i < missiles@.len() ==> (#[trigger] missiles@[i]).pos.in_bounds(),
    ensures
        out.0@ == spec_missile_pass(missiles@, ships@, index.snapshot@).0,
        out.1@ == spec_missile_pass(missiles@, ships@, index.snapshot@).1,
        out.2@ == spec_missile_pass(missiles@, ships@, index.snapshot@).2,
{
    let mut events: Vec<DamageEvent> = Vec::new();
    let mut destroys: Vec<u64> = Vec::new();
    let mut visuals: Vec<SpawnVisualEvent> = Vec::new();
    let n = missiles.len();
    let mut i: usize = 0;
    while i < n
        invariant
            n == missiles@.len(),
            i <= n,
            index.wf(),
            forall|j: int| 0 <= j < n ==> (#[trigger] missiles@[j]).pos.in_bounds(),
            events@ == spec_missile_pass(missiles@.take(i as int), ships@, index.snapshot@).0,
            destroys@ == spec_missile_pass(missiles@.take(i as int), ships@, index.snapshot@).1,
            visuals@ == spec_missile_pass(missiles@.take(i as int), ships@, index.snapshot@).2,
        decreases n - i,
    {
        let m = missiles[i];
        let hits = index.within_distance(m.pos, MISSILE_HIT_RADIUS_MILLI);
        match first_opposed_contact(&hits, ships, m.side) {
            Some(t) => {
                events.push(DamageEvent { target: t, amount: 1 });
                destroys.push(m.id);
                visuals.push(SpawnVisualEvent::Explosion(m.pos));
            },
            None => {},
        }
        proof {
            assert(missiles@.take(i + 1int).drop_last() =~= missiles@.take(i as int));
            assert(missiles@.take(i + 1int).last() == missiles@[i as int]);
        }
        i = i + 1;
    }
    proof {
        assert(missiles@.take(n as int) =~= missiles@);
    }
    (events, destroys, visuals)
}

/// What `spec_first_opposed` returns always is a listed ship of a
/// side other than the scanning missile's.
pub proof fn lemma_first_opposed_opposes(hits: Seq<SpatialHit>, ships: Seq<ShipRec>, side: Side)
    ensures
        match spec_first_opposed(hits, ships, side) {
            Some(t) => spec_ship_side(ships, t) is Some && spec_ship_side(ships, t) != Some(side),
            None => true,
        },
    decreases hits.len(),
{
    if hits.len() > 0 {
        lemma_first_opposed_opposes(hits.drop_first(), ships, side);
    }
}

/// Same-side immunity: if every missile on the board fights for
/// `side`, then no damage event the missile pass emits targets a ship
/// of `side` — entities never damage same-side entities.
pub proof fn lemma_same_side_immunity(
    missiles: Seq<MissileAt>,
    ships: Seq<ShipRec>,
    snapshot: Seq<SpatialEntry>,
    side: Side,
)
    requires
        forall|i: int| 0 <= i < missiles.len() ==> (#[trigger] missiles[i]).side == side,
    ensures
        forall|k: int|
            0 <= k < spec_missile_pass(missiles, ships, snapshot).0.len() ==> {
                let t = (#[trigger] spec_missile_pass(missiles, ships, snapshot).0[k]).target;
                spec_ship_side(ships, t) is Some && spec_ship_side(ships, t) != Some(side)
            },
    decreases missiles.len(),
{
    if missiles.len() > 0 {
        let prefix = missiles.drop_last();
        assert(forall|i: int| 0 <= i < prefix.len() ==> (#[trigger] prefix[i]).side == side);
        lemma_same_side_immunity(prefix, ships, snapshot, side);
        let m = missiles.last();
        lemma_first_opposed_opposes(
            spec_query(snapshot, m.pos, MISSILE_HIT_RADIUS_MILLI),
            ships,
            m.side,
        );
    }
}

/// At most one damage event is emitted per missile per tick: however
/// many ships sit inside the blast radius, the pass emits no more
/// events than there are missiles.
pub proof fn lemma_one_hit_per_missile(
    missiles: Seq<MissileAt>,
    ships: Seq<ShipRec>,
    snapshot: Seq<SpatialEntry>,
)
    ensures
        spec_missile_pass(missiles, ships, snapshot).0.len() <= missiles.len(),
    decreases missiles.len(),
{
    if missiles.len() > 0 {
        lemma_one_hit_per_missile(missiles.drop_last(), ships, snapshot);
    }
}

/// Whether an identifier is a member of a list.
pub open spec fn spec_id_listed(ids: Seq<u64>, id: u64) -> bool {
    ids.contains(id)
}

/// The first query hit that resolves to a member of `ids`: the slug a
/// rail clears, or the missile a slug knocks down.
pub open spec fn spec_first_member(hits: Seq<SpatialHit>, ids: Seq<u64>) -> Option<u64>
    decreases hits.len(),
{
    if hits.len() == 0 {
        None
    } else {
        match hits[0].entity {
            Some(e) => if ids.contains(e) {
                Some(e)
            } else {
                spec_first_member(hits.drop_first(), ids)
            },
            None => spec_first_member(hits.drop_first(), ids),
        }
    }
}

/// Scan query hits for the first member of `ids`.
pub fn first_member_contact(hits: &Vec<SpatialHit>, ids: &Vec<u64>) -> (r: Option<u64>)
    ensures
        r == spec_first_member(hits@, ids@),
{
    let n = hits.len();
    let mut i: usize = 0;
    proof {
        assert(hits@.skip(0) =~= hits@);
    }
    while i < n
        invariant
            n == hits@.len(),
            i <= n,
            spec_first_member(hits@, ids@) == spec_first_member(hits@.skip(i as int), ids@),
        decreases n - i,
    {
        proof {
            assert(hits@.skip(i as int)[0] == hits@[i as int]);
            assert(hits@.skip(i as int).drop_first() =~= hits@.skip(i + 1int));
        }
        match hits[i].entity {
            Some(e) => {
                if crate::guidance::contains_id(ids, e) {
                    return Some(e);
                }
            },
            None => {},
        }
        i = i + 1;
    }
    proof {
        assert(hits@.skip(n as int) =~= Seq::<SpatialHit>::empty());
    }
    None
}

/// The whole rail pass: per rail in order, the first slug found
/// within the railgun range is destroyed and one smoke puff is queued
/// at the rail's own position; the scan then halts for that rail even
/// if another slug is equally close.  Rails themselves survive.
pub open spec fn spec_rail_pass(
    rails: Seq<RailAt>,
    slugs: Seq<u64>,
    snapshot: Seq<SpatialEntry>,
    range: i64,
) -> (Seq<u64>, Seq<SpawnVisualEvent>)
    decreases rails.len(),
{
    if rails.len() == 0 {
        (Seq::empty(), Seq::empty())
    } else {
        let prior = spec_rail_pass(rails.drop_last(), slugs, snapshot, range);
        let r = rails.last();
        match spec_first_member(spec_query(snapshot, r.pos, range), slugs) {
            Some(slug) => (
                prior.0.push(slug),
                prior.1.push(
                    SpawnVisualEvent::Smoke {
                        origin: r.pos,
                        rotation_millideg: 0i64,
                        scale_milli: 1000i64,
                    },
                ),
            ),
            None => prior,
        }
    }
}

/// Resolve rail-versus-slug collisions for one tick, exactly per
/// `spec_rail_pass`.  The check is friendly-fire-agnostic: side is
/// not consulted for this pair.
pub fn rail_collisions(
    rails: &Vec<RailAt>,
    slugs: &Vec<u64>,
    index: &SpatialIndex,
    railgun_range: i64,
) -> (out: (Vec<u64>, Vec<SpawnVisualEvent>))
    requires
        index.wf(),
        0 <= railgun_range <= crate::math::COORD_LIMIT,
        forall|i: int| 0 <= i < rails@.len() ==> (#[trigger] rails@[i]).pos.in_bounds(),
    ensures
        out.0@ == spec_rail_pass(rails@, slugs@, index.snapshot@, railgun_range).0,
        out.1@ == spec_rail_pass(rails@, slugs@, index.snapshot@, railgun_range).1,
{
    let mut destroys: Vec<u64> = Vec::new();
    let mut visuals: Vec<SpawnVisualEvent> = Vec::new();
    let n = rails.len();
    let mut i: usize = 0;
    while i < n
        invariant
            n == rails@.len(),
            i <= n,
            index.wf(),
            0 <= railgun_range <= crate::math::COORD_LIMIT,
            forall|j: int| 0 <= j < n ==> (#[trigger] rails@[j]).pos.in_bounds(),
            destroys@ == spec_rail_pass(rails@.take(i as int), slugs@, index.snapshot@, railgun_range).0,
            visuals@ == spec_rail_pass(rails@.take(i as int), slugs@, index.snapshot@, railgun_range).1,
        decreases n - i,
    {
        let r = rails[i];
        let hits = index.within_distance(r.pos, railgun_range);
        match first_member_contact(&hits, slugs) {
            Some(slug) => {
                destroys.push(slug);
                visuals.push(SpawnVisualEvent::default_smoke(r.pos));
            },
            None => {},
        }
        proof {
            assert(rails@.take(i + 1int).drop_last() =~= rails@.take(i as int));
            assert(rails@.take(i + 1int).last() == rails@[i as int]);
        }
        i = i + 1;
    }
    proof {
        assert(rails@.take(n as int) =~= rails@);
    }
    (destroys, visuals)
}

/// Whether some slug on the board carries the given identifier.
pub open spec fn spec_has_slug_id(slugs: Seq<SlugAt>, id: u64) -> bool {
    exists|j: int| 0 <= j < slugs.len() && (#[trigger] slugs[j]).id == id
}

/// What one slug's scan of its query hits comes to, given the graze
/// draws it consumes: the damage events in scan order, the missile it
/// knocked down (if any), whether the slug itself dies, the smoke it
/// leaves, and how many draw pairs the scan consumed.
pub struct SlugScan {
    pub events: Seq<DamageEvent>,
    pub dead_missile: Option<u64>,
    pub slug_destroyed: bool,
    pub visuals: Seq<SpawnVisualEvent>,
    pub rolls_used: int,
}

/// Every graze draw pair lies in the percent band.
pub open spec fn spec_rolls_in_range(rolls: Seq<(i64, i64)>) -> bool {
    forall|k: int| 0 <= k < rolls.len() ==> {
        let r = #[trigger] rolls[k];
        0 <= r.0 < 100 && 0 <= r.1 < 100
    }
}

/// One slug's scan of its query hits, in order.  The first hit that
/// resolves to a listed missile ends the scan: smoke at the slug's
/// position, the missile dead, the slug dead — all deterministic.  A
/// hit on the player before that queues smoke and consumes one draw
/// pair: the slug's destroyed flag is set to `roll < 30` and one
/// damage point lands exactly when `roll < 50`; the scan goes on, so
/// a later write overrides the flag.  Dangling and foreign references
/// are passed over.
pub open spec fn spec_slug_scan(
    hits: Seq<SpatialHit>,
    missiles: Seq<u64>,
    player: Option<u64>,
    slug_pos: Vec2I,
    rolls: Seq<(i64, i64)>,
) -> SlugScan
    decreases hits.len(),
{
    if hits.len() == 0 {
        SlugScan {
            events: Seq::empty(),
            dead_missile: None,
            slug_destroyed: false,
            visuals: Seq::empty(),
            rolls_used: 0,
        }
    } else {
        let smoke = SpawnVisualEvent::Smoke {
            origin: slug_pos,
            rotation_millideg: 0i64,
            scale_milli: 1000i64,
        };
        match hits[0].entity {
            Some(e) => if missiles.contains(e) {
                SlugScan {
                    events: Seq::empty(),
                    dead_missile: Some(e),
                    slug_destroyed: true,
                    visuals: seq![smoke],
                    rolls_used: 0,
                }
            } else if player == Some(e) {
                let destroy = rolls.len() > 0 && rolls[0].0 < SLUG_DESTROY_PERCENT;
                let damage = rolls.len() > 0 && rolls[0].1 < SLUG_DAMAGE_PERCENT;
                let rest = spec_slug_scan(
                    hits.drop_first(),
                    missiles,
                    player,
                    slug_pos,
                    rolls.drop_first(),
                );
                SlugScan {
                    events: (if damage {
                        seq![DamageEvent { target: e, amount: 1u32 }]
                    } else {
                        Seq::empty()
                    }) + rest.events,
                    dead_missile: rest.dead_missile,
                    slug_destroyed: if rest.dead_missile is Some || rest.rolls_used > 0 {
                        rest.slug_destroyed
                    } else {
                        destroy
                    },
                    visuals: seq![smoke] + rest.visuals,
                    rolls_used: 1 + rest.rolls_used,
                }
            } else {
                spec_slug_scan(hits.drop_first(), missiles, player, slug_pos, rolls)
            },
            None => spec_slug_scan(hits.drop_first(), missiles, player, slug_pos, rolls),
        }
    }
}

/// The whole slug pass, slugs in order, each scan consuming its draw
/// pairs from the front of `rolls`.
pub struct PdcPass {
    pub events: Seq<DamageEvent>,
    pub dead_missiles: Seq<u64>,
    pub dead_slugs: Seq<u64>,
    pub visuals: Seq<SpawnVisualEvent>,
    pub rolls_used: int,
}

/// Fold `spec_slug_scan` over the slugs in order, threading the draw
/// pairs.
pub open spec fn spec_pdc_pass(
    slugs: Seq<SlugAt>,
    missiles: Seq<u64>,
    player: Option<u64>,
    snapshot: Seq<SpatialEntry>,
    rolls: Seq<(i64, i64)>,
) -> PdcPass
    decreases slugs.len(),
{
    if slugs.len() == 0 {
        PdcPass {
            events: Seq::empty(),
            dead_missiles: Seq::empty(),
            dead_slugs: Seq::empty(),
            visuals: Seq::empty(),
            rolls_used: 0,
        }
    } else {
        let first = spec_slug_scan(
            spec_query(snapshot, slugs[0].pos, SLUG_HIT_RADIUS_MILLI),
            missiles,
            player,
            slugs[0].pos,
            rolls,
        );
        let rest = spec_pdc_pass(
            slugs.drop_first(),
            missiles,
            player,
            snapshot,
            rolls.skip(first.rolls_used),
        );
        PdcPass {
            events: first.events + rest.events,
            dead_missiles: (match first.dead_missile {
                Some(m) => seq![m],
                None => Seq::empty(),
            }) + rest.dead_missiles,
            dead_slugs: (if first.slug_destroyed {
                seq![slugs[0].id]
            } else {
                Seq::empty()
            }) + rest.dead_slugs,
            visuals: first.visuals + rest.visuals,
            rolls_used: first.rolls_used + rest.rolls_used,
        }
    }
}

/// The slug pass's outputs are exactly the fold of the scans over the
/// given draw pairs, which all lie in the percent band and are all
/// consumed.
pub open spec fn spec_pdc_outcome(
    slugs: Seq<SlugAt>,
    missiles: Seq<u64>,
    player: Option<u64>,
    snapshot: Seq<SpatialEntry>,
    events: Seq<DamageEvent>,
    dead_missiles: Seq<u64>,
    dead_slugs: Seq<u64>,
    visuals: Seq<SpawnVisualEvent>,
    rolls: Seq<(i64, i64)>,
) -> bool {
    let pass = spec_pdc_pass(slugs, missiles, player, snapshot, rolls);
    &&& spec_rolls_in_range(rolls)
    &&& rolls.len() == pass.rolls_used
    &&& events == pass.events
    &&& dead_missiles == pass.dead_missiles
    &&& dead_slugs == pass.dead_slugs
    &&& visuals == pass.visuals
}

/// A scan that consumed its whole draw list gives the same outcome
/// when unneeded draws are appended.
proof fn lemma_slug_scan_extend(
    hits: Seq<SpatialHit>,
    missiles: Seq<u64>,
    player: Option<u64>,
    slug_pos: Vec2I,
    rolls: Seq<(i64, i64)>,
    extra: Seq<(i64, i64)>,
)
    requires
        spec_slug_scan(hits, missiles, player, slug_pos, rolls).rolls_used == rolls.len(),
    ensures
        spec_slug_scan(hits, missiles, player, slug_pos, rolls + extra) == spec_slug_scan(
            hits,
            missiles,
            player,
            slug_pos,
            rolls,
        ),
    decreases hits.len(),
{
    if hits.len() > 0 {
        match hits[0].entity {
            Some(e) => {
                if missiles.contains(e) {
                } else if player == Some(e) {
                    lemma_slug_scan_bounds(
                        hits.drop_first(),
                        missiles,
                        player,
                        slug_pos,
                        rolls.drop_first(),
                    );
                    assert(rolls.len() >= 1);
                    assert((rolls + extra)[0] == rolls[0]);
                    assert((rolls + extra).drop_first() =~= rolls.drop_first() + extra);
                    lemma_slug_scan_extend(
                        hits.drop_first(),
                        missiles,
                        player,
                        slug_pos,
                        rolls.drop_first(),
                        extra,
                    );
                } else {
                    lemma_slug_scan_extend(hits.drop_first(), missiles, player, slug_pos, rolls, extra);
                }
            },
            None => {
                lemma_slug_scan_extend(hits.drop_first(), missiles, player, slug_pos, rolls, extra);
            },
        }
    }
}

/// Pointwise facts of one scan, whatever the draws: every event
/// targets the player with amount one (and none exists without a
/// player), a knocked-down missile is a listed missile, every smoke
/// puff sits at the slug's position, and the draws consumed never
/// exceed the hits scanned.
proof fn lemma_slug_scan_bounds(
    hits: Seq<SpatialHit>,
    missiles: Seq<u64>,
    player: Option<u64>,
    slug_pos: Vec2I,
    rolls: Seq<(i64, i64)>,
)
    ensures
        ({
            let scan = spec_slug_scan(hits, missiles, player, slug_pos, rolls);
            &&& forall|k: int| 0 <= k < scan.events.len() ==> {
                let ev = #[trigger] scan.events[k];
                ev.amount == 1 && player == Some(ev.target)
            }
            &&& match scan.dead_missile {
                Some(m) => missiles.contains(m),
                None => true,
            }
            &&& forall|k: int| 0 <= k < scan.visuals.len() ==> #[trigger] scan.visuals[k]
                == SpawnVisualEvent::Smoke {
                origin: slug_pos,
                rotation_millideg: 0i64,
                scale_milli: 1000i64,
            }
            &&& player is None ==> scan.events.len() == 0
            &&& 0 <= scan.rolls_used <= hits.len()
        }),
    decreases hits.len(),
{
    if hits.len() > 0 {
        match hits[0].entity {
            Some(e) => {
                if missiles.contains(e) {
                } else if player == Some(e) {
                    lemma_slug_scan_bounds(
                        hits.drop_first(),
                        missiles,
                        player,
                        slug_pos,
                        rolls.drop_first(),
                    );
                } else {
                    lemma_slug_scan_bounds(hits.drop_first(), missiles, player, slug_pos, rolls);
                }
            },
            None => {
                lemma_slug_scan_bounds(hits.drop_first(), missiles, player, slug_pos, rolls);
            },
        }
    }
}

/// Pointwise facts of the whole pass, whatever the draws: lifted from
/// `lemma_slug_scan_bounds`, with every destroyed slug a listed slug.
proof fn lemma_pdc_pass_bounds(
    slugs: Seq<SlugAt>,
    missiles: Seq<u64>,
    player: Option<u64>,
    snapshot: Seq<SpatialEntry>,
    rolls: Seq<(i64, i64)>,
)
    ensures
        ({
            let pass = spec_pdc_pass(slugs, missiles, player, snapshot, rolls);
            &&& forall|k: int| 0 <= k < pass.events.len() ==> {
                let ev = #[trigger] pass.events[k];
                ev.amount == 1 && player == Some(ev.target)
            }
            &&& forall|k: int| 0 <= k < pass.dead_missiles.len() ==> missiles.contains(
                #[trigger] pass.dead_missiles[k],
            )
            &&& forall|k: int| 0 <= k < pass.dead_slugs.len() ==> spec_has_slug_id(
                slugs,
                #[trigger] pass.dead_slugs[k],
            )
            &&& player is None ==> pass.events.len() == 0
        }),
    decreases slugs.len(),
{
    if slugs.len() > 0 {
        let hits = spec_query(snapshot, slugs[0].pos, SLUG_HIT_RADIUS_MILLI);
        let first = spec_slug_scan(hits, missiles, player, slugs[0].pos, rolls);
        lemma_slug_scan_bounds(hits, missiles, player, slugs[0].pos, rolls);
        let rest_rolls = rolls.skip(first.rolls_used);
        lemma_pdc_pass_bounds(slugs.drop_first(), missiles, player, snapshot, rest_rolls);
        let rest = spec_pdc_pass(slugs.drop_first(), missiles, player, snapshot, rest_rolls);
        assert(spec_has_slug_id(slugs, slugs[0].id));
        assert forall|k: int| 0 <= k < rest.dead_slugs.len() implies spec_has_slug_id(
            slugs,
            #[trigger] rest.dead_slugs[k],
        ) by {
            let dropped = slugs.drop_first();
            assert(spec_has_slug_id(dropped, rest.dead_slugs[k]));
            let j = choose|j: int| 0 <= j < dropped.len() && (#[trigger] dropped[j]).id
                == rest.dead_slugs[k];
            assert(slugs[j + 1] == dropped[j]);
        }
    }
}

/// The deterministic heart of a slug grazing the player: whether the
/// slug is destroyed (a draw under `SLUG_DESTROY_PERCENT`) and
/// whether one damage point lands (an independent draw under
/// `SLUG_DAMAGE_PERCENT`).  The two draws are independent, so all
/// four outcomes are possible.
pub fn pdc_encounter(destroy_roll: i64, damage_roll: i64) -> (r: (bool, bool))
    requires
        0 <= destroy_roll < 100,
        0 <= damage_roll < 100,
    ensures
        r.0 == (destroy_roll < SLUG_DESTROY_PERCENT),
        r.1 == (damage_roll < SLUG_DAMAGE_PERCENT),
{
    (destroy_roll < SLUG_DESTROY_PERCENT, damage_roll < SLUG_DAMAGE_PERCENT)
}

/// Scan one slug's hits from `idx` on, drawing graze rolls as player
/// encounters come up, exactly per `spec_slug_scan`; the draws made
/// come back with the outcome.
fn scan_slug(
    hits: &Vec<SpatialHit>,
    idx: usize,
    missiles: &Vec<u64>,
    player: Option<u64>,
    slug_pos: Vec2I,
) -> (out: (Vec<DamageEvent>, Option<u64>, bool, Vec<SpawnVisualEvent>, Vec<(i64, i64)>))
    requires
        idx <= hits@.len(),
    ensures
        ({
            let scan = spec_slug_scan(hits@.skip(idx as int), missiles@, player, slug_pos, out.4@);
            &&& spec_rolls_in_range(out.4@)
            &&& out.4@.len() == scan.rolls_used
            &&& out.0@ == scan.events
            &&& out.1 == scan.dead_missile
            &&& out.2 == scan.slug_destroyed
            &&& out.3@ == scan.visuals
        }),
    decreases hits@.len() - idx,
{
    if idx >= hits.len() {
        proof {
            assert(hits@.skip(idx as int) =~= Seq::<SpatialHit>::empty());
        }
        return (Vec::new(), None, false, Vec::new(), Vec::new());
    }
    proof {
        assert(hits@.skip(idx as int)[0] == hits@[idx as int]);
        assert(hits@.skip(idx as int).drop_first() =~= hits@.skip(idx + 1int));
    }
    let entity = hits[idx].entity;
    match entity {
        Some(e) => {
            if crate::guidance::contains_id(missiles, e) {
                let mut visuals: Vec<SpawnVisualEvent> = Vec::new();
                visuals.push(SpawnVisualEvent::default_smoke(slug_pos));
                return (Vec::new(), Some(e), true, visuals, Vec::new());
            }
            let is_player = match player {
                Some(p) => p == e,
                None => false,
            };
            if is_player {
                let destroy_roll = sample_range(0, 100);
                let damage_roll = sample_range(0, 100);
                let (destroy, damage) = pdc_encounter(destroy_roll, damage_roll);
                let (mut rest_events, rest_dead, rest_flag, mut rest_visuals, mut rest_rolls) =
                    scan_slug(hits, idx + 1, missiles, player, slug_pos);
                let rest_consumed = rest_rolls.len() > 0;
                let mut events: Vec<DamageEvent> = Vec::new();
                if damage {
                    events.push(DamageEvent { target: e, amount: 1 });
                }
                events.append(&mut rest_events);
                let mut visuals: Vec<SpawnVisualEvent> = Vec::new();
                visuals.push(SpawnVisualEvent::default_smoke(slug_pos));
                visuals.append(&mut rest_visuals);
                let mut rolls: Vec<(i64, i64)> = Vec::new();
                rolls.push((destroy_roll, damage_roll));
                let ghost rr = rest_rolls@;
                rolls.append(&mut rest_rolls);
                let flag = if rest_dead.is_some() || rest_consumed {
                    rest_flag
                } else {
                    destroy
                };
                proof {
                    assert(rolls@ =~= seq![(destroy_roll, damage_roll)] + rr);
                    assert(rolls@[0] == (destroy_roll, damage_roll));
                    assert(rolls@.drop_first() =~= rr);
                }
                return (events, rest_dead, flag, visuals, rolls);
            }
            scan_slug(hits, idx + 1, missiles, player, slug_pos)
        },
        None => scan_slug(hits, idx + 1, missiles, player, slug_pos),
    }
}

/// Run the slug pass from slug `idx` on, exactly per `spec_pdc_pass`
/// over the draws made along the way.
fn pdc_pass_from(
    slugs: &Vec<SlugAt>,
    idx: usize,
    missiles: &Vec<u64>,
    player: Option<u64>,
    index: &SpatialIndex,
) -> (out: (Vec<DamageEvent>, Vec<u64>, Vec<u64>, Vec<SpawnVisualEvent>, Vec<(i64, i64)>))
    requires
        index.wf(),
        idx <= slugs@.len(),
        forall|i: int| 0 <= i < slugs@.len() ==> (#[trigger] slugs@[i]).pos.in_bounds(),
    ensures
        spec_pdc_outcome(
            slugs@.skip(idx as int),
            missiles@,
            player,
            index.snapshot@,
            out.0@,
            out.1@,
            out.2@,
            out.3@,
            out.4@,
        ),
    decreases slugs@.len() - idx,
{
    if idx >= slugs.len() {
        proof {
            assert(slugs@.skip(idx as int) =~= Seq::<SlugAt>::empty());
        }
        return (Vec::new(), Vec::new(), Vec::new(), Vec::new(), Vec::new());
    }
    proof {
        assert(slugs@.skip(idx as int)[0] == slugs@[idx as int]);
        assert(slugs@.skip(idx as int).drop_first() =~= slugs@.skip(idx + 1int));
    }
    let slug = slugs[idx];
    let hits = index.within_distance(slug.pos, SLUG_HIT_RADIUS_MILLI);
    proof {
        assert(hits@.skip(0) =~= hits@);
    }
    let (mut events, dead_missile, slug_destroyed, mut visuals, mut rolls) =
        scan_slug(&hits, 0, missiles, player, slug.pos);
    let (mut rest_events, mut rest_dead_missiles, mut rest_dead_slugs, mut rest_visuals, mut rest_rolls) =
        pdc_pass_from(slugs, idx + 1, missiles, player, index);
    let ghost first_rolls = rolls@;
    events.append(&mut rest_events);
    let mut dead_missiles: Vec<u64> = Vec::new();
    match dead_missile {
        Some(m) => {
            dead_missiles.push(m);
        },
        None => {},
    }
    dead_missiles.append(&mut rest_dead_missiles);
    let mut dead_slugs: Vec<u64> = Vec::new();
    if slug_destroyed {
        dead_slugs.push(slug.id);
    }
    dead_slugs.append(&mut rest_dead_slugs);
    visuals.append(&mut rest_visuals);
    let ghost tail_rolls = rest_rolls@;
    rolls.append(&mut rest_rolls);
    proof {
        lemma_slug_scan_extend(hits@, missiles@, player, slug.pos, first_rolls, tail_rolls);
        assert(rolls@ =~= first_rolls + tail_rolls);
        let first = spec_slug_scan(hits@, missiles@, player, slug.pos, rolls@);
        assert(first == spec_slug_scan(hits@, missiles@, player, slug.pos, first_rolls));
        assert(rolls@.skip(first.rolls_used) =~= tail_rolls);
    }
    (events, dead_missiles, dead_slugs, visuals, rolls)
}

/// Resolve slug-versus-missile and slug-versus-player collisions for
/// one tick: the emitted damage events, the destroyed missiles, the
/// destroyed slugs, and the queued smoke.
///
/// Per slug, the query hits are scanned in order: the first missile
/// found is destroyed (with smoke at the slug's position) and the
/// slug is marked destroyed, ending that slug's scan — all of it
/// deterministic; a hit on the player instead queues smoke and draws
/// the `pdc_encounter` outcomes, and the scan goes on.  The outputs
/// are exactly `spec_pdc_pass` folded over the draws that were made
/// (the existential witness), so only the grazes' percent draws are
/// left open; and whatever they come to, every damage event targets
/// the player with amount one, every destroyed missile was listed,
/// every destroyed slug was on the board, and without a player no
/// damage is dealt at all.
pub fn pdc_collisions(
    slugs: &Vec<SlugAt>,
    missiles: &Vec<u64>,
    player: Option<u64>,
    index: &SpatialIndex,
) -> (out: (Vec<DamageEvent>, Vec<u64>, Vec<u64>, Vec<SpawnVisualEvent>))
    requires
        index.wf(),
        forall|i: int| 0 <= i < slugs@.len() ==> (#[trigger] slugs@[i]).pos.in_bounds(),
    ensures
        exists|rolls: Seq<(i64, i64)>| #[trigger] spec_pdc_outcome(
            slugs@,
            missiles@,
            player,
            index.snapshot@,
            out.0@,
            out.1@,
            out.2@,
            out.3@,
            rolls,
        ),
        forall|k: int| 0 <= k < out.0@.len() ==> {
            let ev = #[trigger] out.0@[k];
            ev.amount == 1 && player == Some(ev.target)
        },
        forall|k: int| 0 <= k < out.1@.len() ==> missiles@.contains(#[trigger] out.1@[k]),
        forall|k: int| 0 <= k < out.2@.len() ==> spec_has_slug_id(slugs@, #[trigger] out.2@[k]),
        player is None ==> out.0@.len() == 0,
{
    let (events, dead_missiles, dead_slugs, visuals, rolls) =
        pdc_pass_from(slugs, 0, missiles, player, index);
    let result = (events, dead_missiles, dead_slugs, visuals);
    proof {
        assert(slugs@.skip(0) =~= slugs@);
        assert(spec_pdc_outcome(
            slugs@,
            missiles@,
            player,
            index.snapshot@,
            result.0@,
            result.1@,
            result.2@,
            result.3@,
            rolls@,
        ));
        lemma_pdc_pass_bounds(slugs@, missiles@, player, index.snapshot@, rolls@);
    }
    result
}

} // verus!
