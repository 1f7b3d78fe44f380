//! On-screen element decisions: visibility toggles and the player's
//! health bar.

use vstd::prelude::*;

use crate::damage::DamageEvent;
use crate::events::ToggleUI;

verus! {

/// The visibility a toggle command leaves an element with: an
/// explicit command sets it, the bare command flips it.
pub open spec fn spec_next_visibility(cur: bool, cmd: ToggleUI) -> bool {
    match cmd.0 {
        Some(v) => v,
        None => !cur,
    }
}

/// Apply one toggle command to an element's visibility.
pub fn show_ui_elements(cur: bool, cmd: ToggleUI) -> (r: bool)
    ensures
        r == spec_next_visibility(cur, cmd),
{
    match cmd.0 {
        Some(v) => v,
        None => !cur,
    }
}

/// Whether any queued damage event targets the player.
pub open spec fn spec_player_damaged(events: Seq<DamageEvent>, player: u64) -> bool {
    exists|k: int| 0 <= k < events.len() && (#[trigger] events[k]).target == player
}

/// Decide whether this tick's damage queue should pop the health bar
/// into view: it should exactly when the player was hit.
pub fn show_ui_on_damage(events: &Vec<DamageEvent>, player: u64) -> (r: Option<ToggleUI>)
    ensures
        spec_player_damaged(events@, player) ==> r == Some(ToggleUI(Some(true))),
        !spec_player_damaged(events@, player) ==> r is None,
{
    let n = events.len();
    let mut i: usize = 0;
    while i < n
        invariant
            n == events@.len(),
            i <= n,
            forall|k: int| 0 <= k < i ==> (#[trigger] events@[k]).target != player,
        decreases n - i,
    {
        if events[i].target == player {
            assert(spec_player_damaged(events@, player));
            return Some(ToggleUI::show());
        }
        i = i + 1;
    }
    None
}

/// The debug keys the simulation reacts to, one flag per key pressed
/// this tick.
#[derive(Clone, Copy, PartialEq, Eq, Structural, Debug)]
pub struct DebugKeys {
    pub toggle_debug: bool,
    pub toggle_hp_bar: bool,
    pub toggle_rumble: bool,
    pub toggle_gizmos: bool,
    pub reload_level: bool,
    pub hurt_player: bool,
}

/// Apply one tick of debug keys: flip the matching settings, report
/// whether the health bar should toggle and whether the level should
/// reload, and deal the player a random point or nine of self-test
/// damage on request.  Every outcome of the damage draw lies in
/// `[1, 10)`.
pub fn debug_input(
    settings: &mut crate::components::PlayerSettings,
    keys: DebugKeys,
    player: Option<u64>,
) -> (r: (Option<ToggleUI>, bool, Option<DamageEvent>))
    ensures
        final(settings).show_debug == (old(settings).show_debug != keys.toggle_debug),
        final(settings).use_rumble == (old(settings).use_rumble != keys.toggle_rumble),
        final(settings).show_gizmos == (old(settings).show_gizmos != keys.toggle_gizmos),
        final(settings).scan_radius == old(settings).scan_radius,
        final(settings).railgun_cooldown_ms == old(settings).railgun_cooldown_ms,
        final(settings).railgun_range == old(settings).railgun_range,
        final(settings).missile_cooldown_ms == old(settings).missile_cooldown_ms,
        final(settings).missile_fadeout_decay == old(settings).missile_fadeout_decay,
        final(settings).missile_count == old(settings).missile_count,
        final(settings).missile_angle_milli == old(settings).missile_angle_milli,
        final(settings).camera_speed_milli == old(settings).camera_speed_milli,
        final(settings).camera_offset == old(settings).camera_offset,
        final(settings).camera_deadzone == old(settings).camera_deadzone,
        final(settings).time_between_rumbles_ms == old(settings).time_between_rumbles_ms,
        r.0 == if keys.toggle_hp_bar {
            Some(ToggleUI(None))
        } else {
            None
        },
        r.1 == keys.reload_level,
        match r.2 {
            Some(ev) => {
                &&& keys.hurt_player
                &&& player == Some(ev.target)
                &&& 1 <= ev.amount < 10
            },
            None => !keys.hurt_player || player is None,
        },
{
    if keys.toggle_debug {
        settings.show_debug = !settings.show_debug;
    }
    if keys.toggle_rumble {
        settings.use_rumble = !settings.use_rumble;
    }
    if keys.toggle_gizmos {
        settings.show_gizmos = !settings.show_gizmos;
    }
    let toggle: Option<ToggleUI> = if keys.toggle_hp_bar {
        Some(ToggleUI::default())
    } else {
        None
    };
    let hurt: Option<DamageEvent> = match player {
        Some(p) if keys.hurt_player => {
            let amount = crate::rng::sample_range(1, 10);
            Some(DamageEvent { target: p, amount: amount as u32 })
        },
        _ => None,
    };
    (toggle, keys.reload_level, hurt)
}

/// Whether the `i`-th cell of the health bar lights up: the bar must
/// be visible and the player must have more than `i` hit points.
pub open spec fn spec_hp_cell_lit(current: u32, parent_visible: bool, i: nat) -> bool {
    parent_visible && current > i
}

/// Compute the lit state of every cell of an `n`-cell health bar.
pub fn render_player_health_ui(current: u32, parent_visible: bool, n: usize) -> (out: Vec<bool>)
    ensures
        out@.len() == n,
        forall|i: int| 0 <= i < n ==> #[trigger] out@[i] == spec_hp_cell_lit(
            current,
            parent_visible,
            i as nat,
        ),
{
    let mut out: Vec<bool> = Vec::new();
    let mut i: usize = 0;
    while i < n
        invariant
            i <= n,
            out@.len() == i,
            forall|j: int| 0 <= j < i ==> #[trigger] out@[j] == spec_hp_cell_lit(
                current,
                parent_visible,
                j as nat,
            ),
        decreases n - i,
    {
        out.push(parent_visible && (i as u64) < (current as u64));
        i = i + 1;
    }
    out
}

} // verus!
