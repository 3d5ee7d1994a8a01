//! The polled input snapshot the simulation consumes each tick.
//!
//! The caller reads the real devices and fills one snapshot per frame; the
//! simulation treats it as plain data. The aim vector is the pointer
//! position relative to the player, in milli-units; `aim_valid` is false
//! when no pointer position is available this frame.

use vstd::prelude::*;

verus! {

/// One frame's worth of input, already decoded into game intents.
#[derive(Clone, Copy, Debug, PartialEq, Eq, Structural)]
pub struct InputSnapshot {
    /// Movement keys held.
    pub move_up: bool,
    pub move_down: bool,
    pub move_left: bool,
    pub move_right: bool,
    /// Confirm / start key pressed.
    pub confirm: bool,
    /// Guide key pressed.
    pub guide_key: bool,
    /// Escape key pressed.
    pub escape: bool,
    /// Resume key pressed.
    pub resume: bool,
    /// Home key pressed.
    pub home: bool,
    /// Weapon-cycle keys just pressed.
    pub weapon_left: bool,
    pub weapon_right: bool,
    /// Upgrade-selection keys just pressed.
    pub pick_health_upgrade: bool,
    pub pick_attack_upgrade: bool,
    pub pick_speed_upgrade: bool,
    /// Ranged-fire button held.
    pub fire: bool,
    /// Whether a pointer position was available this frame.
    pub aim_valid: bool,
    /// Pointer position relative to the player, in milli-units.
    pub aim_x: i64,
    pub aim_y: i64,
}

impl InputSnapshot {
    /// A snapshot with nothing pressed and no pointer.
    pub fn idle() -> (i: InputSnapshot)
        ensures
            i == InputSnapshot::spec_idle(),
    {
        InputSnapshot {
            move_up: false,
            move_down: false,
            move_left: false,
            move_right: false,
            confirm: false,
            guide_key: false,
            escape: false,
            resume: false,
            home: false,
            weapon_left: false,
            weapon_right: false,
            pick_health_upgrade: false,
            pick_attack_upgrade: false,
            pick_speed_upgrade: false,
            fire: false,
            aim_valid: false,
            aim_x: 0,
            aim_y: 0,
        }
    }

    /// The all-idle snapshot.
    pub open spec fn spec_idle() -> InputSnapshot {
        InputSnapshot {
            move_up: false,
            move_down: false,
            move_left: false,
            move_right: false,
            confirm: false,
            guide_key: false,
            escape: false,
            resume: false,
            home: false,
            weapon_left: false,
            weapon_right: false,
            pick_health_upgrade: false,
            pick_attack_upgrade: false,
            pick_speed_upgrade: false,
            fire: false,
            aim_valid: false,
            aim_x: 0,
            aim_y: 0,
        }
    }
}

} // verus!
