use vstd::prelude::*;

use crate::ctrl_charge::ChargeSupportedFunctions;
use crate::ctrl_fan_cpu::FanCpuSupportedFunctions;

verus! {

/// Whether an AniMe matrix display was found.
#[derive(Debug, Clone, Copy, PartialEq, Eq, Structural)]
pub struct AniMeSupportedFunctions(pub bool);

/// What the keyboard lighting supports.
#[derive(Debug, Clone, Copy, PartialEq, Eq, Structural)]
pub struct LedSupportedFunctions {
    pub brightness_set: bool,
    pub multizone_led_mode: bool,
    pub per_key_led_mode: bool,
}

/// What the firmware platform controls support.
#[derive(Debug, Clone, Copy, PartialEq, Eq, Structural)]
pub struct RogBiosSupportedFunctions {
    pub post_sound_toggle: bool,
    pub dedicated_gfx_toggle: bool,
}

/// Everything the laptop supports, as reported to clients.
#[derive(Debug, Clone, Copy, PartialEq, Eq, Structural)]
pub struct SupportedFunctions {
    pub anime_ctrl: AniMeSupportedFunctions,
    pub charge_ctrl: ChargeSupportedFunctions,
    pub fan_cpu_ctrl: FanCpuSupportedFunctions,
    pub keyboard_led: LedSupportedFunctions,
    pub rog_bios_ctrl: RogBiosSupportedFunctions,
}

/// Which desktop notifications the control center shows.
#[derive(Debug, Clone, Copy, PartialEq, Eq, Structural)]
pub struct EnabledNotifications {
    pub receive_power_states: bool,
    pub receive_notify_gfx: bool,
    pub receive_notify_gfx_status: bool,
}

impl EnabledNotifications {
    /// No notifications.
    pub fn new() -> (r: EnabledNotifications)
        ensures
            !r.receive_power_states && !r.receive_notify_gfx && !r.receive_notify_gfx_status,
    {
        EnabledNotifications { receive_power_states: false, receive_notify_gfx: false, receive_notify_gfx_status: false }
    }
}

} // verus!
