use vstd::prelude::*;

use crate::aura_cli::SetAuraBuiltin;

verus! {

/// Aura mode selection: step to the next or previous mode, or set one.
#[derive(Debug, Clone, Copy, PartialEq, Eq, Structural)]
pub struct LedModeCommand {
    pub next_mode: bool,
    pub prev_mode: bool,
    pub command: Option<SetAuraBuiltin>,
}

/// The graphics command, which takes no options.
#[derive(Debug, Clone, Copy, PartialEq, Eq, Structural)]
pub struct GraphicsCommand {}

/// Platform options: POST sound, GPU MUX mode and panel overdrive.
#[derive(Debug, Clone, Copy, PartialEq, Eq, Structural)]
pub struct SysCommand {
    pub post_sound_set: Option<bool>,
    pub post_sound_get: bool,
    /// 0 selects the discrete GPU, 1 Optimus; a reboot is required.
    pub gpu_mux_mode_set: Option<u8>,
    pub gpu_mux_mode_get: bool,
    pub panel_overdrive_set: Option<bool>,
    pub panel_overdrive_get: bool,
}

} // verus!
