use vstd::prelude::*;

use crate::text::{spells, spells_word};

verus! {

/// The full system configuration that a GPU mode stands for: which driver
/// stack is loaded, whether the discrete device is on the bus, and which
/// display-server configuration is active.
#[derive(Debug, Clone, Copy, PartialEq, Eq, Structural)]
pub enum GfxVendors {
    Nvidia,
    Hybrid,
    Compute,
    Vfio,
    Integrated,
}

/// What the user has to do before a requested mode takes effect.
#[derive(Debug, Clone, Copy, PartialEq, Eq, Structural)]
pub enum GfxRequiredUserAction {
    /// The mode is applied at once, within the running session.
    Immediate,
    /// The mode is applied once every graphical session has ended.
    Logout,
    /// The mode takes effect after a reboot.
    Reboot,
    /// Refused: the laptop must be switched to `Integrated` first.
    Integrated,
}

/// Modes that can be entered and left without ending the graphical session.
pub open spec fn is_session_safe(m: GfxVendors) -> bool {
    m == GfxVendors::Integrated || m == GfxVendors::Vfio || m == GfxVendors::Compute
}

/// Modes in which the discrete GPU drives a display stack.
pub open spec fn is_dgpu_display(m: GfxVendors) -> bool {
    m == GfxVendors::Nvidia || m == GfxVendors::Hybrid
}

/// Modes that take the discrete GPU away from the display stack while it stays
/// on the bus.
pub open spec fn is_passthrough(m: GfxVendors) -> bool {
    m == GfxVendors::Compute || m == GfxVendors::Vfio
}

/// The action that a switch from `current` to `target` requires.
pub open spec fn required_action(current: GfxVendors, target: GfxVendors) -> GfxRequiredUserAction {
    if is_session_safe(current) && is_session_safe(target) {
        GfxRequiredUserAction::Immediate
    } else if is_dgpu_display(current) && is_passthrough(target) {
        GfxRequiredUserAction::Integrated
    } else {
        GfxRequiredUserAction::Logout
    }
}

/// The name of a mode.
pub open spec fn mode_name(m: GfxVendors) -> &'static str {
    match m {
        GfxVendors::Nvidia => "nvidia",
        GfxVendors::Hybrid => "hybrid",
        GfxVendors::Compute => "compute",
        GfxVendors::Vfio => "vfio",
        GfxVendors::Integrated => "integrated",
    }
}

/// The mode that `s` names, ignoring ASCII case.
pub open spec fn mode_named(s: Seq<char>) -> Option<GfxVendors> {
    if spells(s, "nvidia"@) {
        Some(GfxVendors::Nvidia)
    } else if spells(s, "hybrid"@) {
        Some(GfxVendors::Hybrid)
    } else if spells(s, "compute"@) {
        Some(GfxVendors::Compute)
    } else if spells(s, "vfio"@) {
        Some(GfxVendors::Vfio)
    } else if spells(s, "integrated"@) {
        Some(GfxVendors::Integrated)
    } else {
        None
    }
}

impl GfxVendors {
    /// Parses a mode name, in any ASCII case.
    pub fn from_name(s: &str) -> (r: Option<GfxVendors>)
        ensures
            r == mode_named(s@),
    {
        if spells_word(s, "nvidia") {
            Some(GfxVendors::Nvidia)
        } else if spells_word(s, "hybrid") {
            Some(GfxVendors::Hybrid)
        } else if spells_word(s, "compute") {
            Some(GfxVendors::Compute)
        } else if spells_word(s, "vfio") {
            Some(GfxVendors::Vfio)
        } else if spells_word(s, "integrated") {
            Some(GfxVendors::Integrated)
        } else {
            None
        }
    }

    pub fn is_session_safe(&self) -> (r: bool)
        ensures
            r == is_session_safe(*self),
    {
        matches!(self, GfxVendors::Integrated | GfxVendors::Vfio | GfxVendors::Compute)
    }

    pub fn is_dgpu_display(&self) -> (r: bool)
        ensures
            r == is_dgpu_display(*self),
    {
        matches!(self, GfxVendors::Nvidia | GfxVendors::Hybrid)
    }

    pub fn is_passthrough(&self) -> (r: bool)
        ensures
            r == is_passthrough(*self),
    {
        matches!(self, GfxVendors::Compute | GfxVendors::Vfio)
    }

    /// The mode's name as the daemon reports it.
    pub fn name(&self) -> (r: &'static str)
        ensures
            r@ == mode_name(*self)@,
    {
        match self {
            GfxVendors::Nvidia => "nvidia",
            GfxVendors::Hybrid => "hybrid",
            GfxVendors::Compute => "compute",
            GfxVendors::Vfio => "vfio",
            GfxVendors::Integrated => "integrated",
        }
    }
}

/// Decides what a switch from `current` to `target` requires: switching among
/// `Integrated`, `Vfio` and `Compute` needs nothing, leaving `Nvidia` or
/// `Hybrid` for `Compute` or `Vfio` is refused until `Integrated` is reached,
/// and every other switch waits for a logout.
pub fn required_user_action(current: GfxVendors, target: GfxVendors) -> (r: GfxRequiredUserAction)
    ensures
        r == required_action(current, target),
{
    if current.is_session_safe() && target.is_session_safe() {
        GfxRequiredUserAction::Immediate
    } else if current.is_dgpu_display() && target.is_passthrough() {
        GfxRequiredUserAction::Integrated
    } else {
        GfxRequiredUserAction::Logout
    }
}

} // verus!
