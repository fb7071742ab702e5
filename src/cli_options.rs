use vstd::prelude::*;

pub use crate::aura_cli::LedBrightness;
use crate::aura_cli::{
    MultiColourSpeed, MultiZone, SingleColour, SingleColourSpeed, SingleSpeed, SingleSpeedDirection,
    TwoColourSpeed,
};
use crate::aura::{default_effect, AuraZone, Colour};

verus! {

/// A built-in mode with its settings, including the two multi-zone modes.
#[derive(Debug, Clone, Copy, PartialEq, Eq, Structural)]
pub enum SetAuraBuiltin {
    Static(SingleColour),
    Breathe(TwoColourSpeed),
    Strobe(SingleSpeed),
    Rainbow(SingleSpeedDirection),
    Star(TwoColourSpeed),
    Rain(SingleSpeed),
    Highlight(SingleColourSpeed),
    Laser(SingleColourSpeed),
    Ripple(SingleColourSpeed),
    Pulse(SingleColour),
    Comet(SingleColour),
    Flash(SingleColour),
    MultiStatic(MultiZone),
    MultiBreathe(MultiColourSpeed),
}

impl SetAuraBuiltin {
    /// A static effect in the default colour.
    pub fn new() -> (r: SetAuraBuiltin)
        ensures
            r == SetAuraBuiltin::Static(SingleColour { colour: default_effect().colour1, zone: AuraZone::Whole }),
    {
        SetAuraBuiltin::Static(SingleColour { colour: Colour { r: 166, g: 0, b: 0 }, zone: AuraZone::Whole })
    }
}

} // verus!
