use vstd::prelude::*;
use vstd::string::*;

use crate::text::{spells, spells_word};
use crate::aura::{default_effect, AuraEffect, AuraModeNum, AuraZone, Colour, Direction, Speed};

verus! {

/// Power options of the older aura devices.
#[derive(Debug, Clone, Copy, PartialEq, Eq, Structural)]
pub struct LedPowerCommand1 {
    /// Whether the LEDs are lit while awake.
    pub awake: Option<bool>,
    /// With `awake`: the keyboard follows it.
    pub keyboard: bool,
    /// With `awake`: the light bar follows it.
    pub lightbar: bool,
    /// Whether the boot animation plays.
    pub boot: Option<bool>,
    /// Whether the suspend animation plays.
    pub sleep: Option<bool>,
}

/// Power options of the newer aura devices, zone by zone.
#[derive(Debug, Clone, Copy, PartialEq, Eq, Structural)]
pub struct LedPowerCommand2 {
    pub command: Option<SetAuraZoneEnabled>,
}

/// A zone and its power states.
#[derive(Debug, Clone, Copy, PartialEq, Eq, Structural)]
pub enum SetAuraZoneEnabled {
    Keyboard(AuraPowerStates),
    Logo(AuraPowerStates),
    Lightbar(AuraPowerStates),
    Lid(AuraPowerStates),
    RearGlow(AuraPowerStates),
}

/// When a zone is lit.
#[derive(Debug, Clone, Copy, PartialEq, Eq, Structural)]
pub struct AuraPowerStates {
    pub boot: bool,
    pub awake: bool,
    pub sleep: bool,
    pub shutdown: bool,
}

/// A keyboard backlight brightness level, if one was given.
#[derive(Debug, Clone, Copy, PartialEq, Eq, Structural)]
pub struct LedBrightness {
    level: Option<u8>,
}

/// The level that a brightness word names: off 0, low 1, med 2, high 3.
pub open spec fn brightness_of(s: Seq<char>) -> Option<u8> {
    if spells(s, "off"@) {
        Some(0u8)
    } else if spells(s, "low"@) {
        Some(1u8)
    } else if spells(s, "med"@) {
        Some(2u8)
    } else if spells(s, "high"@) {
        Some(3u8)
    } else {
        None
    }
}

/// The name that a stored level is shown as.
pub open spec fn level_name(level: Option<u8>) -> Seq<char> {
    match level {
        Some(0u8) => "low"@,
        Some(1u8) => "med"@,
        Some(2u8) => "high"@,
        _ => "unknown"@,
    }
}

impl LedBrightness {
    pub fn new(level: Option<u8>) -> (r: Self)
        ensures
            r.spec_level() == level,
    {
        LedBrightness { level }
    }

    pub closed spec fn spec_level(&self) -> Option<u8> {
        self.level
    }

    pub fn level(&self) -> (r: Option<u8>)
        ensures
            r == self.spec_level(),
    {
        self.level
    }

    /// Parses "off", "low", "med" or "high", in any ASCII case; any other
    /// word is refused with `None`.
    pub fn parse(s: &str) -> (r: Option<LedBrightness>)
        ensures
            match brightness_of(s@) {
                Some(l) => r matches Some(b) && b.spec_level() == Some(l),
                None => r is None,
            },
    {
        if spells_word(s, "off") {
            Some(LedBrightness { level: Some(0) })
        } else if spells_word(s, "low") {
            Some(LedBrightness { level: Some(1) })
        } else if spells_word(s, "med") {
            Some(LedBrightness { level: Some(2) })
        } else if spells_word(s, "high") {
            Some(LedBrightness { level: Some(3) })
        } else {
            None
        }
    }

    /// The name the level is shown as: levels 0, 1 and 2 read "low", "med"
    /// and "high", anything else "unknown".
    pub fn to_string(&self) -> (r: String)
        ensures
            r@ == level_name(self.spec_level()),
    {
        let s = match self.level {
            Some(0u8) => "low",
            Some(1u8) => "med",
            Some(2u8) => "high",
            _ => "unknown",
        };
        String::from_str(s)
    }
}

/// Effect speed, for one zone.
#[derive(Debug, Clone, Copy, PartialEq, Eq, Structural)]
pub struct SingleSpeed {
    pub speed: Speed,
    pub zone: AuraZone,
}

/// Effect speed and direction, for one zone.
#[derive(Debug, Clone, Copy, PartialEq, Eq, Structural)]
pub struct SingleSpeedDirection {
    pub direction: Direction,
    pub speed: Speed,
    pub zone: AuraZone,
}

/// Effect colour, for one zone.
#[derive(Debug, Clone, Copy, PartialEq, Eq, Structural)]
pub struct SingleColour {
    pub colour: Colour,
    pub zone: AuraZone,
}

/// Effect colour and speed, for one zone.
#[derive(Debug, Clone, Copy, PartialEq, Eq, Structural)]
pub struct SingleColourSpeed {
    pub colour: Colour,
    pub speed: Speed,
    pub zone: AuraZone,
}

/// Two effect colours and a speed, for one zone.
#[derive(Debug, Clone, Copy, PartialEq, Eq, Structural)]
pub struct TwoColourSpeed {
    pub colour: Colour,
    pub colour2: Colour,
    pub speed: Speed,
    pub zone: AuraZone,
}

/// One colour for each of the four keyboard zones.
#[derive(Debug, Clone, Copy, PartialEq, Eq, Structural)]
pub struct MultiZone {
    pub colour1: Colour,
    pub colour2: Colour,
    pub colour3: Colour,
    pub colour4: Colour,
}

/// One colour for each of the four keyboard zones, and a speed.
#[derive(Debug, Clone, Copy, PartialEq, Eq, Structural)]
pub struct MultiColourSpeed {
    pub colour1: Colour,
    pub colour2: Colour,
    pub colour3: Colour,
    pub colour4: Colour,
    pub speed: Speed,
}

impl SingleColour {
    pub fn to_effect(&self) -> (r: AuraEffect)
        ensures
            r == (AuraEffect { colour1: self.colour, zone: self.zone, ..default_effect() }),
    {
        AuraEffect { colour1: self.colour, zone: self.zone, ..AuraEffect::new() }
    }
}

impl SingleSpeed {
    pub fn to_effect(&self) -> (r: AuraEffect)
        ensures
            r == (AuraEffect { speed: self.speed, zone: self.zone, ..default_effect() }),
    {
        AuraEffect { speed: self.speed, zone: self.zone, ..AuraEffect::new() }
    }
}

impl SingleColourSpeed {
    pub fn to_effect(&self) -> (r: AuraEffect)
        ensures
            r == (AuraEffect { colour1: self.colour, speed: self.speed, zone: self.zone, ..default_effect() }),
    {
        AuraEffect { colour1: self.colour, speed: self.speed, zone: self.zone, ..AuraEffect::new() }
    }
}

impl TwoColourSpeed {
    pub fn to_effect(&self) -> (r: AuraEffect)
        ensures
            r == (AuraEffect { colour1: self.colour, colour2: self.colour2, zone: self.zone, ..default_effect() }),
    {
        AuraEffect { colour1: self.colour, colour2: self.colour2, zone: self.zone, ..AuraEffect::new() }
    }
}

impl SingleSpeedDirection {
    pub fn to_effect(&self) -> (r: AuraEffect)
        ensures
            r == (AuraEffect { speed: self.speed, direction: self.direction, zone: self.zone, ..default_effect() }),
    {
        AuraEffect { speed: self.speed, direction: self.direction, zone: self.zone, ..AuraEffect::new() }
    }
}

/// A built-in mode with its settings.
#[derive(Debug, Clone, Copy, PartialEq, Eq, Structural)]
pub enum SetAuraBuiltin {
    Static(SingleColour),
    Breathe(TwoColourSpeed),
    Strobe(SingleSpeed),
    Rainbow(SingleSpeedDirection),
    Stars(TwoColourSpeed),
    Rain(SingleSpeed),
    Highlight(SingleColourSpeed),
    Laser(SingleColourSpeed),
    Ripple(SingleColourSpeed),
    Pulse(SingleColour),
    Comet(SingleColour),
    Flash(SingleColour),
}

/// The effect that a built-in mode request sets: the settings it carries,
/// defaults for the rest, and the mode it names.
pub open spec fn builtin_effect(b: SetAuraBuiltin) -> AuraEffect {
    let d = default_effect();
    match b {
        SetAuraBuiltin::Static(x) => AuraEffect { mode: AuraModeNum::Static, colour1: x.colour, zone: x.zone, ..d },
        SetAuraBuiltin::Breathe(x) => AuraEffect {
            mode: AuraModeNum::Breathe,
            colour1: x.colour,
            colour2: x.colour2,
            zone: x.zone,
            ..d
        },
        SetAuraBuiltin::Strobe(x) => AuraEffect { mode: AuraModeNum::Strobe, speed: x.speed, zone: x.zone, ..d },
        SetAuraBuiltin::Rainbow(x) => AuraEffect {
            mode: AuraModeNum::Rainbow,
            speed: x.speed,
            direction: x.direction,
            zone: x.zone,
            ..d
        },
        SetAuraBuiltin::Stars(x) => AuraEffect {
            mode: AuraModeNum::Star,
            colour1: x.colour,
            colour2: x.colour2,
            zone: x.zone,
            ..d
        },
        SetAuraBuiltin::Rain(x) => AuraEffect { mode: AuraModeNum::Rain, speed: x.speed, zone: x.zone, ..d },
        SetAuraBuiltin::Highlight(x) => AuraEffect {
            mode: AuraModeNum::Highlight,
            colour1: x.colour,
            speed: x.speed,
            zone: x.zone,
            ..d
        },
        SetAuraBuiltin::Laser(x) => AuraEffect {
            mode: AuraModeNum::Laser,
            colour1: x.colour,
            speed: x.speed,
            zone: x.zone,
            ..d
        },
        SetAuraBuiltin::Ripple(x) => AuraEffect {
            mode: AuraModeNum::Ripple,
            colour1: x.colour,
            speed: x.speed,
            zone: x.zone,
            ..d
        },
        SetAuraBuiltin::Pulse(x) => AuraEffect { mode: AuraModeNum::Pulse, colour1: x.colour, zone: x.zone, ..d },
        SetAuraBuiltin::Comet(x) => AuraEffect { mode: AuraModeNum::Comet, colour1: x.colour, zone: x.zone, ..d },
        SetAuraBuiltin::Flash(x) => AuraEffect { mode: AuraModeNum::Flash, colour1: x.colour, zone: x.zone, ..d },
    }
}

impl SetAuraBuiltin {
    /// A static effect in the default colour.
    pub fn new() -> (r: SetAuraBuiltin)
        ensures
            r == SetAuraBuiltin::Static(SingleColour { colour: default_effect().colour1, zone: AuraZone::Whole }),
    {
        SetAuraBuiltin::Static(SingleColour { colour: Colour { r: 166, g: 0, b: 0 }, zone: AuraZone::Whole })
    }

    /// The effect that the request sets.
    pub fn to_effect(&self) -> (r: AuraEffect)
        ensures
            r == builtin_effect(*self),
    {
        match self {
            SetAuraBuiltin::Static(x) => {
                let mut data = x.to_effect();
                data.mode = AuraModeNum::Static;
                data
            },
            SetAuraBuiltin::Breathe(x) => {
                let mut data = x.to_effect();
                data.mode = AuraModeNum::Breathe;
                data
            },
            SetAuraBuiltin::Strobe(x) => {
                let mut data = x.to_effect();
                data.mode = AuraModeNum::Strobe;
                data
            },
            SetAuraBuiltin::Rainbow(x) => {
                let mut data = x.to_effect();
                data.mode = AuraModeNum::Rainbow;
                data
            },
            SetAuraBuiltin::Stars(x) => {
                let mut data = x.to_effect();
                data.mode = AuraModeNum::Star;
                data
            },
            SetAuraBuiltin::Rain(x) => {
                let mut data = x.to_effect();
                data.mode = AuraModeNum::Rain;
                data
            },
            SetAuraBuiltin::Highlight(x) => {
                let mut data = x.to_effect();
                data.mode = AuraModeNum::Highlight;
                data
            },
            SetAuraBuiltin::Laser(x) => {
                let mut data = x.to_effect();
                data.mode = AuraModeNum::Laser;
                data
            },
            SetAuraBuiltin::Ripple(x) => {
                let mut data = x.to_effect();
                data.mode = AuraModeNum::Ripple;
                data
            },
            SetAuraBuiltin::Pulse(x) => {
                let mut data = x.to_effect();
                data.mode = AuraModeNum::Pulse;
                data
            },
            SetAuraBuiltin::Comet(x) => {
                let mut data = x.to_effect();
                data.mode = AuraModeNum::Comet;
                data
            },
            SetAuraBuiltin::Flash(x) => {
                let mut data = x.to_effect();
                data.mode = AuraModeNum::Flash;
                data
            },
        }
    }
}

} // verus!
