use vstd::prelude::*;

verus! {

/// An RGB colour.
#[derive(Debug, Clone, Copy, PartialEq, Eq, Structural)]
pub struct Colour {
    pub r: u8,
    pub g: u8,
    pub b: u8,
}

/// The speed of an animated effect.
#[derive(Debug, Clone, Copy, PartialEq, Eq, Structural)]
pub enum Speed {
    Low,
    Med,
    High,
}

/// The direction of a moving effect.
#[derive(Debug, Clone, Copy, PartialEq, Eq, Structural)]
pub enum Direction {
    Right,
    Left,
    Up,
    Down,
}

/// Where an effect applies: the whole keyboard, one of its four zones, the
/// logo or one half of the light bar.
#[derive(Debug, Clone, Copy, PartialEq, Eq, Structural)]
pub enum AuraZone {
    Whole,
    Key1,
    Key2,
    Key3,
    Key4,
    Logo,
    BarLeft,
    BarRight,
}

/// The built-in keyboard lighting modes.
#[derive(Debug, Clone, Copy, PartialEq, Eq, Structural)]
pub enum AuraModeNum {
    Static,
    Breathe,
    Strobe,
    Rainbow,
    Star,
    Rain,
    Highlight,
    Laser,
    Ripple,
    Pulse,
    Comet,
    Flash,
}

/// The byte that selects a built-in mode on the keyboard controller.
pub open spec fn mode_byte(m: AuraModeNum) -> u8 {
    match m {
        AuraModeNum::Static => 0,
        AuraModeNum::Breathe => 1,
        AuraModeNum::Strobe => 2,
        AuraModeNum::Rainbow => 3,
        AuraModeNum::Star => 4,
        AuraModeNum::Rain => 5,
        AuraModeNum::Highlight => 6,
        AuraModeNum::Laser => 7,
        AuraModeNum::Ripple => 8,
        AuraModeNum::Pulse => 10,
        AuraModeNum::Comet => 11,
        AuraModeNum::Flash => 12,
    }
}

/// The name of a built-in mode.
pub open spec fn aura_mode_name(m: AuraModeNum) -> &'static str {
    match m {
        AuraModeNum::Static => "Static",
        AuraModeNum::Breathe => "Breathe",
        AuraModeNum::Strobe => "Strobe",
        AuraModeNum::Rainbow => "Rainbow",
        AuraModeNum::Star => "Stars",
        AuraModeNum::Rain => "Rain",
        AuraModeNum::Highlight => "Highlight",
        AuraModeNum::Laser => "Laser",
        AuraModeNum::Ripple => "Ripple",
        AuraModeNum::Pulse => "Pulse",
        AuraModeNum::Comet => "Comet",
        AuraModeNum::Flash => "Flash",
    }
}

/// Different modes have different bytes.
pub proof fn lemma_mode_byte_injective(a: AuraModeNum, b: AuraModeNum)
    requires
        mode_byte(a) == mode_byte(b),
    ensures
        a == b,
{
}

impl AuraModeNum {
    /// The byte that selects the mode on the keyboard controller.
    pub fn to_byte(&self) -> (r: u8)
        ensures
            r == mode_byte(*self),
    {
        match self {
            AuraModeNum::Static => 0,
            AuraModeNum::Breathe => 1,
            AuraModeNum::Strobe => 2,
            AuraModeNum::Rainbow => 3,
            AuraModeNum::Star => 4,
            AuraModeNum::Rain => 5,
            AuraModeNum::Highlight => 6,
            AuraModeNum::Laser => 7,
            AuraModeNum::Ripple => 8,
            AuraModeNum::Pulse => 10,
            AuraModeNum::Comet => 11,
            AuraModeNum::Flash => 12,
        }
    }

    /// The mode selected by byte `b`; unknown bytes select `Static`.
    pub fn from_byte(b: u8) -> (r: AuraModeNum)
        ensures
            (exists|m: AuraModeNum| mode_byte(m) == b) ==> mode_byte(r) == b,
            !(exists|m: AuraModeNum| mode_byte(m) == b) ==> r == AuraModeNum::Static,
    {
        let r = match b {
            1 => AuraModeNum::Breathe,
            2 => AuraModeNum::Strobe,
            3 => AuraModeNum::Rainbow,
            4 => AuraModeNum::Star,
            5 => AuraModeNum::Rain,
            6 => AuraModeNum::Highlight,
            7 => AuraModeNum::Laser,
            8 => AuraModeNum::Ripple,
            10 => AuraModeNum::Pulse,
            11 => AuraModeNum::Comet,
            12 => AuraModeNum::Flash,
            _ => AuraModeNum::Static,
        };
        assert(!(exists|m: AuraModeNum| mode_byte(m) == b) ==> r == AuraModeNum::Static) by {
            if b == 1 || b == 2 || b == 3 || b == 4 || b == 5 || b == 6 || b == 7 || b == 8 || b == 10
                || b == 11 || b == 12 {
                assert(mode_byte(r) == b);
            }
        }
        r
    }

    /// The mode's name.
    pub fn name(&self) -> (r: &'static str)
        ensures
            r@ == aura_mode_name(*self)@,
    {
        match self {
            AuraModeNum::Static => "Static",
            AuraModeNum::Breathe => "Breathe",
            AuraModeNum::Strobe => "Strobe",
            AuraModeNum::Rainbow => "Rainbow",
            AuraModeNum::Star => "Stars",
            AuraModeNum::Rain => "Rain",
            AuraModeNum::Highlight => "Highlight",
            AuraModeNum::Laser => "Laser",
            AuraModeNum::Ripple => "Ripple",
            AuraModeNum::Pulse => "Pulse",
            AuraModeNum::Comet => "Comet",
            AuraModeNum::Flash => "Flash",
        }
    }
}

/// A keyboard lighting effect: its mode, zone, two colours, speed and
/// direction.
#[derive(Debug, Clone, Copy, PartialEq, Eq, Structural)]
pub struct AuraEffect {
    pub mode: AuraModeNum,
    pub zone: AuraZone,
    pub colour1: Colour,
    pub colour2: Colour,
    pub speed: Speed,
    pub direction: Direction,
}

/// The effect that fields left unset take their values from.
pub open spec fn default_effect() -> AuraEffect {
    AuraEffect {
        mode: AuraModeNum::Static,
        zone: AuraZone::Whole,
        colour1: Colour { r: 166, g: 0, b: 0 },
        colour2: Colour { r: 0, g: 0, b: 0 },
        speed: Speed::Med,
        direction: Direction::Right,
    }
}

impl AuraEffect {
    /// A static red effect on the whole keyboard.
    pub fn new() -> (r: AuraEffect)
        ensures
            r == default_effect(),
    {
        AuraEffect {
            mode: AuraModeNum::Static,
            zone: AuraZone::Whole,
            colour1: Colour { r: 166, g: 0, b: 0 },
            colour2: Colour { r: 0, g: 0, b: 0 },
            speed: Speed::Med,
            direction: Direction::Right,
        }
    }

    /// The default effect in mode `mode`.
    pub fn default_with_mode(mode: AuraModeNum) -> (r: AuraEffect)
        ensures
            r == (AuraEffect { mode, ..default_effect() }),
    {
        AuraEffect { mode, ..AuraEffect::new() }
    }
}

/// The per-zone effects of the two built-in modes that have zones.
#[derive(Debug, Clone, Copy)]
pub struct AuraMultiZone {
    pub static_: [AuraEffect; 4],
    pub breathe: [AuraEffect; 4],
}

/// The slot of a zone among the four keyboard zones.
pub open spec fn zone_index(z: AuraZone) -> Option<int> {
    match z {
        AuraZone::Key1 => Some(0),
        AuraZone::Key2 => Some(1),
        AuraZone::Key3 => Some(2),
        AuraZone::Key4 => Some(3),
        _ => None,
    }
}

/// The per-zone effects after storing `effect`: it replaces the entry of its
/// zone in its mode's row; an effect for another mode or for a zone outside
/// the four keyboard zones changes nothing.
pub open spec fn zoned(m: AuraMultiZone, effect: AuraEffect) -> (Seq<AuraEffect>, Seq<AuraEffect>) {
    match (zone_index(effect.zone), effect.mode) {
        (Some(i), AuraModeNum::Static) => (m.static_@.update(i, effect), m.breathe@),
        (Some(i), AuraModeNum::Breathe) => (m.static_@, m.breathe@.update(i, effect)),
        _ => (m.static_@, m.breathe@),
    }
}

impl AuraMultiZone {
    /// Stores `effect` in the zone and mode it names; an effect for another
    /// mode or for a zone outside the four keyboard zones is ignored.
    pub fn set(&mut self, effect: AuraEffect)
        ensures
            (final(self).static_@, final(self).breathe@) == zoned(*old(self), effect),
    {
        let i: usize = match effect.zone {
            AuraZone::Key1 => 0,
            AuraZone::Key2 => 1,
            AuraZone::Key3 => 2,
            AuraZone::Key4 => 3,
            _ => {
                return;
            },
        };
        match effect.mode {
            AuraModeNum::Static => {
                self.static_[i] = effect;
            },
            AuraModeNum::Breathe => {
                self.breathe[i] = effect;
            },
            _ => {},
        }
    }
}

} // verus!
