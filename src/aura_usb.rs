use vstd::prelude::*;

use crate::aura::Colour;

verus! {

/// The packet that sets the keyboard backlight brightness.
pub fn aura_brightness_bytes(brightness: u8) -> (r: [u8; 17])
    ensures
        r@ == seq![0x5Au8, 0xBA, 0xC5, 0xC4, brightness, 0, 0, 0, 0, 0, 0, 0, 0, 0, 0, 0, 0],
{
    let r = [0x5Au8, 0xBA, 0xC5, 0xC4, brightness, 0, 0, 0, 0, 0, 0, 0, 0, 0, 0, 0, 0];
    assert(r@ =~= seq![0x5Au8, 0xBA, 0xC5, 0xC4, brightness, 0, 0, 0, 0, 0, 0, 0, 0, 0, 0, 0, 0]);
    r
}

/// The address of one LED of a per-key keyboard.
#[derive(Debug, Clone, Copy, PartialEq, Eq, Structural)]
pub struct LedCode(pub u8);

/// How an effect is laid over the keyboard.
#[derive(Debug, Clone, PartialEq, Eq)]
pub enum AdvancedAuraType {
    /// The effect covers the whole keyboard, as the basic static mode.
    Unzoned,
    /// The effect covers the given zones.
    Zoned(Vec<LedCode>),
    /// The effect is set key by key.
    PerKey,
}

impl AdvancedAuraType {
    pub fn new() -> (r: AdvancedAuraType)
        ensures
            r is Unzoned,
    {
        AdvancedAuraType::Unzoned
    }
}

/// A single LED held at one colour.
#[derive(Debug, Clone, Copy, PartialEq, Eq, Structural)]
pub struct Static {
    led: LedCode,
    colour: Colour,
}

impl Static {
    pub closed spec fn spec_led(&self) -> LedCode {
        self.led
    }

    pub closed spec fn spec_colour(&self) -> Colour {
        self.colour
    }

    pub fn new(address: LedCode, colour: Colour) -> (r: Static)
        ensures
            r.spec_led() == address,
            r.spec_colour() == colour,
    {
        Static { led: address, colour }
    }

    pub fn led(&self) -> (r: LedCode)
        ensures
            r == self.spec_led(),
    {
        self.led
    }

    pub fn colour(&self) -> (r: Colour)
        ensures
            r == self.spec_colour(),
    {
        self.colour
    }

    /// A static effect keeps its colour from one frame to the next.
    pub fn next_colour_state(&mut self)
        ensures
            *final(self) == *old(self),
    {
    }
}

} // verus!
