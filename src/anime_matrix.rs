use vstd::prelude::*;
use vstd::array::array_fill_for_copy_types;

use crate::text::{spells, spells_word};

verus! {

/// Bytes in one full frame of the AniMe matrix.
pub const PANE_LEN: usize = 1214;

/// Columns of the AniMe image grid.
pub const WIDTH: usize = 34;

/// Rows of the AniMe image grid.
pub const HEIGHT: usize = 56;

/// One full frame of LED brightness values.
pub type AniMePane = [u8; 1214];

/// A frame as a byte vector, the form in which it crosses the message bus.
pub struct AniMePaneBuffer(Vec<u8>);

impl AniMePaneBuffer {
    pub closed spec fn spec_bytes(&self) -> Seq<u8> {
        self.0@
    }

    pub fn from_pane(pane: AniMePane) -> (r: AniMePaneBuffer)
        ensures
            r.spec_bytes() == pane@,
    {
        let mut v: Vec<u8> = Vec::new();
        let mut i: usize = 0;
        while i < PANE_LEN
            invariant
                0 <= i <= PANE_LEN,
                v@ == pane@.take(i as int),
            decreases PANE_LEN - i,
        {
            v.push(pane[i]);
            i = i + 1;
            assert(v@ =~= pane@.take(i as int));
        }
        assert(pane@.take(PANE_LEN as int) =~= pane@);
        AniMePaneBuffer(v)
    }

    pub fn new(bytes: Vec<u8>) -> (r: AniMePaneBuffer)
        ensures
            r.spec_bytes() == bytes@,
    {
        AniMePaneBuffer(bytes)
    }

    pub fn get(&self) -> (r: &Vec<u8>)
        ensures
            r@ == self.spec_bytes(),
    {
        &self.0
    }

    /// The frame, where the buffer holds exactly one.
    pub fn to_pane(&self) -> (r: Option<AniMePane>)
        ensures
            self.spec_bytes().len() == PANE_LEN ==> (r matches Some(p) && p@ == self.spec_bytes()),
            self.spec_bytes().len() != PANE_LEN ==> r is None,
    {
        if self.0.len() != PANE_LEN {
            return None;
        }
        let mut pane: AniMePane = array_fill_for_copy_types(0u8);
        let mut i: usize = 0;
        while i < PANE_LEN
            invariant
                0 <= i <= PANE_LEN,
                self.0@.len() == PANE_LEN,
                pane@.len() == PANE_LEN,
                forall|j: int| 0 <= j < i ==> pane@[j] == self.0@[j],
            decreases PANE_LEN - i,
        {
            pane[i] = self.0[i];
            i = i + 1;
        }
        assert(pane@ =~= self.0@);
        Some(pane)
    }
}

/// Whether the display is lit.
#[derive(Debug, Clone, Copy, PartialEq, Eq, Structural)]
pub enum AniMeStatusValue {
    On,
    Off,
}

impl AniMeStatusValue {
    pub fn is_on(&self) -> (r: bool)
        ensures
            r == (*self == AniMeStatusValue::On),
    {
        matches!(self, AniMeStatusValue::On)
    }

    /// Parses "on" or "off", in any ASCII case.
    pub fn parse(s: &str) -> (r: Option<AniMeStatusValue>)
        ensures
            spells(s@, "on"@) ==> r == Some(AniMeStatusValue::On),
            !spells(s@, "on"@) && spells(s@, "off"@) ==> r == Some(AniMeStatusValue::Off),
            !spells(s@, "on"@) && !spells(s@, "off"@) ==> r is None,
    {
        if spells_word(s, "on") {
            Some(AniMeStatusValue::On)
        } else if spells_word(s, "off") {
            Some(AniMeStatusValue::Off)
        } else {
            None
        }
    }

    /// The state's name, "on" or "off".
    pub fn name(&self) -> (r: &'static str)
        ensures
            r@ == (if *self == AniMeStatusValue::On {
                "on"@
            } else {
                "off"@
            }),
    {
        match self {
            AniMeStatusValue::On => "on",
            AniMeStatusValue::Off => "off",
        }
    }
}

/// Brightness for every LED of the display.
#[derive(Debug, Clone, Copy, PartialEq, Eq, Structural)]
pub struct AniMeLeds {
    help: bool,
    led_brightness: u8,
}

impl AniMeLeds {
    pub closed spec fn spec_led_brightness(&self) -> u8 {
        self.led_brightness
    }

    pub fn new(led_brightness: u8) -> (r: AniMeLeds)
        ensures
            r.spec_led_brightness() == led_brightness,
    {
        AniMeLeds { help: false, led_brightness }
    }

    pub fn led_brightness(&self) -> (r: u8)
        ensures
            r == self.spec_led_brightness(),
    {
        self.led_brightness
    }
}

/// The display commands.
#[derive(Debug, Clone, Copy, PartialEq, Eq, Structural)]
pub enum AniMeCommandType {
    /// Set every LED to one brightness.
    Leds(AniMeLeds),
}

/// What is written to the display.
pub enum AniMeWriteType {
    WritePane(AniMePane),
}

impl AniMeWriteType {
    /// The frame a command writes: every LED at the requested brightness.
    pub fn from_command(command: AniMeCommandType) -> (r: AniMeWriteType)
        ensures
            match (r, command) {
                (AniMeWriteType::WritePane(p), AniMeCommandType::Leds(l)) => p@ == Seq::new(
                    PANE_LEN as nat,
                    |i: int| l.spec_led_brightness(),
                ),
            },
    {
        match command {
            AniMeCommandType::Leds(leds) => {
                let pane: AniMePane = array_fill_for_copy_types(leds.led_brightness());
                assert(pane@ =~= Seq::new(PANE_LEN as nat, |i: int| leds.spec_led_brightness()));
                AniMeWriteType::WritePane(pane)
            },
        }
    }
}

/// A greyscale image of `HEIGHT` rows of `WIDTH` LEDs.
#[derive(Debug)]
pub struct AniMeImageBuffer(Vec<Vec<u8>>);

/// The rows of an image all of one value.
pub open spec fn filled_rows(rows: nat, cols: nat, v: u8) -> Seq<Seq<u8>> {
    Seq::new(rows, |i: int| Seq::new(cols, |j: int| v))
}

impl AniMeImageBuffer {
    pub closed spec fn spec_rows(&self) -> Seq<Seq<u8>> {
        self.0@.map_values(|row: Vec<u8>| row@)
    }

    /// An image of `HEIGHT` rows of `WIDTH` dark LEDs.
    pub fn new() -> (r: AniMeImageBuffer)
        ensures
            r.spec_rows() == filled_rows(HEIGHT as nat, WIDTH as nat, 0),
    {
        let mut rows: Vec<Vec<u8>> = Vec::new();
        let mut i: usize = 0;
        while i < HEIGHT
            invariant
                0 <= i <= HEIGHT,
                rows@.len() == i,
                forall|k: int| 0 <= k < i ==> #[trigger] rows@[k]@ == Seq::new(WIDTH as nat, |j: int| 0u8),
            decreases HEIGHT - i,
        {
            let mut row: Vec<u8> = Vec::new();
            let mut j: usize = 0;
            while j < WIDTH
                invariant
                    0 <= j <= WIDTH,
                    row@ == Seq::new(j as nat, |k: int| 0u8),
                decreases WIDTH - j,
            {
                row.push(0u8);
                j = j + 1;
                assert(row@ =~= Seq::new(j as nat, |k: int| 0u8));
            }
            rows.push(row);
            i = i + 1;
        }
        assert(rows@.map_values(|row: Vec<u8>| row@) =~= filled_rows(HEIGHT as nat, WIDTH as nat, 0));
        AniMeImageBuffer(rows)
    }

    pub fn get(&self) -> (r: &Vec<Vec<u8>>)
        ensures
            r@.map_values(|row: Vec<u8>| row@) == self.spec_rows(),
    {
        &self.0
    }

    /// Sets every LED of the image to `fill`, keeping its shape.
    pub fn fill_with(&mut self, fill: u8)
        ensures
            final(self).spec_rows().len() == old(self).spec_rows().len(),
            forall|i: int| 0 <= i < old(self).spec_rows().len() ==> #[trigger] final(self).spec_rows()[i] == Seq::new(
                old(self).spec_rows()[i].len(),
                |j: int| fill,
            ),
    {
        let n = self.0.len();
        let ghost old_rows = self.spec_rows();
        let mut rows: Vec<Vec<u8>> = Vec::new();
        let mut i: usize = 0;
        while i < n
            invariant
                n == self.0@.len(),
                old_rows == self.spec_rows(),
                0 <= i <= n,
                rows@.len() == i,
                forall|k: int| 0 <= k < i ==> #[trigger] rows@[k]@ == Seq::new(old_rows[k].len(), |j: int| fill),
            decreases n - i,
        {
            let m = self.0[i].len();
            let mut row: Vec<u8> = Vec::new();
            let mut j: usize = 0;
            while j < m
                invariant
                    0 <= j <= m,
                    row@ == Seq::new(j as nat, |k: int| fill),
                decreases m - j,
            {
                row.push(fill);
                j = j + 1;
                assert(row@ =~= Seq::new(j as nat, |k: int| fill));
            }
            assert(m == old_rows[i as int].len());
            rows.push(row);
            i = i + 1;
        }
        self.0 = rows;
        assert(self.spec_rows().len() == n);
    }
}

} // verus!
