//! The status LED: a colour palette over three on/off pins.

use vstd::prelude::*;

use crate::app::Toggle;
use crate::gpio::Output;
use crate::gpio::PinCfg;

verus! {

/// The colours a three-pin RGB LED can show.
#[derive(Copy, Clone, Debug, PartialEq, Eq, Structural)]
pub enum Color {
    Black,
    White,
    Red,
    Green,
    Blue,
    Teal,
    Yellow,
    Purple,
}

/// The red/green/blue pin levels that show colour `c`.
pub open spec fn rgb_of(c: Color) -> (bool, bool, bool) {
    match c {
        Color::Black => (false, false, false),
        Color::Red => (true, false, false),
        Color::Green => (false, true, false),
        Color::Blue => (false, false, true),
        Color::Teal => (false, true, true),
        Color::Purple => (true, false, true),
        Color::Yellow => (true, true, false),
        Color::White => (true, true, true),
    }
}

impl Color {
    /// Split the colour into its red, green and blue pin levels.
    pub fn rgb(&self) -> (r: (bool, bool, bool))
        ensures
            r == rgb_of(*self),
    {
        match self {
            Self::Black => (false, false, false),
            Self::Red => (true, false, false),
            Self::Green => (false, true, false),
            Self::Blue => (false, false, true),
            Self::Teal => (false, true, true),
            Self::Purple => (true, false, true),
            Self::Yellow => (true, true, false),
            Self::White => (true, true, true),
        }
    }
}


/// A three-pin RGB status LED.  Boards that wire the pins active-low set
/// `INVERT`, which flips every level the colours ask for.
pub struct Led<const INVERT: bool> {
    /// Whether the LED is lit.
    pub on: bool,
    /// The colour shown while lit.
    pub color: Color,
    /// The red pin.
    pub r: Output,
    /// The green pin.
    pub g: Output,
    /// The blue pin.
    pub b: Output,
}

/// The level a pin is driven to for a wanted level under the board's
/// polarity.
pub open spec fn pin_level(wanted: bool, invert: bool) -> bool {
    wanted != invert
}

impl<const INVERT: bool> Led<INVERT> {
    /// An LED over three output pins, off and dark.
    pub fn new(r: Output, g: Output, b: Output) -> (led: Led<INVERT>)
        ensures
            led.on == false,
            led.color == Color::Black,
            led.r == r,
            led.g == g,
            led.b == b,
    {
        Led { on: false, color: Color::Black, r, g, b }
    }

    /// Drive the three pins to show colour `c`, honouring the polarity.
    fn raw_set(&mut self, c: Color)
        ensures
            final(self).on == old(self).on,
            final(self).color == old(self).color,
            final(self).r.cfg == (PinCfg { odr: pin_level(rgb_of(c).0, INVERT), ..old(self).r.cfg }),
            final(self).g.cfg == (PinCfg { odr: pin_level(rgb_of(c).1, INVERT), ..old(self).g.cfg }),
            final(self).b.cfg == (PinCfg { odr: pin_level(rgb_of(c).2, INVERT), ..old(self).b.cfg }),
    {
        let (r, g, b) = c.rgb();
        self.r.set(r ^ INVERT);
        self.g.set(g ^ INVERT);
        self.b.set(b ^ INVERT);
    }

    /// Turn the LED on showing colour `c`.
    pub fn set(&mut self, c: Color)
        ensures
            final(self).on == true,
            final(self).color == c,
            final(self).r.cfg == (PinCfg { odr: pin_level(rgb_of(c).0, INVERT), ..old(self).r.cfg }),
            final(self).g.cfg == (PinCfg { odr: pin_level(rgb_of(c).1, INVERT), ..old(self).g.cfg }),
            final(self).b.cfg == (PinCfg { odr: pin_level(rgb_of(c).2, INVERT), ..old(self).b.cfg }),
    {
        self.on = true;
        self.color = c;
        self.raw_set(c);
    }
}

impl<const INVERT: bool> Toggle for Led<INVERT> {
    open spec fn on_state(&self) -> bool {
        self.on
    }

    /// Flip the LED: when turning on it shows its remembered colour, when
    /// turning off it goes dark, in both cases honouring the polarity.
    fn toggle(&mut self)
        ensures
            final(self).on != old(self).on,
            final(self).color == old(self).color,
    {
        self.on = !self.on;
        if self.on {
            let c = self.color;
            self.raw_set(c);
        } else {
            self.raw_set(Color::Black);
        }
    }
}

} // verus!
