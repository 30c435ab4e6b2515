//! General-purpose I/O pins over the register model: configuring a pin as
//! input, output or alternate function, and reading or driving it.

use vstd::prelude::*;

use crate::regs::Rcc;

verus! {

/// The configuration and state registers of one pin.
#[derive(Copy, Clone, Debug, PartialEq, Eq, Structural)]
pub struct PinCfg {
    /// Pin mode: input, output or alternate function.
    pub moder: u8,
    /// Output type: push-pull or open-drain.
    pub otyper: bool,
    /// Slew-rate setting.
    pub ospeedr: u8,
    /// Pull-up / pull-down setting.
    pub pupdr: u8,
    /// The level the pin drives.
    pub odr: bool,
    /// The level the pin reads.
    pub idr: bool,
    /// Alternate-function selector.
    pub afr: u8,
}

/// A pin's power-on configuration: everything zero and low.
pub open spec fn pin_reset() -> PinCfg {
    PinCfg { moder: 0, otyper: false, ospeedr: 0, pupdr: 0, odr: false, idr: false, afr: 0 }
}

impl PinCfg {
    /// A pin in its power-on configuration.
    pub fn reset() -> (p: PinCfg)
        ensures
            p == pin_reset(),
    {
        PinCfg { moder: 0, otyper: false, ospeedr: 0, pupdr: 0, odr: false, idr: false, afr: 0 }
    }
}

/// Enable the clocks of both GPIO banks the board uses.
pub fn init(rcc: &mut Rcc)
    ensures
        *final(rcc) == (Rcc { iopaen: true, iopben: true, ..*old(rcc) }),
{
    rcc.iopaen = true;
    rcc.iopben = true;
}

/// A pin configured as an output.
#[derive(Copy, Clone, Debug, PartialEq, Eq, Structural)]
pub struct Output {
    /// The pin's registers.
    pub cfg: PinCfg,
}

impl Output {
    /// Configure a pin as a slow push-pull output driving low.
    pub fn new() -> (p: Output)
        ensures
            p.cfg == (PinCfg { moder: 0b01, ..pin_reset() }),
    {
        Output { cfg: PinCfg { moder: 0b01, ..PinCfg::reset() } }
    }

    /// Drive the pin high or low.
    pub fn set(&mut self, high: bool)
        ensures
            final(self).cfg == (PinCfg { odr: high, ..old(self).cfg }),
    {
        if high {
            self.set_high()
        } else {
            self.set_low()
        }
    }

    /// Drive the pin low.
    pub fn set_low(&mut self)
        ensures
            final(self).cfg == (PinCfg { odr: false, ..old(self).cfg }),
    {
        self.cfg.odr = false;
    }

    /// Drive the pin high.
    pub fn set_high(&mut self)
        ensures
            final(self).cfg == (PinCfg { odr: true, ..old(self).cfg }),
    {
        self.cfg.odr = true;
    }

    /// Reconfigure the output as a slow open-drain line with the pull-up
    /// on, driving low.
    pub fn open_drain(&mut self)
        ensures
            final(self).cfg == (PinCfg {
                otyper: true,
                odr: false,
                pupdr: 0b01,
                ospeedr: 0b00,
                ..old(self).cfg
            }),
    {
        self.cfg.otyper = true;
        self.cfg.odr = false;
        self.cfg.pupdr = 0b01;
        self.cfg.ospeedr = 0b00;
    }
}

/// A pin configured as an input.
#[derive(Copy, Clone, Debug, PartialEq, Eq, Structural)]
pub struct Input {
    /// The pin's registers.
    pub cfg: PinCfg,
}

impl Input {
    /// Configure a pin as an input with the pull-down on.
    pub fn new() -> (p: Input)
        ensures
            p.cfg == (PinCfg { moder: 0b00, pupdr: 0b10, ..pin_reset() }),
    {
        Input { cfg: PinCfg { moder: 0b00, pupdr: 0b10, ..PinCfg::reset() } }
    }

    /// Switch the pull resistor up.
    pub fn pull_up(&mut self)
        ensures
            final(self).cfg == (PinCfg { pupdr: 0b10, ..old(self).cfg }),
    {
        self.cfg.pupdr = 0b10;
    }

    /// Switch the pull resistor down.
    pub fn pull_down(&mut self)
        ensures
            final(self).cfg == (PinCfg { pupdr: 0b01, ..old(self).cfg }),
    {
        self.cfg.pupdr = 0b01;
    }

    /// Read the pin's level.
    pub fn read(&self) -> (b: bool)
        ensures
            b == self.cfg.idr,
    {
        self.cfg.idr
    }

    /// Let a harness drive the level the pin reads.
    pub fn set_level(&mut self, level: bool)
        ensures
            final(self).cfg == (PinCfg { idr: level, ..old(self).cfg }),
    {
        self.cfg.idr = level;
    }
}

/// A pin handed to a peripheral as an alternate function.
#[derive(Copy, Clone, Debug, PartialEq, Eq, Structural)]
pub struct AltFun {
    /// The pin's registers.
    pub cfg: PinCfg,
}

impl AltFun {
    /// A freshly reset alternate-function pin; `alt_fun` configures it.
    pub fn new() -> (p: AltFun)
        ensures
            p.cfg == pin_reset(),
    {
        AltFun { cfg: PinCfg::reset() }
    }

    /// Configure a pin for alternate function `af_mode`, push-pull,
    /// driving low, with the slew rate raised when `fast` asks for it.
    pub fn alt_fun(af_mode: u8, fast: bool) -> (p: AltFun)
        ensures
            p.cfg == (PinCfg {
                moder: 0b10,
                odr: false,
                otyper: false,
                pupdr: 0b00,
                ospeedr: if fast {
                    0b10
                } else {
                    0b00
                },
                afr: af_mode,
                ..pin_reset()
            }),
    {
        let ospeedr: u8 = if fast {
            0b10
        } else {
            0b00
        };
        AltFun {
            cfg: PinCfg {
                moder: 0b10,
                odr: false,
                otyper: false,
                pupdr: 0b00,
                ospeedr,
                afr: af_mode,
                ..PinCfg::reset()
            },
        }
    }
}

} // verus!
