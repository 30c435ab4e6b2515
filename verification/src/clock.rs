//! System clock configuration over the register model: bringing up the
//! external oscillator and the PLL, routing the PLL to the system clock,
//! and checking the result.

use vstd::prelude::*;

use crate::gpio::Output;
use crate::gpio::PinCfg;
use crate::regs::Rcc;

verus! {

/// The clock registers after a correct bring-up from a 16 MHz external
/// oscillator: oscillator and PLL on and settled, the PLL fed from the
/// oscillator with multiplier 4, no APB prescale, and the system clock
/// switched to the PLL.
pub open spec fn clock_configured(r: Rcc) -> bool {
    &&& r.hseon && r.hserdy
    &&& r.pllon && r.pllrdy
    &&& r.pllsrc == 1
    &&& r.pllmul == 4
    &&& r.ppre == 0
    &&& r.sw == 0b10
    &&& r.sws == 0b10
}

/// Bring the system clock up from the external oscillator.
///
/// Only the 16 MHz oscillator the board carries is supported; any other
/// frequency is a fatal configuration error, so those inputs are
/// excluded here.  The model's ready flags follow their enables at once,
/// standing for hardware that has settled.
pub fn init(rcc: &mut Rcc, hse_clk_freq: u32)
    requires
        hse_clk_freq == 16_000_000,
    ensures
        *final(rcc) == (Rcc {
            hseon: true,
            hserdy: true,
            pllsrc: 1,
            pllmul: 4,
            ppre: 0,
            pllon: true,
            pllrdy: true,
            sw: 0b10,
            sws: 0b10,
            ..*old(rcc)
        }),
        clock_configured(*final(rcc)),
{
    let pll_m: u8 = 4;

    // Enable the external oscillator; the settled model raises ready at once.
    rcc.hseon = true;
    rcc.hserdy = true;

    // Configure the PLL from the external oscillator.
    rcc.pllsrc = 1;
    rcc.pllmul = pll_m;
    rcc.ppre = 0;

    // Enable the PLL.
    rcc.pllon = true;
    rcc.pllrdy = true;

    // Select the PLL as the system clock source.
    rcc.sw = 0b10;
    rcc.sws = 0b10;
}

/// Route half the PLL frequency to the clock-output pin.
///
/// Only the 24 MHz output of the supported clock tree is accepted;
/// anything else is a fatal configuration error.
pub fn configure_mco(pin: &mut Output, rcc: &mut Rcc, mco_freq: u32)
    requires
        mco_freq == 24_000_000,
    ensures
        *final(rcc) == (Rcc {
            iopaen: true,
            mco: 0b0111,
            pllnodiv: true,
            mcopre: 0b001,
            ..*old(rcc)
        }),
        final(pin).cfg == (PinCfg { moder: 0b10, afr: 0, ..old(pin).cfg }),
{
    // Enable the GPIO bank that carries the clock-output pin.
    rcc.iopaen = true;

    // Hand the pin to the clock-output alternate function.
    pin.cfg.moder = 0b10;
    pin.cfg.afr = 0;

    // Output the PLL clock divided by two.
    rcc.mco = 0b0111;
    rcc.pllnodiv = true;
    rcc.mcopre = 0b001;
}

/// Check that the clock registers show a correct bring-up.
pub fn validate(rcc: &Rcc) -> (ok: bool)
    ensures
        ok == clock_configured(*rcc),
{
    rcc.hseon && rcc.hserdy && rcc.pllon && rcc.pllrdy && rcc.pllsrc == 1 && rcc.pllmul == 4
        && rcc.ppre == 0 && rcc.sw == 0b10 && rcc.sws == 0b10
}

} // verus!
