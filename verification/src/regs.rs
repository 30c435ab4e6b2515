//! A model of the reset-and-clock-control peripheral's registers.
//!
//! Each register field the firmware touches is a plain value here; the
//! configuration code computes exactly the values the hardware registers
//! receive, and is checked for it.  Ready flags follow their enables
//! instantly: the model shows the hardware once it has settled, the
//! state a bring-up sequence busy-waits for.

use vstd::prelude::*;

verus! {

/// The clock-control register fields the firmware reads and writes.
pub struct Rcc {
    /// Clock enable for the port-A GPIO bank.
    pub iopaen: bool,
    /// Clock enable for the port-B GPIO bank.
    pub iopben: bool,
    /// Clock enable for the first UART.
    pub usart1en: bool,
    /// Clock enable for the second UART.
    pub usart2en: bool,
    /// High-speed external oscillator enable.
    pub hseon: bool,
    /// High-speed external oscillator ready.
    pub hserdy: bool,
    /// PLL enable.
    pub pllon: bool,
    /// PLL locked.
    pub pllrdy: bool,
    /// PLL clock source selector.
    pub pllsrc: u8,
    /// PLL multiplier.
    pub pllmul: u8,
    /// APB prescaler.
    pub ppre: u8,
    /// System clock switch.
    pub sw: u8,
    /// System clock switch status.
    pub sws: u8,
    /// Microcontroller clock output source.
    pub mco: u8,
    /// Whether the PLL feeds the clock output undivided.
    pub pllnodiv: bool,
    /// Clock output prescaler.
    pub mcopre: u8,
}

impl Rcc {
    /// A register file in its power-on state: everything off and zero.
    pub fn new() -> (r: Rcc)
        ensures
            r == (Rcc {
                iopaen: false,
                iopben: false,
                usart1en: false,
                usart2en: false,
                hseon: false,
                hserdy: false,
                pllon: false,
                pllrdy: false,
                pllsrc: 0,
                pllmul: 0,
                ppre: 0,
                sw: 0,
                sws: 0,
                mco: 0,
                pllnodiv: false,
                mcopre: 0,
            }),
    {
        Rcc {
            iopaen: false,
            iopben: false,
            usart1en: false,
            usart2en: false,
            hseon: false,
            hserdy: false,
            pllon: false,
            pllrdy: false,
            pllsrc: 0,
            pllmul: 0,
            ppre: 0,
            sw: 0,
            sws: 0,
            mco: 0,
            pllnodiv: false,
            mcopre: 0,
        }
    }
}

} // verus!
