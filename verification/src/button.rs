//! A debounce-free push button over a GPIO input pin, remembering its
//! last observed state.

use vstd::prelude::*;

use crate::gpio::Input;
use crate::gpio::PinCfg;

verus! {

/// A button on an input pin, with the state seen at the previous read.
pub struct Button {
    /// The input pin the button is wired to.
    pub pin: Input,
    /// The level observed at the previous read.
    pub last_state: bool,
}

impl Default for Button {
    /// Wire the button up: configure its pin as an input with the pull
    /// resistor up, and take the initial state from the pin.
    fn default() -> (b: Button)
        ensures
            b.pin.cfg == (PinCfg {
                moder: 0b00,
                otyper: false,
                ospeedr: 0,
                pupdr: 0b10,
                odr: false,
                idr: false,
                afr: 0,
            }),
            b.last_state == false,
    {
        let mut pin = Input::new();
        pin.pull_up();
        let last_state = pin.read();
        Button { pin, last_state }
    }
}

impl Button {
    /// Read the button: returns the current level and the comparison of
    /// that level with the previously remembered one, then remembers the
    /// current level.
    pub fn read(&mut self) -> (r: (bool, bool))
        ensures
            r.0 == old(self).pin.cfg.idr,
            r.1 == (r.0 == old(self).last_state),
            final(self).pin == old(self).pin,
            final(self).last_state == r.0,
    {
        let curr_state = self.pin.read();
        let changed = curr_state == self.last_state;
        self.last_state = curr_state;
        (curr_state, changed)
    }
}

} // verus!
