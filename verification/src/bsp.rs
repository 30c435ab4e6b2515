//! A board-support model: the capability set every task receives.
//!
//! The real board offers console printing, an LED, a button and a
//! keyboard; the model holds what those capabilities read and write as
//! plain values (the console as the bytes printed so far, the inputs as
//! pending values a harness fills in), so task and scheduler logic over
//! them is checked.

use vstd::prelude::*;

use crate::led::Color;

verus! {

/// What the board model looks like in specifications.
pub struct BspView {
    /// Every byte printed to the console so far, in order.
    pub console: Seq<u8>,
    /// The colour the status LED currently shows.
    pub led: Color,
    /// A typed key waiting to be read, if any.
    pub key_in: Option<char>,
    /// Whether the push-to-talk button is pressed right now.
    pub ptt_pressed: bool,
}

/// The board capability set handed to every task.
pub struct Bsp {
    console: Vec<u8>,
    led: Color,
    key_in: Option<char>,
    ptt_pressed: bool,
}

impl View for Bsp {
    type V = BspView;

    closed spec fn view(&self) -> BspView {
        BspView {
            console: self.console@,
            led: self.led,
            key_in: self.key_in,
            ptt_pressed: self.ptt_pressed,
        }
    }
}

impl Bsp {
    /// A board with nothing printed, the LED dark and no pending input.
    pub fn new() -> (b: Bsp)
        ensures
            b@.console == Seq::<u8>::empty(),
            b@.led == Color::Black,
            b@.key_in is None,
            b@.ptt_pressed == false,
    {
        Bsp { console: Vec::new(), led: Color::Black, key_in: None, ptt_pressed: false }
    }

    /// Print `s` on the console.
    pub fn print(&mut self, s: &[u8])
        ensures
            final(self)@ == (BspView { console: old(self)@.console + s@, ..old(self)@ }),
    {
        let mut idx: usize = 0;
        proof {
            assert(self.console@ =~= old(self).console@ + s@.subrange(0, 0));
        }
        while idx < s.len()
            invariant
                idx <= s@.len(),
                self.console@ == old(self).console@ + s@.subrange(0, idx as int),
                self.led == old(self).led,
                self.key_in == old(self).key_in,
                self.ptt_pressed == old(self).ptt_pressed,
            decreases s@.len() - idx,
        {
            let b = s[idx];
            self.console.push(b);
            idx = idx + 1;
            proof {
                assert(self.console@ =~= old(self).console@ + s@.subrange(0, idx as int));
            }
        }
        proof {
            assert(s@.subrange(0, s@.len() as int) =~= s@);
            assert(self.console@ =~= old(self).console@ + s@);
        }
    }

    /// Append one already-formatted byte to the console.
    pub fn print_byte(&mut self, b: u8)
        ensures
            final(self)@ == (BspView { console: old(self)@.console.push(b), ..old(self)@ }),
    {
        self.console.push(b);
    }

    /// Show colour `c` on the status LED.
    pub fn led_set(&mut self, c: Color)
        ensures
            final(self)@ == (BspView { led: c, ..old(self)@ }),
    {
        self.led = c;
    }

    /// Take the pending key, if one is waiting.
    pub fn take_key(&mut self) -> (k: Option<char>)
        ensures
            k == old(self)@.key_in,
            final(self)@ == (BspView { key_in: None, ..old(self)@ }),
    {
        let k = self.key_in;
        self.key_in = None;
        k
    }

    /// Let the harness put a typed key in front of the keyboard task.
    pub fn set_key(&mut self, k: char)
        ensures
            final(self)@ == (BspView { key_in: Some(k), ..old(self)@ }),
    {
        self.key_in = Some(k);
    }

    /// Whether the push-to-talk button is pressed.
    pub fn ptt_pressed(&self) -> (b: bool)
        ensures
            b == self@.ptt_pressed,
    {
        self.ptt_pressed
    }

    /// Let the harness press or release the push-to-talk button.
    pub fn set_ptt(&mut self, pressed: bool)
        ensures
            final(self)@ == (BspView { ptt_pressed: pressed, ..old(self)@ }),
    {
        self.ptt_pressed = pressed;
    }

    /// The bytes printed on the console so far.
    pub fn console_bytes(&self) -> (s: &Vec<u8>)
        ensures
            s@ == self@.console,
    {
        &self.console
    }

    /// The colour the status LED shows.
    pub fn led_color(&self) -> (c: Color)
        ensures
            c == self@.led,
    {
        self.led
    }
}

} // verus!
