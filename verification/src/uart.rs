//! UART configuration and byte transfer over the register model.
//!
//! The baud-rate divisor arithmetic is the part worth checking: the bus
//! frequency divided by the baud rate is split into the mantissa and
//! four-bit fraction fields the hardware wants.  Transfer is modelled by
//! two byte queues, the bytes sent and the bytes waiting to be read,
//! which a host-side harness fills and drains.

use vstd::prelude::*;

use crate::regs::Rcc;

verus! {

/// How many low bits of the divisor go to the fraction field.
pub const FRACTION_WIDTH: u32 = 4;

/// The configuration and transfer state of one UART.
pub struct Uart {
    /// Divisor mantissa field.
    pub div_mantissa: u16,
    /// Divisor fraction field.
    pub div_fraction: u8,
    /// Parity enable.
    pub pce: bool,
    /// Stop-bit selection.
    pub stop: u8,
    /// UART enable.
    pub ue: bool,
    /// Transmitter enable.
    pub te: bool,
    /// Receiver enable.
    pub re: bool,
    /// Every byte written so far, in order.
    pub tx: Vec<u8>,
    /// The bytes waiting to be read, oldest first.
    pub rx: Vec<u8>,
}

/// Enable the clocks of both UARTs the board uses.
pub fn init(rcc: &mut Rcc)
    ensures
        *final(rcc) == (Rcc { usart1en: true, usart2en: true, ..*old(rcc) }),
{
    rcc.usart1en = true;
    rcc.usart2en = true;
}

/// The first position below `bound` at which `s` holds `delim`.
pub open spec fn first_delim(s: Seq<u8>, delim: u8, bound: int) -> Option<int>
    decreases bound,
{
    if bound <= 0 || s.len() == 0 {
        None
    } else if 0 < s.len() && s[0] == delim {
        Some(0)
    } else {
        match first_delim(s.drop_first(), delim, bound - 1) {
            Some(i) => Some(i + 1),
            None => None,
        }
    }
}

/// A found delimiter position lies below the bound, inside the input,
/// and carries the delimiter.
proof fn lemma_first_delim_in_range(s: Seq<u8>, delim: u8, bound: int)
    ensures
        first_delim(s, delim, bound) matches Some(v) ==> 0 <= v < bound && v < s.len() && s[v]
            == delim,
    decreases bound,
{
    if bound > 0 && s.len() > 0 && s[0] != delim {
        lemma_first_delim_in_range(s.drop_first(), delim, bound - 1);
    }
}

/// Without a delimiter among the first `i` positions, a delimiter below
/// `bound` sits at or past `i`, so the input holds more than `i` bytes.
proof fn lemma_first_delim_bound(s: Seq<u8>, delim: u8, i: int, bound: int)
    requires
        0 <= i < bound,
        first_delim(s, delim, i) is None,
        first_delim(s, delim, bound) is Some,
    ensures
        s.len() > i,
        first_delim(s, delim, bound).unwrap() >= i,
    decreases i,
{
    lemma_first_delim_in_range(s, delim, bound);
    if i > 0 {
        lemma_first_delim_bound(s.drop_first(), delim, i - 1, bound - 1);
    }
}

/// Finding `delim` at position `i`, with none before it, pins the first
/// delimiter below any larger bound to `i`.
proof fn lemma_first_delim_found(s: Seq<u8>, delim: u8, i: int, bound: int)
    requires
        0 <= i < bound,
        i < s.len(),
        s[i] == delim,
        first_delim(s, delim, i) is None,
    ensures
        first_delim(s, delim, bound) == Some(i),
    decreases i,
{
    if i > 0 {
        lemma_first_delim_found(s.drop_first(), delim, i - 1, bound - 1);
    }
}

/// A non-delimiter at position `i` extends a delimiter-free prefix by one.
proof fn lemma_first_delim_step(s: Seq<u8>, delim: u8, i: int)
    requires
        0 <= i < s.len(),
        s[i] != delim,
        first_delim(s, delim, i) is None,
    ensures
        first_delim(s, delim, i + 1) is None,
    decreases i,
{
    if i > 0 {
        lemma_first_delim_step(s.drop_first(), delim, i - 1);
    } else {
        assert(first_delim(s.drop_first(), delim, 0) is None);
    }
}

impl Uart {
    /// Configure a UART on a bus running at `apb_freq` for `baud_rate`:
    /// the divisor `apb_freq / baud_rate` is split into its mantissa and
    /// four-bit fraction, parity is off, one stop bit, and the UART is
    /// enabled as transmitter and receiver.  The divisor must fit the
    /// twenty bits the two fields hold together.
    pub fn new(apb_freq: u32, baud_rate: u32) -> (u: Uart)
        requires
            baud_rate > 0,
            apb_freq / baud_rate < 0x100000,
        ensures
            u.div_mantissa == (apb_freq / baud_rate) >> FRACTION_WIDTH,
            u.div_fraction == (apb_freq / baud_rate) & 0xF,
            u.pce == false,
            u.stop == 0,
            u.ue && u.te && u.re,
            u.tx@ == Seq::<u8>::empty(),
            u.rx@ == Seq::<u8>::empty(),
    {
        let div = apb_freq / baud_rate;
        let mantissa_32 = div >> FRACTION_WIDTH;
        assert(mantissa_32 == div >> FRACTION_WIDTH && mantissa_32 < 0x10000) by (bit_vector)
            requires
                div < 0x100000u32 && mantissa_32 == div >> 4u32,
        ;
        let fraction_32 = div & 0xF;
        assert(fraction_32 < 0x10) by (bit_vector)
            requires
                fraction_32 == div & 0xFu32,
        ;
        Uart {
            div_mantissa: mantissa_32 as u16,
            div_fraction: fraction_32 as u8,
            pce: false,
            stop: 0,
            ue: true,
            te: true,
            re: true,
            tx: Vec::new(),
            rx: Vec::new(),
        }
    }

    /// Whether a byte can be written now.  The model UART is always ready
    /// to transmit.
    pub fn write_ready(&self) -> (b: bool)
        ensures
            b == true,
    {
        true
    }

    /// Whether a byte is waiting to be read.
    pub fn read_ready(&self) -> (b: bool)
        ensures
            b == (self.rx@.len() > 0),
    {
        self.rx.len() > 0
    }

    /// Write one byte.
    pub fn write_byte(&mut self, byte: u8)
        ensures
            *final(self) == (Uart { tx: final(self).tx, ..*old(self) }),
            final(self).tx@ == old(self).tx@.push(byte),
    {
        self.tx.push(byte);
    }

    /// Read the oldest waiting byte.  On hardware this blocks until a
    /// byte arrives; the model asks its callers to read only when one is
    /// waiting.
    pub fn read_byte(&mut self) -> (byte: u8)
        requires
            old(self).rx@.len() > 0,
        ensures
            byte == old(self).rx@[0],
            *final(self) == (Uart { rx: final(self).rx, ..*old(self) }),
            final(self).rx@ == old(self).rx@.drop_first(),
    {
        let ghost pre = self.rx@;
        let byte = self.rx.remove(0);
        proof {
            assert(self.rx@ =~= pre.drop_first());
        }
        byte
    }

    /// Write a whole buffer, in order.
    pub fn write(&mut self, buffer: &[u8])
        ensures
            *final(self) == (Uart { tx: final(self).tx, ..*old(self) }),
            final(self).tx@ == old(self).tx@ + buffer@,
    {
        let mut idx: usize = 0;
        proof {
            assert(self.tx@ =~= old(self).tx@ + buffer@.subrange(0, 0));
        }
        while idx < buffer.len()
            invariant
                idx <= buffer@.len(),
                *self == (Uart { tx: self.tx, ..*old(self) }),
                self.tx@ == old(self).tx@ + buffer@.subrange(0, idx as int),
            decreases buffer@.len() - idx,
        {
            let b = buffer[idx];
            self.tx.push(b);
            idx = idx + 1;
            proof {
                assert(self.tx@ =~= old(self).tx@ + buffer@.subrange(0, idx as int));
            }
        }
        proof {
            assert(buffer@.subrange(0, buffer@.len() as int) =~= buffer@);
        }
    }

    /// Read bytes into `buffer` until one equals `delim`, and zero the
    /// rest of the buffer; returns how many bytes were read, delimiter
    /// included.  When no delimiter arrives the whole buffer is filled.
    /// On hardware this blocks for each byte; the model asks its callers
    /// to provide either a delimiter or a buffer's worth of input.
    pub fn read_until(&mut self, delim: u8, buffer: &mut Vec<u8>) -> (len: usize)
        requires
            first_delim(old(self).rx@, delim, old(buffer)@.len() as int) is Some || old(self).rx@.len()
                >= old(buffer)@.len(),
        ensures
            *final(self) == (Uart { rx: final(self).rx, ..*old(self) }),
            final(buffer)@.len() == old(buffer)@.len(),
            match first_delim(old(self).rx@, delim, old(buffer)@.len() as int) {
                Some(i) => len == i + 1 && final(self).rx@ == old(self).rx@.skip(i + 1)
                    && final(buffer)@ == old(self).rx@.take(i + 1) + Seq::new(
                    (old(buffer)@.len() - i - 1) as nat,
                    |k: int| 0u8,
                ),
                None => len == old(buffer)@.len() && final(self).rx@ == old(self).rx@.skip(
                    len as int,
                ) && final(buffer)@ == old(self).rx@.take(len as int),
            },
    {
        let n = buffer.len();
        let ghost rx0 = self.rx@;
        let mut len: usize = 0;
        let mut done = false;
        let mut idx: usize = 0;
        while idx < n
            invariant
                idx <= n,
                n == buffer@.len(),
                len <= idx,
                *self == (Uart { rx: self.rx, ..*old(self) }),
                first_delim(rx0, delim, n as int) is Some || rx0.len() >= n,
                !done ==> len == idx && first_delim(rx0, delim, idx as int) is None && self.rx@
                    == rx0.skip(idx as int),
                done ==> first_delim(rx0, delim, n as int) == Some(len - 1) && len <= idx
                    && len <= rx0.len() && self.rx@ == rx0.skip(len as int),
                forall|k: int| 0 <= k < idx && k < len ==> #[trigger] buffer@[k] == rx0[k],
                forall|k: int| len <= k < idx ==> #[trigger] buffer@[k] == 0,
            decreases n - idx,
        {
            if done {
                buffer[idx] = 0;
            } else {
                proof {
                    if rx0.len() < n {
                        lemma_first_delim_bound(rx0, delim, idx as int, n as int);
                    }
                }
                let c = self.read_byte();
                done = c == delim;
                len = len + 1;
                buffer[idx] = c;
                proof {
                    assert(self.rx@ =~= rx0.skip(idx + 1));
                    assert(c == rx0[idx as int]);
                    if done {
                        lemma_first_delim_found(rx0, delim, idx as int, n as int);
                    } else {
                        lemma_first_delim_step(rx0, delim, idx as int);
                    }
                }
            }
            idx = idx + 1;
        }
        proof {
            if done {
                let i = len - 1;
                assert(buffer@ =~= rx0.take(i + 1) + Seq::new((n - i - 1) as nat, |k: int| 0u8));
            } else {
                assert(buffer@ =~= rx0.take(n as int));
            }
        }
        len
    }

    /// Fill `buffer` with the next waiting bytes, in arrival order.
    pub fn read_exact(&mut self, buffer: &mut Vec<u8>)
        requires
            old(self).rx@.len() >= old(buffer)@.len(),
        ensures
            *final(self) == (Uart { rx: final(self).rx, ..*old(self) }),
            final(self).rx@ == old(self).rx@.skip(old(buffer)@.len() as int),
            final(buffer)@.len() == old(buffer)@.len(),
            final(buffer)@ == old(self).rx@.take(old(buffer)@.len() as int),
    {
        let n = buffer.len();
        let mut idx: usize = 0;
        while idx < n
            invariant
                idx <= n,
                n == buffer@.len(),
                old(self).rx@.len() >= n,
                *self == (Uart { rx: self.rx, ..*old(self) }),
                self.rx@ == old(self).rx@.skip(idx as int),
                forall|j: int| 0 <= j < idx ==> #[trigger] buffer@[j] == old(self).rx@[j],
            decreases n - idx,
        {
            let b = self.read_byte();
            buffer[idx] = b;
            idx = idx + 1;
            proof {
                assert(self.rx@ =~= old(self).rx@.skip(idx as int));
            }
        }
        proof {
            assert(buffer@ =~= old(self).rx@.take(n as int));
        }
    }
}

} // verus!
