//! The management firmware's application logic: a console line editor
//! that answers each completed line, and a one-hertz LED heartbeat.

use vstd::prelude::*;

verus! {

/// The events the application handles.
pub enum Event {
    /// A byte arrived on the console.
    ConsoleRx(u8),
    /// The one-hertz timer fired.
    Timer1Hz,
}

/// Something that can be flipped between on and off.
pub trait Toggle: Sized {
    /// Whether the device is on.
    spec fn on_state(&self) -> bool;

    /// Flip the device between on and off.
    fn toggle(&mut self)
        ensures
            final(self).on_state() != old(self).on_state(),
    ;
}

/// The bytes a line buffer holds, oldest first.
pub uninterp spec fn line_bytes(b: LineBuf) -> Seq<u8>;

/// A fixed 128-byte line buffer.  Its storage is a `heapless::String`,
/// an outside crate's collection, so the value is kept opaque and reached
/// only through the plain-value wrappers below.
#[verifier::external_body]
pub struct LineBuf {
    inner: heapless::String<128>,
}

/// The two UTF-8 bytes a character in the upper half of the byte range
/// encodes to.
pub open spec fn utf8_pair(byte: u8) -> Seq<u8> {
    seq![(0xC0 | (byte >> 6)) as u8, (0x80 | (byte & 0x3F)) as u8]
}

impl LineBuf {
    /// Relies on `heapless::String::new`: a new string is empty.
    #[verifier::external_body]
    pub fn new() -> (b: LineBuf)
        ensures
            line_bytes(b) == Seq::<u8>::empty(),
    {
        LineBuf { inner: heapless::String::new() }
    }

    /// Relies on `heapless::String::len`: the byte length of the contents.
    #[verifier::external_body]
    pub fn len(&self) -> (n: usize)
        ensures
            n == line_bytes(*self).len(),
    {
        self.inner.len()
    }

    /// Relies on `heapless::String::capacity`: the fixed byte capacity the
    /// buffer was declared with.
    #[verifier::external_body]
    pub fn capacity(&self) -> (n: usize)
        ensures
            n == 128,
    {
        self.inner.capacity()
    }

    /// Relies on `heapless::String::push`: the character's UTF-8 bytes are
    /// appended whole when they fit under the capacity, and nothing
    /// changes when they do not.  A byte below `0x80` encodes as itself;
    /// a higher byte encodes as two bytes.
    #[verifier::external_body]
    pub fn push_byte_char(&mut self, byte: u8)
        ensures
            byte < 0x80 && line_bytes(*old(self)).len() < 128 ==> line_bytes(*final(self))
                == line_bytes(*old(self)).push(byte),
            byte < 0x80 && line_bytes(*old(self)).len() >= 128 ==> line_bytes(*final(self))
                == line_bytes(*old(self)),
            byte >= 0x80 && line_bytes(*old(self)).len() + 2 <= 128 ==> line_bytes(*final(self))
                == line_bytes(*old(self)) + utf8_pair(byte),
            byte >= 0x80 && line_bytes(*old(self)).len() + 2 > 128 ==> line_bytes(*final(self))
                == line_bytes(*old(self)),
    {
        let _ = self.inner.push(byte as char);
    }

    /// Relies on `heapless::String::clear`: empties the buffer.
    #[verifier::external_body]
    pub fn clear(&mut self)
        ensures
            line_bytes(*final(self)) == Seq::<u8>::empty(),
    {
        self.inner.clear();
    }

    /// Relies on `heapless::String::as_str`: the contents, as bytes.
    #[verifier::external_body]
    pub fn to_bytes(&self) -> (v: Vec<u8>)
        ensures
            v@ == line_bytes(*self),
    {
        self.inner.as_str().as_bytes().to_vec()
    }
}

/// The bytes of `"hello: "`, the prefix of every response line.
pub open spec fn hello_bytes() -> Seq<u8> {
    seq![104u8, 101u8, 108u8, 108u8, 111u8, 58u8, 32u8]
}

/// The bytes of `"\r\n"`.
pub open spec fn crlf_bytes() -> Seq<u8> {
    seq![13u8, 10u8]
}

/// Whether a received byte keeps the line growing: anything but carriage
/// return while the line is below its capacity.
pub open spec fn still_building(line: Seq<u8>, byte: u8) -> bool {
    byte != 13 && line.len() < 128
}

/// The line contents after one byte is pushed, following the buffer's
/// UTF-8 and capacity behaviour.
pub open spec fn line_after_push(line: Seq<u8>, byte: u8) -> Seq<u8> {
    if byte < 0x80 {
        if line.len() < 128 {
            line.push(byte)
        } else {
            line
        }
    } else {
        if line.len() + 2 <= 128 {
            line + utf8_pair(byte)
        } else {
            line
        }
    }
}

/// The application state: the console line being collected.
pub struct App {
    /// The line being collected.
    pub line: LineBuf,
}

impl Default for App {
    /// An application with an empty line.
    fn default() -> (a: App)
        ensures
            line_bytes(a.line) == Seq::<u8>::empty(),
    {
        App { line: LineBuf::new() }
    }
}

/// Append every byte of `v` to `tx`.
fn append_vec(tx: &mut Vec<u8>, v: &Vec<u8>)
    ensures
        final(tx)@ == old(tx)@ + v@,
{
    let mut idx: usize = 0;
    proof {
        assert(tx@ =~= old(tx)@ + v@.subrange(0, 0));
    }
    while idx < v.len()
        invariant
            idx <= v@.len(),
            tx@ == old(tx)@ + v@.subrange(0, idx as int),
        decreases v@.len() - idx,
    {
        let b = v[idx];
        tx.push(b);
        idx = idx + 1;
        proof {
            assert(tx@ =~= old(tx)@ + v@.subrange(0, idx as int));
        }
    }
    proof {
        assert(v@.subrange(0, v@.len() as int) =~= v@);
    }
}

/// Append `"hello: "` to `tx`.
fn append_hello(tx: &mut Vec<u8>)
    ensures
        final(tx)@ == old(tx)@ + hello_bytes(),
{
    tx.push(104u8);
    tx.push(101u8);
    tx.push(108u8);
    tx.push(108u8);
    tx.push(111u8);
    tx.push(58u8);
    tx.push(32u8);
    proof {
        assert(tx@ =~= old(tx)@ + hello_bytes());
    }
}

/// Append `"\r\n"` to `tx`.
fn append_crlf(tx: &mut Vec<u8>)
    ensures
        final(tx)@ == old(tx)@ + crlf_bytes(),
{
    tx.push(13u8);
    tx.push(10u8);
    proof {
        assert(tx@ =~= old(tx)@ + crlf_bytes());
    }
}

impl App {
    /// Flip the heartbeat LED.
    pub fn timer_1hz<T: Toggle>(&mut self, led: &mut T)
        ensures
            final(led).on_state() != old(led).on_state(),
            *final(self) == *old(self),
    {
        led.toggle();
    }

    /// Collect one console byte into the line; on a carriage return, or
    /// once the line is full, answer with `"hello: "`, the collected
    /// line and a line break, and start a fresh line.
    pub fn handle_byte(&mut self, byte: u8, tx: &mut Vec<u8>)
        ensures
            still_building(line_bytes(old(self).line), byte) ==> final(tx)@ == old(tx)@
                && line_bytes(final(self).line) == line_after_push(
                line_bytes(old(self).line),
                byte,
            ),
            !still_building(line_bytes(old(self).line), byte) ==> final(tx)@ == old(tx)@
                + hello_bytes() + line_bytes(old(self).line) + crlf_bytes() && line_bytes(
                final(self).line,
            ) == Seq::<u8>::empty(),
    {
        if byte != 13 && self.line.len() < self.line.capacity() {
            self.line.push_byte_char(byte);
            return ;
        }
        append_hello(tx);
        let contents = self.line.to_bytes();
        append_vec(tx, &contents);
        append_crlf(tx);
        self.line.clear();
        proof {
            assert(tx@ =~= old(tx)@ + hello_bytes() + line_bytes(old(self).line) + crlf_bytes());
        }
    }

    /// Handle one event: route a console byte to the line editor and a
    /// timer tick to the heartbeat LED.
    pub fn handle<T: Toggle>(&mut self, event: Event, tx: &mut Vec<u8>, led_a: &mut T)
        ensures
            ({
                match event {
                    Event::ConsoleRx(byte) => *final(led_a) == *old(led_a) && (still_building(
                        line_bytes(old(self).line),
                        byte,
                    ) ==> final(tx)@ == old(tx)@ && line_bytes(final(self).line)
                        == line_after_push(line_bytes(old(self).line), byte)) && (!still_building(
                        line_bytes(old(self).line),
                        byte,
                    ) ==> final(tx)@ == old(tx)@ + hello_bytes() + line_bytes(old(self).line)
                        + crlf_bytes() && line_bytes(final(self).line) == Seq::<u8>::empty()),
                    Event::Timer1Hz => final(led_a).on_state() != old(led_a).on_state()
                        && *final(self) == *old(self) && final(tx)@ == old(tx)@,
                }
            }),
    {
        match event {
            Event::ConsoleRx(b) => self.handle_byte(b, tx),
            Event::Timer1Hz => self.timer_1hz(led_a),
        }
    }
}

} // verus!
