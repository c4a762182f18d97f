//! Serial transport support.
//!
//! The byte channel itself (register a write function, register a read
//! function, block on them) lives with the host: it is raw I/O against
//! hardware.  What this module holds is the transport's error taxonomy and
//! the line-reading discipline: bytes accumulate until a terminator arrives,
//! and a line longer than the receive buffer is a buffer overrun.

use vstd::prelude::*;

verus! {

/// Serial transport errors.
#[derive(Clone, Copy, PartialEq, Eq, Structural, Debug)]
pub enum Error {
    /// Error from the peripheral.
    Peripheral,
    /// No function to send defined.
    NoUplink,
    /// No function to receive defined.
    NoDownlink,
    /// RX buffer overrun.
    BufferOverrun,
}

/// What one received byte did to a line being read.
#[derive(Clone, Copy, PartialEq, Eq, Structural, Debug)]
pub enum LineEvent {
    /// The byte was a line terminator: the accumulated line is complete.
    Complete,
    /// The byte was stored; more input is needed.
    Pending,
    /// The buffer is full and the byte was not a terminator: overrun.
    Overrun,
}

/// A line terminator ends the line without being stored.
pub open spec fn spec_is_terminator(b: u8) -> bool {
    b == 10 || b == 13
}

/// Accumulates received bytes into one line, up to a fixed capacity.
///
/// The host feeds it every byte read from the channel; the accumulator
/// decides whether the line is complete, still growing, or overrun.
pub struct LineAccumulator {
    /// Bytes of the line received so far, terminator excluded.
    pub buf: Vec<u8>,
    /// Capacity of the receive buffer.
    pub cap: usize,
}

impl LineAccumulator {
    /// The accumulator never holds more bytes than its capacity.
    pub open spec fn wf(self) -> bool {
        self.buf@.len() <= self.cap
    }

    /// Creates an empty accumulator for lines of at most `cap` bytes.
    pub fn new(cap: usize) -> (r: LineAccumulator)
        ensures
            r.buf@ == Seq::<u8>::empty(),
            r.cap == cap,
            r.wf(),
    {
        LineAccumulator { buf: Vec::new(), cap }
    }

    /// Feeds one received byte.
    ///
    /// A terminator completes the line without being stored; any other byte
    /// is appended while room remains, and overruns the buffer otherwise.
    pub fn push_byte(&mut self, b: u8) -> (r: LineEvent)
        requires
            old(self).wf(),
        ensures
            final(self).cap == old(self).cap,
            final(self).wf(),
            spec_is_terminator(b) ==> r == LineEvent::Complete && final(self).buf@ == old(self).buf@,
            !spec_is_terminator(b) && old(self).buf@.len() < old(self).cap ==> r
                == LineEvent::Pending && final(self).buf@ == old(self).buf@.push(b),
            !spec_is_terminator(b) && old(self).buf@.len() >= old(self).cap ==> r
                == LineEvent::Overrun && final(self).buf@ == old(self).buf@,
    {
        if b == 10 || b == 13 {
            LineEvent::Complete
        } else if self.buf.len() < self.cap {
            self.buf.push(b);
            LineEvent::Pending
        } else {
            LineEvent::Overrun
        }
    }

    /// Tells whether the buffer is full: one more non-terminator byte would
    /// overrun it.
    pub fn is_full(&self) -> (r: bool)
        ensures
            r == (self.buf@.len() >= self.cap),
    {
        self.buf.len() >= self.cap
    }

    /// The accumulated line, terminator excluded.
    pub fn line(&self) -> (r: &Vec<u8>)
        ensures
            r@ == self.buf@,
    {
        &self.buf
    }

    /// Discards the accumulated bytes so the next line starts empty.
    pub fn clear(&mut self)
        ensures
            final(self).buf@ == Seq::<u8>::empty(),
            final(self).cap == old(self).cap,
            final(self).wf(),
    {
        self.buf.clear();
    }
}

} // verus!
