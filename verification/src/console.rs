//! Console selection protocol.
//!
//! The operator answers the test menu with one line of text: a decimal test
//! index, or the reserved value 255 meaning "run all tests".  The host reads
//! the line from the byte channel and hands it here; this module decides
//! whether it is a valid selection, and which single diagnostic to print
//! before re-prompting when it is not.  The host loops until a selection
//! comes back, so the protocol as a whole never fails, it only re-prompts.

use crate::serial;
use vstd::prelude::*;

verus! {

/// Tells whether a byte is an ASCII decimal digit.
pub open spec fn spec_is_digit(b: u8) -> bool {
    48 <= b <= 57
}

/// Tells whether every byte of `s` is an ASCII decimal digit.
pub open spec fn spec_all_digits(s: Seq<u8>) -> bool {
    forall|i: int| 0 <= i < s.len() ==> spec_is_digit(s[i])
}

/// The number denoted by a sequence of ASCII decimal digits.
pub open spec fn spec_dec_value(s: Seq<u8>) -> int
    decreases s.len(),
{
    if s.len() == 0 {
        0
    } else {
        spec_dec_value(s.drop_last()) * 10 + (s.last() - 48)
    }
}

/// Why a selection line was rejected.
#[derive(Clone, Copy, PartialEq, Eq, Structural, Debug)]
pub enum ParseError {
    /// The line holds no byte at all.
    Empty,
    /// Some byte of the line is not an ASCII decimal digit.
    NonDigit,
    /// The digits denote a number above 255.
    TooLarge,
}

/// The digit values of a well-formed line are never negative.
proof fn lemma_dec_value_nonneg(s: Seq<u8>)
    requires
        spec_all_digits(s),
    ensures
        spec_dec_value(s) >= 0,
    decreases s.len(),
{
    if s.len() > 0 {
        assert(spec_all_digits(s.drop_last()));
        lemma_dec_value_nonneg(s.drop_last());
    }
}

/// Appending digits never shrinks the denoted number: the value of a prefix
/// bounds the value of the whole line from below.
proof fn lemma_dec_value_prefix_bound(s: Seq<u8>, i: int)
    requires
        spec_all_digits(s),
        0 <= i <= s.len(),
    ensures
        spec_dec_value(s.take(i)) <= spec_dec_value(s),
    decreases s.len() - i,
{
    if i == s.len() {
        assert(s.take(i) =~= s);
    } else {
        assert(s.take(i + 1).drop_last() =~= s.take(i));
        assert(spec_all_digits(s.take(i)));
        lemma_dec_value_nonneg(s.take(i));
        assert(spec_dec_value(s.take(i + 1)) == spec_dec_value(s.take(i)) * 10 + (s.take(
            i + 1,
        ).last() - 48));
        lemma_dec_value_prefix_bound(s, i + 1);
    }
}

/// Parses a selection line as a decimal test index.
///
/// A valid line is one or more ASCII decimal digits denoting a number at
/// most 255; anything else is rejected with the reason, and the caller
/// re-prompts.
pub fn parse_selection(line: &[u8]) -> (r: Result<u8, ParseError>)
    ensures
        line@.len() == 0 ==> r == Err::<u8, ParseError>(ParseError::Empty),
        line@.len() > 0 && !spec_all_digits(line@) ==> r == Err::<u8, ParseError>(
            ParseError::NonDigit,
        ),
        line@.len() > 0 && spec_all_digits(line@) && spec_dec_value(line@) > 255 ==> r == Err::<
            u8,
            ParseError,
        >(ParseError::TooLarge),
        line@.len() > 0 && spec_all_digits(line@) && spec_dec_value(line@) <= 255 ==> r == Ok::<
            u8,
            ParseError,
        >(spec_dec_value(line@) as u8),
{
    let n = line.len();
    if n == 0 {
        return Err(ParseError::Empty);
    }
    let mut i: usize = 0;
    while i < n
        invariant
            n == line@.len(),
            0 <= i <= n,
            forall|j: int| 0 <= j < i ==> spec_is_digit(line@[j]),
        decreases n - i,
    {
        let b = line[i];
        if b < 48 || b > 57 {
            assert(!spec_all_digits(line@));
            return Err(ParseError::NonDigit);
        }
        i = i + 1;
    }
    assert(spec_all_digits(line@));
    let mut acc: u16 = 0;
    i = 0;
    while i < n
        invariant
            n == line@.len(),
            0 <= i <= n,
            spec_all_digits(line@),
            acc <= 255,
            acc == spec_dec_value(line@.take(i as int)),
        decreases n - i,
    {
        let d: u8 = line[i] - 48;
        let next: u16 = acc * 10 + (d as u16);
        proof {
            assert(line@.take(i + 1).drop_last() =~= line@.take(i as int));
            assert(line@.take(i + 1).last() == line@[i as int]);
        }
        if next > 255 {
            proof {
                lemma_dec_value_prefix_bound(line@, i + 1);
            }
            return Err(ParseError::TooLarge);
        }
        acc = next;
        i = i + 1;
    }
    proof {
        assert(line@.take(n as int) =~= line@);
    }
    Ok(acc as u8)
}

/// The diagnostics the console protocol can report before re-prompting.
#[derive(Clone, Copy, PartialEq, Eq, Structural, Debug)]
pub enum Diagnostic {
    /// The line did not parse as a test index.
    CouldNotParse,
    /// The receive buffer overran before a terminator arrived.
    RxOverflow,
    /// No function to receive was registered with the channel.
    NoDownlink,
    /// Any other channel error.
    UnknownSerial,
}

/// One step of the selection loop: either a selection was obtained, or
/// exactly one diagnostic is to be printed before prompting again.
#[derive(Clone, Copy, PartialEq, Eq, Structural, Debug)]
pub enum ConsoleStep {
    /// A valid selection: a test index, or 255 for "run all tests".
    Selected(u8),
    /// Print this one diagnostic and prompt again.
    Reprompt(Diagnostic),
}

/// Decides what one received line means: a selection, or one diagnostic
/// followed by a fresh prompt.  Nothing else is printed and no state is
/// touched on a malformed line.
pub fn handle_line(line: &[u8]) -> (r: ConsoleStep)
    ensures
        line@.len() > 0 && spec_all_digits(line@) && spec_dec_value(line@) <= 255 ==> r
            == ConsoleStep::Selected(spec_dec_value(line@) as u8),
        !(line@.len() > 0 && spec_all_digits(line@) && spec_dec_value(line@) <= 255) ==> r
            == ConsoleStep::Reprompt(Diagnostic::CouldNotParse),
{
    match parse_selection(line) {
        Ok(index) => ConsoleStep::Selected(index),
        Err(_) => ConsoleStep::Reprompt(Diagnostic::CouldNotParse),
    }
}

/// Decides which one diagnostic a channel read error produces before the
/// loop prompts again.
pub fn handle_channel_error(e: &serial::Error) -> (r: ConsoleStep)
    ensures
        e is BufferOverrun ==> r == ConsoleStep::Reprompt(Diagnostic::RxOverflow),
        e is NoDownlink ==> r == ConsoleStep::Reprompt(Diagnostic::NoDownlink),
        e is Peripheral || e is NoUplink ==> r == ConsoleStep::Reprompt(
            Diagnostic::UnknownSerial,
        ),
{
    match e {
        serial::Error::BufferOverrun => ConsoleStep::Reprompt(Diagnostic::RxOverflow),
        serial::Error::NoDownlink => ConsoleStep::Reprompt(Diagnostic::NoDownlink),
        _ => ConsoleStep::Reprompt(Diagnostic::UnknownSerial),
    }
}

} // verus!
