use bern_test::serial::{LineAccumulator, LineEvent};

#[test]
fn accumulates_until_newline() {
    let mut acc = LineAccumulator::new(128);
    assert_eq!(acc.push_byte(b'4'), LineEvent::Pending);
    assert_eq!(acc.push_byte(b'2'), LineEvent::Pending);
    assert_eq!(acc.push_byte(b'\n'), LineEvent::Complete);
    assert_eq!(acc.line().as_slice(), b"42");
}

#[test]
fn carriage_return_also_terminates() {
    let mut acc = LineAccumulator::new(128);
    assert_eq!(acc.push_byte(b'7'), LineEvent::Pending);
    assert_eq!(acc.push_byte(b'\r'), LineEvent::Complete);
    assert_eq!(acc.line().as_slice(), b"7");
}

#[test]
fn empty_line_completes_immediately() {
    let mut acc = LineAccumulator::new(128);
    assert_eq!(acc.push_byte(b'\n'), LineEvent::Complete);
    assert_eq!(acc.line().as_slice(), b"");
}

#[test]
fn overruns_when_full() {
    let mut acc = LineAccumulator::new(3);
    assert_eq!(acc.push_byte(b'a'), LineEvent::Pending);
    assert_eq!(acc.push_byte(b'b'), LineEvent::Pending);
    assert_eq!(acc.push_byte(b'c'), LineEvent::Pending);
    assert!(acc.is_full());
    assert_eq!(acc.push_byte(b'd'), LineEvent::Overrun);
    // the overflowing byte is not stored
    assert_eq!(acc.line().as_slice(), b"abc");
}

#[test]
fn terminator_still_completes_a_full_buffer() {
    let mut acc = LineAccumulator::new(2);
    assert_eq!(acc.push_byte(b'9'), LineEvent::Pending);
    assert_eq!(acc.push_byte(b'9'), LineEvent::Pending);
    assert_eq!(acc.push_byte(b'\n'), LineEvent::Complete);
    assert_eq!(acc.line().as_slice(), b"99");
}

#[test]
fn clear_empties_the_buffer() {
    let mut acc = LineAccumulator::new(4);
    assert_eq!(acc.push_byte(b'x'), LineEvent::Pending);
    acc.clear();
    assert_eq!(acc.line().as_slice(), b"");
    assert_eq!(acc.push_byte(b'y'), LineEvent::Pending);
    assert_eq!(acc.line().as_slice(), b"y");
}
