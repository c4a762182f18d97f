use bern_test::console::{handle_channel_error, handle_line, parse_selection};
use bern_test::console::{ConsoleStep, Diagnostic, ParseError};
use bern_test::render::render_diagnostic;
use bern_test::serial::Error;

#[test]
fn parses_plain_indices() {
    assert_eq!(parse_selection(b"0"), Ok(0));
    assert_eq!(parse_selection(b"7"), Ok(7));
    assert_eq!(parse_selection(b"42"), Ok(42));
    assert_eq!(parse_selection(b"254"), Ok(254));
}

#[test]
fn parses_the_run_all_sentinel() {
    assert_eq!(parse_selection(b"255"), Ok(255));
}

#[test]
fn accepts_leading_zeros() {
    assert_eq!(parse_selection(b"007"), Ok(7));
    assert_eq!(parse_selection(b"000"), Ok(0));
    assert_eq!(parse_selection(b"0255"), Ok(255));
}

#[test]
fn rejects_empty_input() {
    assert_eq!(parse_selection(b""), Err(ParseError::Empty));
}

#[test]
fn rejects_non_digits() {
    assert_eq!(parse_selection(b"xyz"), Err(ParseError::NonDigit));
    assert_eq!(parse_selection(b"1a"), Err(ParseError::NonDigit));
    assert_eq!(parse_selection(b"-1"), Err(ParseError::NonDigit));
    assert_eq!(parse_selection(b" 2"), Err(ParseError::NonDigit));
}

#[test]
fn rejects_values_above_byte_range() {
    assert_eq!(parse_selection(b"256"), Err(ParseError::TooLarge));
    assert_eq!(parse_selection(b"999"), Err(ParseError::TooLarge));
    assert_eq!(parse_selection(b"10000000000000000000000"), Err(ParseError::TooLarge));
}

#[test]
fn valid_line_selects() {
    assert_eq!(handle_line(b"3"), ConsoleStep::Selected(3));
    assert_eq!(handle_line(b"255"), ConsoleStep::Selected(255));
}

#[test]
fn malformed_line_yields_exactly_one_diagnostic_and_reprompts() {
    // the decision step neither reads nor writes any persisted state
    let step = handle_line(b"xyz");
    assert_eq!(step, ConsoleStep::Reprompt(Diagnostic::CouldNotParse));
    let line = render_diagnostic(Diagnostic::CouldNotParse);
    assert_eq!(line, b"Error: Could not parse test index".to_vec());
}

#[test]
fn channel_errors_map_to_their_diagnostics() {
    assert_eq!(
        handle_channel_error(&Error::BufferOverrun),
        ConsoleStep::Reprompt(Diagnostic::RxOverflow)
    );
    assert_eq!(
        handle_channel_error(&Error::NoDownlink),
        ConsoleStep::Reprompt(Diagnostic::NoDownlink)
    );
    assert_eq!(
        handle_channel_error(&Error::Peripheral),
        ConsoleStep::Reprompt(Diagnostic::UnknownSerial)
    );
    assert_eq!(
        handle_channel_error(&Error::NoUplink),
        ConsoleStep::Reprompt(Diagnostic::UnknownSerial)
    );
}

#[test]
fn diagnostic_lines_are_exact() {
    assert_eq!(
        render_diagnostic(Diagnostic::RxOverflow),
        b"Error: Serial RX buffer overflow".to_vec()
    );
    assert_eq!(
        render_diagnostic(Diagnostic::NoDownlink),
        b"Error: No serial downlink provided".to_vec()
    );
    assert_eq!(
        render_diagnostic(Diagnostic::UnknownSerial),
        b"Error: Unknown serial error".to_vec()
    );
}
