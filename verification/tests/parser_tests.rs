use microbit_core::errors::CommandError;
use microbit_core::parser::{parse_command, Command};

#[test]
fn parse_magnetometer_word() {
    assert!(matches!(parse_command(b"magnetometer"), Ok(Command::Magnetometer)));
}

#[test]
fn parse_accelerometer_word() {
    assert!(matches!(parse_command(b"accelerometer"), Ok(Command::Accelerometer)));
}

#[test]
fn parse_rejects_empty_word() {
    match parse_command(b"") {
        Err(CommandError::Unrecognized(w)) => assert_eq!(w, b"".to_vec()),
        other => panic!("expected an unrecognized-command error, got {:?}", other),
    }
}

#[test]
fn parse_is_case_sensitive() {
    match parse_command(b"Magnetometer") {
        Err(CommandError::Unrecognized(w)) => assert_eq!(w, b"Magnetometer".to_vec()),
        other => panic!("expected an unrecognized-command error, got {:?}", other),
    }
}

#[test]
fn parse_rejects_partial_word() {
    match parse_command(b"mag") {
        Err(CommandError::Unrecognized(w)) => assert_eq!(w, b"mag".to_vec()),
        other => panic!("expected an unrecognized-command error, got {:?}", other),
    }
}

#[test]
fn parse_rejects_invalid_utf8() {
    // The decode error's own rendering rides along as the failure's detail.
    match parse_command(&[0xff, 0xfe]) {
        Err(CommandError::Utf8(d)) => {
            assert_eq!(d, b"invalid utf-8 sequence of 1 bytes from index 0".to_vec());
        },
        other => panic!("expected a decoding error, got {:?}", other),
    }
    // A lone continuation byte is not valid UTF-8 either.
    assert!(matches!(parse_command(&[0x80]), Err(CommandError::Utf8(_))));
    // A valid two-byte encoding is accepted as text, just not as a command.
    assert!(matches!(parse_command(&[0xc3, 0xa9]), Err(CommandError::Unrecognized(_))));
}
