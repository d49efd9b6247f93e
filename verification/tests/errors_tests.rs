use microbit_core::errors::{CommandError, FillError};

#[test]
fn rejected_byte_becomes_overflow() {
    assert_eq!(FillError::from(42u8), FillError::Overflow(42));
    assert!(matches!(CommandError::from(42u8), CommandError::Overflow(42)));
}

#[test]
fn fill_errors_embed_losslessly() {
    let e = CommandError::from(FillError::Transport(b"rx dead".to_vec()));
    match e {
        CommandError::Transport(d) => assert_eq!(d, b"rx dead".to_vec()),
        other => panic!("expected a transport failure, got {:?}", other),
    }
    let e = CommandError::from(FillError::Write(b"tx dead".to_vec()));
    match e {
        CommandError::Write(d) => assert_eq!(d, b"tx dead".to_vec()),
        other => panic!("expected a formatted-write failure, got {:?}", other),
    }
    assert!(matches!(CommandError::from(FillError::Overflow(9)), CommandError::Overflow(9)));
}

#[test]
fn error_messages_show_label_and_detail() {
    assert_eq!(
        CommandError::Transport(b"rx timeout".to_vec()).message(),
        b"serial communication: rx timeout".to_vec()
    );
    assert_eq!(
        CommandError::Write(b"tx gone".to_vec()).message(),
        b"formatted write: tx gone".to_vec()
    );
    assert_eq!(
        CommandError::Utf8(b"bad byte".to_vec()).message(),
        b"utf8 conversion: bad byte".to_vec()
    );
    assert_eq!(CommandError::Overflow(0).message(), b"command word too long".to_vec());
}

#[test]
fn unrecognized_message_carries_the_word() {
    let e = CommandError::Unrecognized(b"foo".to_vec());
    assert_eq!(e.message(), b"unrecognized command: foo".to_vec());
}
