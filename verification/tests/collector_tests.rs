use microbit_core::buffer::{LineBuffer, WordBuffer};
use microbit_core::collector::{
    echo_one_word, feed_byte, feed_event, try_fill_buffer_with_echo, ByteAction, EventStep,
    LineEnd, SerialEvent,
};
use microbit_core::errors::FillError;

fn byte_trace(bytes: &[u8]) -> Vec<SerialEvent> {
    bytes.iter().map(|&b| SerialEvent::Byte(b)).collect()
}

#[test]
fn collector_keeps_fitting_line() {
    // A word without a terminator that fits the buffer is kept whole, in
    // order, and echoed byte for byte.
    let mut b = LineBuffer::new();
    let (end, consumed, echoed, _) = try_fill_buffer_with_echo(&mut b, &byte_trace(b"hello"));
    assert_eq!(end, LineEnd::Starved);
    assert_eq!(consumed, 5);
    assert_eq!(b.as_slice(), b"hello");
    assert_eq!(echoed, b"hello".to_vec());
}

#[test]
fn collector_completes_on_terminator() {
    let mut b = LineBuffer::new();
    let (end, consumed, echoed, _) = try_fill_buffer_with_echo(&mut b, &byte_trace(b"abc\rxyz"));
    assert_eq!(end, LineEnd::Done);
    assert_eq!(consumed, 4);
    assert_eq!(b.as_slice(), b"abc");
    assert_eq!(echoed, b"abc\r\n".to_vec());
}

#[test]
fn collector_overflows_past_capacity() {
    // Twenty plain bytes against a sixteen-byte buffer: the seventeenth byte
    // is rejected and carried in the overflow.
    let input: Vec<u8> = (b'a'..b'a' + 20).collect();
    let mut b = LineBuffer::new();
    let (end, consumed, echoed, _) = try_fill_buffer_with_echo(&mut b, &byte_trace(&input));
    assert_eq!(end, LineEnd::Full(input[16]));
    assert_eq!(consumed, 17);
    assert_eq!(b.as_slice(), &input[..16]);
    // The rejected byte was already echoed when the overflow was found.
    assert_eq!(echoed, input[..17].to_vec());
}

#[test]
fn collector_word_of_exactly_capacity_fits() {
    let mut input: Vec<u8> = (0..16).map(|i| b'a' + i).collect();
    input.push(b'\r');
    let mut b = LineBuffer::new();
    let (end, consumed, _, _) = try_fill_buffer_with_echo(&mut b, &byte_trace(&input));
    assert_eq!(end, LineEnd::Done);
    assert_eq!(consumed, 17);
    assert_eq!(b.as_slice(), &input[..16]);
}

#[test]
fn collector_stops_on_read_fault() {
    let mut trace = byte_trace(b"ab");
    trace.push(SerialEvent::ReadFault(b"bus fell over".to_vec()));
    trace.push(SerialEvent::Byte(b'c'));
    let mut b = LineBuffer::new();
    let (end, consumed, echoed, detail) = try_fill_buffer_with_echo(&mut b, &trace);
    assert_eq!(end, LineEnd::ReadFailed);
    assert_eq!(consumed, 3);
    assert_eq!(b.as_slice(), b"ab");
    assert_eq!(echoed, b"ab".to_vec());
    assert_eq!(detail, b"bus fell over".to_vec());
}

#[test]
fn collector_stops_on_echo_fault() {
    let mut trace = byte_trace(b"ab");
    trace.push(SerialEvent::EchoFault(b'c', b"tx jammed".to_vec()));
    let mut b = LineBuffer::new();
    let (end, consumed, echoed, detail) = try_fill_buffer_with_echo(&mut b, &trace);
    assert_eq!(end, LineEnd::EchoFailed(b'c'));
    assert_eq!(consumed, 3);
    assert_eq!(echoed, b"ab".to_vec());
    assert_eq!(detail, b"tx jammed".to_vec());
}

#[test]
fn feed_byte_actions() {
    let mut b = LineBuffer::new();
    assert_eq!(feed_byte(&mut b, b'a'), ByteAction::Echo);
    assert_eq!(b.as_slice(), b"a");
    assert_eq!(feed_byte(&mut b, b'\r'), ByteAction::EndLine);
    assert_eq!(b.as_slice(), b"a");
    for i in 0..15 {
        assert_eq!(feed_byte(&mut b, b'b' + i), ByteAction::Echo);
    }
    assert_eq!(feed_byte(&mut b, b'z'), ByteAction::Reject);
    assert_eq!(b.len(), 16);
}

#[test]
fn feed_event_maps_faults_to_failures() {
    let mut b = LineBuffer::new();
    assert_eq!(feed_event(&mut b, &SerialEvent::Byte(b'a')), EventStep::Act(ByteAction::Echo));
    assert_eq!(b.as_slice(), b"a");
    // A failed read and a failed byte echo are transport failures; a failed
    // line-end write is a formatted-write failure. Each carries the fault's
    // rendered text on, and none touches the buffer.
    assert_eq!(
        feed_event(&mut b, &SerialEvent::ReadFault(b"rx dead".to_vec())),
        EventStep::Abort(FillError::Transport(b"rx dead".to_vec()))
    );
    assert_eq!(
        feed_event(&mut b, &SerialEvent::EchoFault(b'x', b"tx dead".to_vec())),
        EventStep::Abort(FillError::Transport(b"tx dead".to_vec()))
    );
    assert_eq!(
        feed_event(&mut b, &SerialEvent::EchoFault(b'\r', b"tx dead".to_vec())),
        EventStep::Abort(FillError::Write(b"tx dead".to_vec()))
    );
    assert_eq!(b.as_slice(), b"a");
}

#[test]
fn echo_word_reverses_completed_line() {
    let mut b = WordBuffer::new();
    let (end, consumed, written) = echo_one_word(&mut b, b"hello\r");
    assert_eq!(end, LineEnd::Done);
    assert_eq!(consumed, 6);
    assert_eq!(written, b"olleh\r\n".to_vec());
    // The word is reversed in the buffer itself before being written out.
    assert_eq!(b.as_slice(), b"olleh");
}

#[test]
fn echo_word_accepts_longer_words_than_the_command_path() {
    // The echo loop's buffer holds thirty-two bytes, so a twenty-byte word
    // that would overflow the command path echoes back reversed.
    let input: Vec<u8> = (b'a'..b'a' + 20).collect();
    let mut trace = input.clone();
    trace.push(b'\r');
    let mut b = WordBuffer::new();
    let (end, consumed, written) = echo_one_word(&mut b, &trace);
    assert_eq!(end, LineEnd::Done);
    assert_eq!(consumed, 21);
    let mut expected: Vec<u8> = input.iter().rev().copied().collect();
    expected.extend_from_slice(b"\r\n");
    assert_eq!(written, expected);
}

#[test]
fn echo_word_reports_overflow_locally() {
    let input: Vec<u8> = (0..40).map(|i| b'a' + i % 20).collect();
    let mut b = WordBuffer::new();
    let (end, consumed, written) = echo_one_word(&mut b, &input);
    assert_eq!(end, LineEnd::Full(input[32]));
    assert_eq!(consumed, 33);
    assert_eq!(b.as_slice(), &input[..32]);
    assert_eq!(written, b"ERROR: Entered string too long, resetting!\r\n".to_vec());
}

#[test]
fn echo_word_waits_on_empty_input() {
    let mut b = WordBuffer::new();
    let (end, consumed, written) = echo_one_word(&mut b, b"");
    assert_eq!(end, LineEnd::Starved);
    assert_eq!(consumed, 0);
    assert!(written.is_empty());
}
