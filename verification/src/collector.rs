//! The echoing line collector. Bytes arrive one at a time from the blocking
//! transport; each ordinary byte is echoed back (write, then flush) and
//! buffered, a carriage return completes the line, and a byte that no longer
//! fits ends the attempt as an overflow. The transport itself can fail on a
//! read or on an echo, so an attempt is modelled over a trace of
//! [`SerialEvent`]s; [`scan_line`] is the mathematical model of one attempt,
//! [`feed_event`] the per-event decision the transport loop drives, and
//! [`try_fill_buffer_with_echo`] runs a whole attempt over a given trace.
//! [`echo_one_word`] is the plain echo variant, which buffers the same way
//! into a wider buffer but writes the completed word back reversed and keeps
//! an overflow to itself.

use vstd::prelude::*;
use crate::buffer::{LineBuffer, WordBuffer, LINE_CAPACITY, WORD_CAPACITY};
use crate::errors::FillError;
use crate::text::{append_crlf, append_slice, append_too_long_text, crlf, too_long_text};

verus! {

/// The byte that terminates a command line: a carriage return.
pub const TERMINATOR: u8 = 13;

/// What the transport did at one step of a read attempt, as the driving loop
/// observes it. A fault carries the underlying error's rendered text, which
/// the report to the operator shows after the failure's fixed label.
#[derive(Debug, Clone, PartialEq, Eq)]
pub enum SerialEvent {
    /// A byte arrived, and whatever had to be written for it — its echo, or
    /// the line end for the terminator — went through.
    Byte(u8),
    /// A byte arrived but writing its echo (or, for the terminator, the line
    /// end) failed.
    EchoFault(u8, Vec<u8>),
    /// The blocking read itself failed.
    ReadFault(Vec<u8>),
}

/// How one line-reading attempt ends.
#[derive(Debug, Clone, Copy, PartialEq, Eq, Structural)]
pub enum LineEnd {
    /// The terminator arrived: the buffered word is complete.
    Done,
    /// A byte arrived with the buffer already full; it carries that byte.
    Full(u8),
    /// A blocking read failed.
    ReadFailed,
    /// Echoing the carried byte (or writing the line end, when it is the
    /// terminator) failed.
    EchoFailed(u8),
    /// The trace ran out first: the collector would still be waiting to read.
    Starved,
}

/// A trace in which every read yields a byte and every write goes through.
pub open spec fn byte_events(s: Seq<u8>) -> Seq<SerialEvent> {
    s.map(|i: int, b: u8| SerialEvent::Byte(b))
}

/// The rendered fault text an event carries; a faultless event carries none.
pub open spec fn event_detail(e: SerialEvent) -> Seq<u8> {
    match e {
        SerialEvent::Byte(_) => Seq::<u8>::empty(),
        SerialEvent::EchoFault(_, d) => d@,
        SerialEvent::ReadFault(d) => d@,
    }
}

/// A plain byte event: an ordinary byte, echoed without fault.
pub open spec fn is_plain_byte(e: SerialEvent) -> bool {
    e matches SerialEvent::Byte(b) && b != TERMINATOR
}

/// The byte an event carries; a failed read carries none, and zero stands in.
pub open spec fn event_byte(e: SerialEvent) -> u8 {
    match e {
        SerialEvent::Byte(b) => b,
        SerialEvent::EchoFault(b, _) => b,
        SerialEvent::ReadFault(_) => 0,
    }
}

/// The bytes a trace carries, eventwise.
pub open spec fn bytes_of(s: Seq<SerialEvent>) -> Seq<u8> {
    s.map(|i: int, e: SerialEvent| event_byte(e))
}

/// Model of one collecting attempt over the trace `s`, with `k` bytes already
/// held by a buffer of capacity `cap`: how the attempt ends, how many events
/// it consumes, the word it buffers, the bytes it echoes back, and — when a
/// transport fault ended it — the fault's rendered text.
pub open spec fn scan_line(s: Seq<SerialEvent>, k: nat, cap: nat) -> (
    LineEnd,
    int,
    Seq<u8>,
    Seq<u8>,
    Seq<u8>,
)
    decreases s.len(),
{
    if s.len() == 0 {
        (LineEnd::Starved, 0int, Seq::<u8>::empty(), Seq::<u8>::empty(), Seq::<u8>::empty())
    } else {
        match s[0] {
            SerialEvent::ReadFault(d) => (
                LineEnd::ReadFailed,
                1int,
                Seq::<u8>::empty(),
                Seq::<u8>::empty(),
                d@,
            ),
            SerialEvent::EchoFault(b, d) => (
                LineEnd::EchoFailed(b),
                1int,
                Seq::<u8>::empty(),
                Seq::<u8>::empty(),
                d@,
            ),
            SerialEvent::Byte(b) => if b == TERMINATOR {
                (LineEnd::Done, 1int, Seq::<u8>::empty(), crlf(), Seq::<u8>::empty())
            } else if k < cap {
                let r = scan_line(s.drop_first(), k + 1, cap);
                (r.0, 1 + r.1, seq![b] + r.2, seq![b] + r.3, r.4)
            } else {
                (LineEnd::Full(b), 1int, Seq::<u8>::empty(), seq![b], Seq::<u8>::empty())
            },
        }
    }
}

/// An attempt consumes no more events than it is given, consumes everything
/// exactly when it is starved, and otherwise consumes at least the event that
/// ended it.
pub proof fn lemma_scan_line_consumed(s: Seq<SerialEvent>, k: nat, cap: nat)
    ensures
        0 <= scan_line(s, k, cap).1 <= s.len(),
        scan_line(s, k, cap).0 != LineEnd::Starved ==> scan_line(s, k, cap).1 >= 1,
        scan_line(s, k, cap).0 == LineEnd::Starved ==> scan_line(s, k, cap).1 == s.len(),
    decreases s.len(),
{
    if s.len() == 0 {
    } else {
        match s[0] {
            SerialEvent::Byte(b) => {
                if b != TERMINATOR && k < cap {
                    lemma_scan_line_consumed(s.drop_first(), k + 1, cap);
                }
            },
            _ => {},
        }
    }
}

/// Scanning from `i` plain buffered bytes onward: the scan of the whole trace
/// is the scan of the rest, with those bytes put in front of the word and the
/// echo, and counted as consumed.
proof fn lemma_scan_line_prefix(s: Seq<SerialEvent>, i: int, cap: nat)
    requires
        0 <= i <= s.len(),
        i <= cap,
        forall|j: int| 0 <= j < i ==> is_plain_byte(#[trigger] s[j]),
    ensures
        scan_line(s, 0, cap).0 == scan_line(s.skip(i), i as nat, cap).0,
        scan_line(s, 0, cap).1 == i + scan_line(s.skip(i), i as nat, cap).1,
        scan_line(s, 0, cap).2 == bytes_of(s.take(i)) + scan_line(s.skip(i), i as nat, cap).2,
        scan_line(s, 0, cap).3 == bytes_of(s.take(i)) + scan_line(s.skip(i), i as nat, cap).3,
        scan_line(s, 0, cap).4 == scan_line(s.skip(i), i as nat, cap).4,
    decreases i,
{
    if i == 0 {
        assert(s.skip(0) =~= s);
        assert(bytes_of(s.take(0)) + scan_line(s, 0, cap).2 =~= scan_line(s, 0, cap).2);
        assert(bytes_of(s.take(0)) + scan_line(s, 0, cap).3 =~= scan_line(s, 0, cap).3);
    } else {
        lemma_scan_line_prefix(s, i - 1, cap);
        let rest = s.skip(i - 1);
        assert(rest[0] == s[i - 1]);
        assert(is_plain_byte(rest[0]));
        let b = event_byte(s[i - 1]);
        assert(rest.drop_first() =~= s.skip(i));
        let r = scan_line(s.skip(i), i as nat, cap);
        assert(scan_line(rest, (i - 1) as nat, cap) == (r.0, 1 + r.1, seq![b] + r.2, seq![b] + r.3,
        r.4));
        assert(bytes_of(s.take(i - 1)) + (seq![b] + r.2) =~= bytes_of(s.take(i)) + r.2);
        assert(bytes_of(s.take(i - 1)) + (seq![b] + r.3) =~= bytes_of(s.take(i)) + r.3);
    }
}

/// Law: a line that holds no terminator and fits the buffer is buffered
/// whole, in arrival order, and echoed byte for byte.
pub proof fn lemma_collect_keeps_fitting_line(s: Seq<u8>, cap: nat)
    requires
        s.len() <= cap,
        forall|j: int| 0 <= j < s.len() ==> s[j] != TERMINATOR,
    ensures
        scan_line(byte_events(s), 0, cap) == (LineEnd::Starved, s.len() as int, s, s, Seq::<
            u8,
        >::empty()),
{
    let events = byte_events(s);
    assert(forall|j: int| 0 <= j < s.len() ==> is_plain_byte(#[trigger] events[j]));
    lemma_scan_line_prefix(events, s.len() as int, cap);
    assert(events.skip(s.len() as int) =~= Seq::<SerialEvent>::empty());
    assert(bytes_of(events.take(s.len() as int)) =~= s);
    assert(scan_line(events, 0, cap).2 =~= s);
    assert(scan_line(events, 0, cap).3 =~= s);
}

/// Law: given more bytes than the buffer holds, with no terminator among the
/// first capacity-plus-one of them, the attempt overflows on the byte just
/// past the capacity, having buffered and echoed all bytes before it (the
/// rejected byte was already echoed when the overflow was found).
pub proof fn lemma_collect_overflows_long_line(s: Seq<u8>, cap: nat)
    requires
        s.len() > cap,
        forall|j: int| 0 <= j <= cap ==> s[j] != TERMINATOR,
    ensures
        scan_line(byte_events(s), 0, cap).0 == LineEnd::Full(s[cap as int]),
        scan_line(byte_events(s), 0, cap).1 == cap + 1,
        scan_line(byte_events(s), 0, cap).2 == s.take(cap as int),
        scan_line(byte_events(s), 0, cap).3 == s.take(cap as int + 1),
        scan_line(byte_events(s), 0, cap).4 == Seq::<u8>::empty(),
{
    let events = byte_events(s);
    assert(forall|j: int| 0 <= j < cap ==> is_plain_byte(#[trigger] events[j]));
    lemma_scan_line_prefix(events, cap as int, cap);
    let rest = events.skip(cap as int);
    assert(rest[0] == events[cap as int]);
    assert(rest[0] == SerialEvent::Byte(s[cap as int]));
    assert(scan_line(events, 0, cap).2 =~= s.take(cap as int));
    assert(bytes_of(events.take(cap as int)) + seq![s[cap as int]] =~= s.take(cap as int + 1));
}

/// What the transport loop must do with one received byte.
#[derive(Debug, Clone, Copy, PartialEq, Eq, Structural)]
pub enum ByteAction {
    /// The byte was buffered: echo it back (write it, then flush) and read on.
    Echo,
    /// The terminator arrived: write the line end; the buffered word is done.
    EndLine,
    /// The buffer was already full: echo the byte, then treat it as rejected.
    Reject,
}

/// One step of the collector on a received byte: decides what to do with it
/// and keeps the buffer in step with that decision.
pub fn feed_byte(buffer: &mut LineBuffer, byte: u8) -> (a: ByteAction)
    ensures
        byte == TERMINATOR ==> a == ByteAction::EndLine && final(buffer)@ == old(buffer)@,
        byte != TERMINATOR && old(buffer)@.len() < LINE_CAPACITY ==> a == ByteAction::Echo
            && final(buffer)@ == old(buffer)@.push(byte),
        byte != TERMINATOR && old(buffer)@.len() >= LINE_CAPACITY ==> a == ByteAction::Reject
            && final(buffer)@ == old(buffer)@,
{
    if byte == TERMINATOR {
        ByteAction::EndLine
    } else {
        match buffer.push(byte) {
            Ok(()) => ByteAction::Echo,
            Err(_) => ByteAction::Reject,
        }
    }
}

/// Copies a borrowed detail text into an owned one.
fn copy_bytes(d: &Vec<u8>) -> (r: Vec<u8>)
    ensures
        r@ == d@,
{
    let mut r: Vec<u8> = Vec::new();
    append_slice(&mut r, d.as_slice());
    assert(r@ =~= d@);
    r
}

/// What one transport event means for the attempt in progress.
#[derive(Debug, Clone, PartialEq, Eq)]
pub enum EventStep {
    /// The byte was handled; act as [`ByteAction`] says and read on.
    Act(ByteAction),
    /// The transport failed: the attempt is abandoned with this failure, to
    /// be reported by the command loop, which then prompts again.
    Abort(FillError),
}

/// One step of the collector on what the transport did: a byte is fed as
/// [`feed_byte`] does; a failed read or a failed byte echo abandons the
/// attempt as a transport failure, and a failed line-end write as a
/// formatted-write failure.
pub fn feed_event(buffer: &mut LineBuffer, event: &SerialEvent) -> (s: EventStep)
    ensures
        event matches SerialEvent::Byte(b) ==> {
            &&& (b == TERMINATOR ==> s == EventStep::Act(ByteAction::EndLine) && final(buffer)@
                == old(buffer)@)
            &&& (b != TERMINATOR && old(buffer)@.len() < LINE_CAPACITY ==> s == EventStep::Act(
                ByteAction::Echo,
            ) && final(buffer)@ == old(buffer)@.push(*b))
            &&& (b != TERMINATOR && old(buffer)@.len() >= LINE_CAPACITY ==> s == EventStep::Act(
                ByteAction::Reject,
            ) && final(buffer)@ == old(buffer)@)
        },
        event matches SerialEvent::ReadFault(d) ==> final(buffer)@ == old(buffer)@ && (
        s matches EventStep::Abort(FillError::Transport(d2)) && d2@ == d@),
        event matches SerialEvent::EchoFault(b, d) ==> final(buffer)@ == old(buffer)@ && (if b
            == TERMINATOR {
            s matches EventStep::Abort(FillError::Write(d2)) && d2@ == d@
        } else {
            s matches EventStep::Abort(FillError::Transport(d2)) && d2@ == d@
        }),
{
    match event {
        SerialEvent::Byte(b) => EventStep::Act(feed_byte(buffer, *b)),
        SerialEvent::ReadFault(d) => EventStep::Abort(FillError::Transport(copy_bytes(d))),
        SerialEvent::EchoFault(b, d) => if *b == TERMINATOR {
            EventStep::Abort(FillError::Write(copy_bytes(d)))
        } else {
            EventStep::Abort(FillError::Transport(copy_bytes(d)))
        },
    }
}

/// Runs one whole collecting attempt over a trace, as the command variant
/// does: the buffer is cleared first, every buffered byte is echoed, a
/// terminator completes the line, and an overflow or a transport fault is
/// surfaced to the caller. Returns how the attempt ended, how many events it
/// consumed, the echoed bytes, and the fault's rendered text (empty when no
/// fault ended it).
pub fn try_fill_buffer_with_echo(buffer: &mut LineBuffer, events: &[SerialEvent]) -> (r: (
    LineEnd,
    usize,
    Vec<u8>,
    Vec<u8>,
))
    ensures
        r.0 == scan_line(events@, 0, LINE_CAPACITY as nat).0,
        r.1 == scan_line(events@, 0, LINE_CAPACITY as nat).1,
        r.2@ == scan_line(events@, 0, LINE_CAPACITY as nat).3,
        r.3@ == scan_line(events@, 0, LINE_CAPACITY as nat).4,
        final(buffer)@ == scan_line(events@, 0, LINE_CAPACITY as nat).2,
{
    buffer.clear();
    let mut echoed: Vec<u8> = Vec::new();
    let mut i: usize = 0;
    while i < events.len()
        invariant
            0 <= i <= events@.len(),
            i <= LINE_CAPACITY,
            buffer@ == bytes_of(events@.take(i as int)),
            echoed@ == bytes_of(events@.take(i as int)),
            forall|j: int| 0 <= j < i ==> is_plain_byte(#[trigger] events@[j]),
        decreases events@.len() - i,
    {
        proof {
            lemma_scan_line_prefix(events@, i as int, LINE_CAPACITY as nat);
            assert(events@.skip(i as int)[0] == events@[i as int]);
            assert(bytes_of(events@.take(i as int)) + Seq::<u8>::empty() =~= bytes_of(
                events@.take(i as int),
            ));
        }
        match &events[i] {
            SerialEvent::ReadFault(d) => {
                return (LineEnd::ReadFailed, i + 1, echoed, copy_bytes(d));
            },
            SerialEvent::EchoFault(b, d) => {
                return (LineEnd::EchoFailed(*b), i + 1, echoed, copy_bytes(d));
            },
            SerialEvent::Byte(b) => {
                let byte = *b;
                if byte == TERMINATOR {
                    append_crlf(&mut echoed);
                    return (LineEnd::Done, i + 1, echoed, Vec::new());
                }
                if i == LINE_CAPACITY {
                    echoed.push(byte);
                    assert(bytes_of(events@.take(i as int)) + seq![byte] =~= echoed@);
                    return (LineEnd::Full(byte), i + 1, echoed, Vec::new());
                }
                let pushed = buffer.push(byte);
                assert(pushed is Ok);
                echoed.push(byte);
                assert(bytes_of(events@.take(i as int)).push(byte) =~= bytes_of(
                    events@.take(i as int + 1),
                ));
                i = i + 1;
            },
        }
    }
    proof {
        lemma_scan_line_prefix(events@, i as int, LINE_CAPACITY as nat);
        assert(events@.skip(i as int) =~= Seq::<SerialEvent>::empty());
        assert(bytes_of(events@.take(i as int)) + Seq::<u8>::empty() =~= bytes_of(
            events@.take(i as int),
        ));
        assert(events@.take(i as int) =~= events@);
    }
    (LineEnd::Starved, i, echoed, Vec::new())
}

/// Runs one attempt of the plain echo loop over a trace of received bytes
/// (in that demo a transport fault is fatal to its caller, so the trace
/// carries bytes alone). The buffering is the same as in the command variant
/// but into the wider word buffer, and nothing is echoed per byte: a
/// completed word is reversed in place and written back with a line end,
/// while an overflow is handled locally by writing a fixed diagnostic instead
/// of failing the caller. Returns how the attempt ended, how many bytes it
/// consumed, and the bytes written back.
pub fn echo_one_word(buffer: &mut WordBuffer, input: &[u8]) -> (r: (LineEnd, usize, Vec<u8>))
    ensures
        r.0 == scan_line(byte_events(input@), 0, WORD_CAPACITY as nat).0,
        r.1 == scan_line(byte_events(input@), 0, WORD_CAPACITY as nat).1,
        final(buffer)@ == (if r.0 == LineEnd::Done {
            scan_line(byte_events(input@), 0, WORD_CAPACITY as nat).2.reverse()
        } else {
            scan_line(byte_events(input@), 0, WORD_CAPACITY as nat).2
        }),
        r.2@ == match scan_line(byte_events(input@), 0, WORD_CAPACITY as nat).0 {
            LineEnd::Done => scan_line(byte_events(input@), 0, WORD_CAPACITY as nat).2.reverse()
                + crlf(),
            LineEnd::Full(_) => too_long_text(),
            _ => Seq::<u8>::empty(),
        },
{
    let ghost events = byte_events(input@);
    buffer.clear();
    let mut i: usize = 0;
    while i < input.len()
        invariant
            0 <= i <= input@.len(),
            i <= WORD_CAPACITY,
            events == byte_events(input@),
            buffer@ == input@.take(i as int),
            forall|j: int| 0 <= j < i ==> input@[j] != TERMINATOR,
        decreases input@.len() - i,
    {
        proof {
            assert(forall|j: int| 0 <= j < i ==> is_plain_byte(#[trigger] events[j]));
            lemma_scan_line_prefix(events, i as int, WORD_CAPACITY as nat);
            assert(events.skip(i as int)[0] == events[i as int]);
            assert(events[i as int] == SerialEvent::Byte(input@[i as int]));
            assert(bytes_of(events.take(i as int)) =~= input@.take(i as int));
        }
        let byte = input[i];
        if byte == TERMINATOR {
            assert(buffer@ == scan_line(events, 0, WORD_CAPACITY as nat).2);
            reverse_word(buffer);
            let mut written: Vec<u8> = Vec::new();
            append_slice(&mut written, buffer.as_slice());
            append_crlf(&mut written);
            assert(Seq::<u8>::empty() + buffer@ =~= buffer@);
            return (LineEnd::Done, i + 1, written);
        }
        if i == WORD_CAPACITY {
            let mut written: Vec<u8> = Vec::new();
            append_too_long_text(&mut written);
            assert(Seq::<u8>::empty() + too_long_text() =~= too_long_text());
            assert(bytes_of(events.take(i as int)) =~= buffer@);
            return (LineEnd::Full(byte), i + 1, written);
        }
        let pushed = buffer.push(byte);
        assert(pushed is Ok);
        assert(input@.take(i as int).push(byte) =~= input@.take(i as int + 1));
        i = i + 1;
    }
    proof {
        assert(forall|j: int| 0 <= j < i ==> is_plain_byte(#[trigger] events[j]));
        lemma_scan_line_prefix(events, i as int, WORD_CAPACITY as nat);
        assert(events.skip(i as int) =~= Seq::<SerialEvent>::empty());
        assert(bytes_of(events.take(i as int)) + Seq::<u8>::empty() =~= input@.take(i as int));
        assert(events.take(i as int) =~= events);
        assert(input@.take(i as int) =~= input@);
    }
    (LineEnd::Starved, i, Vec::new())
}

/// Reverses the buffered word in place, as the echo loop does before writing
/// it back. The capacity bound on the contents holds of every buffer built
/// through [`WordBuffer`]'s own operations.
fn reverse_word(buffer: &mut WordBuffer)
    requires
        old(buffer)@.len() <= WORD_CAPACITY,
    ensures
        final(buffer)@ == old(buffer)@.reverse(),
{
    let mut tmp: Vec<u8> = Vec::new();
    let word = buffer.as_slice();
    let mut j: usize = word.len();
    assert(word@.skip(j as int).reverse() =~= Seq::<u8>::empty());
    while j > 0
        invariant
            0 <= j <= word@.len(),
            word@ == old(buffer)@,
            tmp@ == word@.skip(j as int).reverse(),
        decreases j,
    {
        j = j - 1;
        tmp.push(word[j]);
        assert(tmp@ =~= word@.skip(j as int).reverse());
    }
    assert(word@.skip(0) =~= word@);
    buffer.clear();
    let mut k: usize = 0;
    while k < tmp.len()
        invariant
            0 <= k <= tmp@.len(),
            tmp@ == old(buffer)@.reverse(),
            tmp@.len() <= WORD_CAPACITY,
            buffer@ == tmp@.take(k as int),
        decreases tmp@.len() - k,
    {
        let pushed = buffer.push(tmp[k]);
        assert(pushed is Ok);
        assert(tmp@.take(k as int).push(tmp@[k as int]) =~= tmp@.take(k as int + 1));
        k = k + 1;
    }
    assert(buffer@ =~= tmp@);
}

} // verus!
