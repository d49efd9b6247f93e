//! The command loop: prompt, collect a line with echo, parse it, and either
//! hand the command on or report the failure and prompt again. [`session`] is
//! the mathematical model of the whole loop on an input trace;
//! [`try_read_command`] runs one attempt, [`read_command`] the loop, and
//! [`serve_one_command`] a full cycle through to the sensor report.

use vstd::prelude::*;
use vstd::utf8::valid_utf8;
use crate::buffer::{LineBuffer, LINE_CAPACITY};
use crate::sensor::{axis_of, poll_and_report, report_text, Sample};
use crate::collector::{
    lemma_scan_line_consumed, scan_line, try_fill_buffer_with_echo, LineEnd, SerialEvent,
    TERMINATOR,
};
use crate::errors::{message_bytes, CommandError, FillError};
use crate::parser::{parse_command, parse_spec, utf8_error_detail, Command};
use crate::text::{
    append_crlf, append_error_banner_text, append_prompt_text, append_slice, colon_sep, crlf,
    error_banner_text, overflow_error_text, prompt_text, serial_error_text, unrecognized_prefix,
    utf8_error_text, write_error_text,
};

verus! {

/// What one read attempt produces: a command, a failure to report, or — when
/// the input trace ran out mid-line — nothing yet.
#[derive(Debug)]
pub enum AttemptResult {
    /// The input was exhausted before the line was complete.
    Pending,
    /// A complete line parsed to a command.
    Got(Command),
    /// The attempt failed; the error is reported and the loop prompts again.
    Failed(CommandError),
}

/// One read attempt: what it produced, how many input events it took, and
/// the bytes it echoed back while reading.
#[derive(Debug)]
pub struct Attempt {
    pub result: AttemptResult,
    pub consumed: usize,
    pub echoed: Vec<u8>,
}

/// The display text of a failed attempt that ended as `end` with `word`
/// buffered and `detail` carried by the fault: an overflow, a failed read or
/// byte echo (a transport failure), a failed line-end write (a
/// formatted-write failure), an undecodable word, or an unrecognized word.
/// The transport, formatted-write and decoding failures show the underlying
/// error's rendered text after their label.
pub open spec fn attempt_message(end: LineEnd, word: Seq<u8>, detail: Seq<u8>) -> Seq<u8> {
    match end {
        LineEnd::Full(_) => overflow_error_text(),
        LineEnd::ReadFailed => serial_error_text() + colon_sep() + detail,
        LineEnd::EchoFailed(b) => if b == TERMINATOR {
            write_error_text() + colon_sep() + detail
        } else {
            serial_error_text() + colon_sep() + detail
        },
        _ => if !valid_utf8(word) {
            utf8_error_text() + colon_sep() + utf8_error_detail(word)
        } else {
            unrecognized_prefix() + word
        },
    }
}

/// Runs one read attempt over `input`: collect a line into the buffer with
/// echo, then parse it. An overflow is propagated as the composite error, as
/// the command variant requires.
pub fn try_read_command(buffer: &mut LineBuffer, input: &[SerialEvent]) -> (a: Attempt)
    ensures
        a.consumed == scan_line(input@, 0, LINE_CAPACITY as nat).1,
        a.echoed@ == scan_line(input@, 0, LINE_CAPACITY as nat).3,
        final(buffer)@ == scan_line(input@, 0, LINE_CAPACITY as nat).2,
        match a.result {
            AttemptResult::Pending => scan_line(input@, 0, LINE_CAPACITY as nat).0 == LineEnd::Starved,
            AttemptResult::Got(c) => scan_line(input@, 0, LINE_CAPACITY as nat).0 == LineEnd::Done && parse_spec(
                scan_line(input@, 0, LINE_CAPACITY as nat).2,
            ) == Some(c),
            AttemptResult::Failed(e) => match e {
                CommandError::Overflow(b) => scan_line(input@, 0, LINE_CAPACITY as nat).0 == LineEnd::Full(b),
                CommandError::Transport(d) => (scan_line(input@, 0, LINE_CAPACITY as nat).0 == LineEnd::ReadFailed
                    || (scan_line(input@, 0, LINE_CAPACITY as nat).0 matches LineEnd::EchoFailed(b)
                    && b != TERMINATOR)) && d@ == scan_line(input@, 0, LINE_CAPACITY as nat).4,
                CommandError::Write(d) => scan_line(input@, 0, LINE_CAPACITY as nat).0 matches LineEnd::EchoFailed(b)
                    && b == TERMINATOR && d@ == scan_line(input@, 0, LINE_CAPACITY as nat).4,
                CommandError::Utf8(d) => scan_line(input@, 0, LINE_CAPACITY as nat).0 == LineEnd::Done && !valid_utf8(
                    scan_line(input@, 0, LINE_CAPACITY as nat).2,
                ) && d@ == utf8_error_detail(scan_line(input@, 0, LINE_CAPACITY as nat).2),
                CommandError::Unrecognized(w) => scan_line(input@, 0, LINE_CAPACITY as nat).0 == LineEnd::Done
                    && valid_utf8(scan_line(input@, 0, LINE_CAPACITY as nat).2) && parse_spec(scan_line(input@, 0, LINE_CAPACITY as nat).2)
                    is None && w@ == scan_line(input@, 0, LINE_CAPACITY as nat).2,
            },
        },
{
    let (end, consumed, echoed, detail) = try_fill_buffer_with_echo(buffer, input);
    let result = match end {
        LineEnd::Starved => AttemptResult::Pending,
        LineEnd::Full(b) => AttemptResult::Failed(CommandError::from(FillError::Overflow(b))),
        LineEnd::ReadFailed => AttemptResult::Failed(
            CommandError::from(FillError::Transport(detail)),
        ),
        LineEnd::EchoFailed(b) => if b == TERMINATOR {
            AttemptResult::Failed(CommandError::from(FillError::Write(detail)))
        } else {
            AttemptResult::Failed(CommandError::from(FillError::Transport(detail)))
        },
        LineEnd::Done => match parse_command(buffer.as_slice()) {
            Ok(c) => AttemptResult::Got(c),
            Err(e) => AttemptResult::Failed(e),
        },
    };
    Attempt { result, consumed, echoed }
}

/// Model of the whole command loop on an input trace: write the prompt, run
/// one attempt, and either stop with the parsed command, report the failure
/// and start over on the remaining input, or — the trace exhausted mid-line —
/// stop with nothing, the loop still waiting to read. Yields the command (if
/// one was read), the events consumed, and every byte written to the
/// transport.
pub open spec fn session(s: Seq<SerialEvent>) -> (Option<Command>, int, Seq<u8>)
    decreases s.len(),
    via session_decreases
{
    let scan = scan_line(s, 0, LINE_CAPACITY as nat);
    let head = prompt_text() + scan.3;
    if scan.0 == LineEnd::Starved {
        (None::<Command>, scan.1, head)
    } else if scan.0 == LineEnd::Done && parse_spec(scan.2) is Some {
        (Some(parse_spec(scan.2).unwrap()), scan.1, head)
    } else {
        let report = error_banner_text() + attempt_message(scan.0, scan.2, scan.4) + crlf();
        let rest = session(s.skip(scan.1));
        (rest.0, scan.1 + rest.1, head + report + rest.2)
    }
}

#[via_fn]
proof fn session_decreases(s: Seq<SerialEvent>) {
    lemma_scan_line_consumed(s, 0, LINE_CAPACITY as nat);
}

/// Runs the command loop over an input trace until a command is read or the
/// trace is exhausted. Failures are caught here, rendered, and reported; the
/// loop then prompts again — exactly the recovery the model states.
pub fn read_command(input: &[SerialEvent]) -> (r: (Option<Command>, usize, Vec<u8>))
    ensures
        r.0 == session(input@).0,
        r.1 == session(input@).1,
        r.2@ == session(input@).2,
{
    let mut buffer = LineBuffer::new();
    let mut pos: usize = 0;
    let mut output: Vec<u8> = Vec::new();
    proof {
        assert(input@.skip(0) =~= input@);
        assert(output@ + session(input@).2 =~= session(input@).2);
    }
    loop
        invariant
            0 <= pos <= input@.len(),
            session(input@).0 == session(input@.skip(pos as int)).0,
            session(input@).1 == pos + session(input@.skip(pos as int)).1,
            session(input@).2 == output@ + session(input@.skip(pos as int)).2,
        decreases input@.len() - pos,
    {
        append_prompt_text(&mut output);
        let rest = vstd::slice::slice_subrange(input, pos, input.len());
        assert(rest@ =~= input@.skip(pos as int));
        let attempt = try_read_command(&mut buffer, rest);
        proof {
            lemma_scan_line_consumed(rest@, 0, LINE_CAPACITY as nat);
        }
        append_slice(&mut output, attempt.echoed.as_slice());
        let new_pos = pos + attempt.consumed;
        match attempt.result {
            AttemptResult::Pending => {
                assert(output@ =~= session(input@).2);
                return (None, new_pos, output);
            },
            AttemptResult::Got(c) => {
                assert(output@ =~= session(input@).2);
                return (Some(c), new_pos, output);
            },
            AttemptResult::Failed(e) => {
                append_error_banner_text(&mut output);
                let msg = e.message();
                append_slice(&mut output, msg.as_slice());
                append_crlf(&mut output);
                proof {
                    let scan = scan_line(rest@, 0, LINE_CAPACITY as nat);
                    crate::parser::lemma_command_words_valid_utf8();
                    assert(!(scan.0 == LineEnd::Done && parse_spec(scan.2) is Some));
                    assert(message_bytes(e) =~= attempt_message(scan.0, scan.2, scan.4));
                    assert(input@.skip(pos as int).skip(scan.1) =~= input@.skip(new_pos as int));
                    assert(session(input@).2 =~= output@ + session(input@.skip(new_pos as int)).2);
                }
                pos = new_pos;
            },
        }
    }
}

/// One full cycle of the console on recorded traces: run the command loop
/// over the input until a command is read, then busy-poll that command's axis
/// group over the trace of status answers and report the sample the read
/// returned. The output holds everything written to the transport; when the
/// input ends mid-line, or the status never turns fresh, the cycle is still
/// waiting and nothing more is written.
pub fn serve_one_command(input: &[SerialEvent], fresh: &[bool], sample: Sample) -> (r: (
    Option<Command>,
    usize,
    Vec<u8>,
))
    ensures
        r.0 == session(input@).0,
        r.1 == session(input@).1,
        r.0 is None ==> r.2@ == session(input@).2,
        r.0 matches Some(c) ==> r.2@ == session(input@).2 + (if exists|i: int|
            0 <= i < fresh@.len() && fresh@[i] {
            report_text(axis_of(c), sample)
        } else {
            Seq::<u8>::empty()
        }),
{
    let (cmd, consumed, mut output) = read_command(input);
    match cmd {
        None => (None, consumed, output),
        Some(c) => {
            match poll_and_report(&c, fresh, sample) {
                Some(line) => {
                    append_slice(&mut output, line.as_slice());
                },
                None => {
                    assert(output@ + Seq::<u8>::empty() =~= output@);
                },
            }
            (Some(c), consumed, output)
        },
    }
}

} // verus!
